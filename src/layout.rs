//! The fixed 200-byte little-endian layout of a conditional swap record.
use vstd::prelude::*;
use vstd::bytes::*;
use vstd::slice::slice_subrange;
use crate::token_conditional_swap::TokenConditionalSwap;

verus! {

/// Size in bytes of a stored record.
pub const TOKEN_CONDITIONAL_SWAP_SIZE: usize = 200;

/// Offset of the reserved tail.
pub const RESERVED_OFFSET: usize = 89;

/// The stored bytes of a record: its fields in declaration order, integers
/// little-endian, then the reserved tail.
pub open spec fn encode(t: TokenConditionalSwap) -> Seq<u8> {
    spec_u64_to_le_bytes(t.id)
        + spec_u64_to_le_bytes(t.max_buy)
        + spec_u64_to_le_bytes(t.max_sell)
        + spec_u64_to_le_bytes(t.bought)
        + spec_u64_to_le_bytes(t.sold)
        + spec_u64_to_le_bytes(t.expiry_timestamp)
        + spec_u64_to_le_bytes(t.price_lower_limit)
        + spec_u64_to_le_bytes(t.price_upper_limit)
        + spec_u64_to_le_bytes(t.price_premium_rate)
        + spec_u32_to_le_bytes(t.taker_fee_rate)
        + spec_u32_to_le_bytes(t.maker_fee_rate)
        + spec_u16_to_le_bytes(t.buy_token_index)
        + spec_u16_to_le_bytes(t.sell_token_index)
        + seq![t.has_data, t.allow_creating_deposits, t.allow_creating_borrows, t.display_price_style, t.intention]
        + t.reserved@
}

proof fn lemma_encode_pieces(t: TokenConditionalSwap)
    ensures
        encode(t).len() == 200,
        encode(t).subrange(0, 8) == spec_u64_to_le_bytes(t.id),
        encode(t).subrange(8, 16) == spec_u64_to_le_bytes(t.max_buy),
        encode(t).subrange(16, 24) == spec_u64_to_le_bytes(t.max_sell),
        encode(t).subrange(24, 32) == spec_u64_to_le_bytes(t.bought),
        encode(t).subrange(32, 40) == spec_u64_to_le_bytes(t.sold),
        encode(t).subrange(40, 48) == spec_u64_to_le_bytes(t.expiry_timestamp),
        encode(t).subrange(48, 56) == spec_u64_to_le_bytes(t.price_lower_limit),
        encode(t).subrange(56, 64) == spec_u64_to_le_bytes(t.price_upper_limit),
        encode(t).subrange(64, 72) == spec_u64_to_le_bytes(t.price_premium_rate),
        encode(t).subrange(72, 76) == spec_u32_to_le_bytes(t.taker_fee_rate),
        encode(t).subrange(76, 80) == spec_u32_to_le_bytes(t.maker_fee_rate),
        encode(t).subrange(80, 82) == spec_u16_to_le_bytes(t.buy_token_index),
        encode(t).subrange(82, 84) == spec_u16_to_le_bytes(t.sell_token_index),
        encode(t)[84] == t.has_data,
        encode(t)[85] == t.allow_creating_deposits,
        encode(t)[86] == t.allow_creating_borrows,
        encode(t)[87] == t.display_price_style,
        encode(t)[88] == t.intention,
        encode(t).subrange(89, 200) == t.reserved@,
{
    lemma_auto_spec_u64_to_from_le_bytes();
    lemma_auto_spec_u32_to_from_le_bytes();
    lemma_auto_spec_u16_to_from_le_bytes();
    let e = encode(t);
    assert(e.subrange(0, 8) =~= spec_u64_to_le_bytes(t.id));
    assert(e.subrange(8, 16) =~= spec_u64_to_le_bytes(t.max_buy));
    assert(e.subrange(16, 24) =~= spec_u64_to_le_bytes(t.max_sell));
    assert(e.subrange(24, 32) =~= spec_u64_to_le_bytes(t.bought));
    assert(e.subrange(32, 40) =~= spec_u64_to_le_bytes(t.sold));
    assert(e.subrange(40, 48) =~= spec_u64_to_le_bytes(t.expiry_timestamp));
    assert(e.subrange(48, 56) =~= spec_u64_to_le_bytes(t.price_lower_limit));
    assert(e.subrange(56, 64) =~= spec_u64_to_le_bytes(t.price_upper_limit));
    assert(e.subrange(64, 72) =~= spec_u64_to_le_bytes(t.price_premium_rate));
    assert(e.subrange(72, 76) =~= spec_u32_to_le_bytes(t.taker_fee_rate));
    assert(e.subrange(76, 80) =~= spec_u32_to_le_bytes(t.maker_fee_rate));
    assert(e.subrange(80, 82) =~= spec_u16_to_le_bytes(t.buy_token_index));
    assert(e.subrange(82, 84) =~= spec_u16_to_le_bytes(t.sell_token_index));
    assert(e.subrange(89, 200) =~= t.reserved@);
}

/// Two records with the same stored bytes are the same record: decoding the
/// bytes of a record gives back that record, every field and flag included.
pub proof fn lemma_encode_injective(t: TokenConditionalSwap, u: TokenConditionalSwap)
    requires
        encode(t) == encode(u),
    ensures
        t == u,
{
    lemma_encode_pieces(t);
    lemma_encode_pieces(u);
    lemma_auto_spec_u64_to_from_le_bytes();
    lemma_auto_spec_u32_to_from_le_bytes();
    lemma_auto_spec_u16_to_from_le_bytes();
    assert(spec_u64_from_le_bytes(encode(t).subrange(0, 8)) == t.id);
    assert(spec_u64_from_le_bytes(encode(u).subrange(0, 8)) == u.id);
    assert(spec_u64_from_le_bytes(encode(t).subrange(8, 16)) == t.max_buy);
    assert(spec_u64_from_le_bytes(encode(u).subrange(8, 16)) == u.max_buy);
    assert(spec_u64_from_le_bytes(encode(t).subrange(16, 24)) == t.max_sell);
    assert(spec_u64_from_le_bytes(encode(u).subrange(16, 24)) == u.max_sell);
    assert(spec_u64_from_le_bytes(encode(t).subrange(24, 32)) == t.bought);
    assert(spec_u64_from_le_bytes(encode(u).subrange(24, 32)) == u.bought);
    assert(spec_u64_from_le_bytes(encode(t).subrange(32, 40)) == t.sold);
    assert(spec_u64_from_le_bytes(encode(u).subrange(32, 40)) == u.sold);
    assert(spec_u64_from_le_bytes(encode(t).subrange(40, 48)) == t.expiry_timestamp);
    assert(spec_u64_from_le_bytes(encode(u).subrange(40, 48)) == u.expiry_timestamp);
    assert(spec_u64_from_le_bytes(encode(t).subrange(48, 56)) == t.price_lower_limit);
    assert(spec_u64_from_le_bytes(encode(u).subrange(48, 56)) == u.price_lower_limit);
    assert(spec_u64_from_le_bytes(encode(t).subrange(56, 64)) == t.price_upper_limit);
    assert(spec_u64_from_le_bytes(encode(u).subrange(56, 64)) == u.price_upper_limit);
    assert(spec_u64_from_le_bytes(encode(t).subrange(64, 72)) == t.price_premium_rate);
    assert(spec_u64_from_le_bytes(encode(u).subrange(64, 72)) == u.price_premium_rate);
    assert(spec_u32_from_le_bytes(encode(t).subrange(72, 76)) == t.taker_fee_rate);
    assert(spec_u32_from_le_bytes(encode(u).subrange(72, 76)) == u.taker_fee_rate);
    assert(spec_u32_from_le_bytes(encode(t).subrange(76, 80)) == t.maker_fee_rate);
    assert(spec_u32_from_le_bytes(encode(u).subrange(76, 80)) == u.maker_fee_rate);
    assert(spec_u16_from_le_bytes(encode(t).subrange(80, 82)) == t.buy_token_index);
    assert(spec_u16_from_le_bytes(encode(u).subrange(80, 82)) == u.buy_token_index);
    assert(spec_u16_from_le_bytes(encode(t).subrange(82, 84)) == t.sell_token_index);
    assert(spec_u16_from_le_bytes(encode(u).subrange(82, 84)) == u.sell_token_index);
    assert(t.reserved@ =~= u.reserved@);
    vstd::array::axiom_array_ext_equal(t.reserved, u.reserved);
    assert(t.reserved == u.reserved);
}

impl TokenConditionalSwap {
    /// The stored bytes of the record.
    pub fn to_bytes(&self) -> (r: Vec<u8>)
        ensures
            r@ == encode(*self),
            r@.len() == TOKEN_CONDITIONAL_SWAP_SIZE,
    {
        proof {
            lemma_encode_pieces(*self);
        }
        let mut v: Vec<u8> = Vec::new();
        let mut b = u64_to_le_bytes(self.id);
        v.append(&mut b);
        let mut b = u64_to_le_bytes(self.max_buy);
        v.append(&mut b);
        let mut b = u64_to_le_bytes(self.max_sell);
        v.append(&mut b);
        let mut b = u64_to_le_bytes(self.bought);
        v.append(&mut b);
        let mut b = u64_to_le_bytes(self.sold);
        v.append(&mut b);
        let mut b = u64_to_le_bytes(self.expiry_timestamp);
        v.append(&mut b);
        let mut b = u64_to_le_bytes(self.price_lower_limit);
        v.append(&mut b);
        let mut b = u64_to_le_bytes(self.price_upper_limit);
        v.append(&mut b);
        let mut b = u64_to_le_bytes(self.price_premium_rate);
        v.append(&mut b);
        let mut b = u32_to_le_bytes(self.taker_fee_rate);
        v.append(&mut b);
        let mut b = u32_to_le_bytes(self.maker_fee_rate);
        v.append(&mut b);
        let mut b = u16_to_le_bytes(self.buy_token_index);
        v.append(&mut b);
        let mut b = u16_to_le_bytes(self.sell_token_index);
        v.append(&mut b);
        v.push(self.has_data);
        v.push(self.allow_creating_deposits);
        v.push(self.allow_creating_borrows);
        v.push(self.display_price_style);
        v.push(self.intention);
        let ghost head = v@;
        let mut i: usize = 0;
        while i < 111
            invariant
                i <= 111,
                v@ == head + self.reserved@.subrange(0, i as int),
                self.reserved@.len() == 111,
            decreases 111 - i,
        {
            v.push(self.reserved[i]);
            i = i + 1;
            proof {
                assert(v@ =~= head + self.reserved@.subrange(0, i as int));
            }
        }
        proof {
            assert(self.reserved@.subrange(0, 111) =~= self.reserved@);
            assert(v@ =~= encode(*self));
        }
        v
    }

    /// The record stored in `bytes`, or `None` unless there are exactly
    /// `TOKEN_CONDITIONAL_SWAP_SIZE` of them.
    pub fn from_bytes(bytes: &[u8]) -> (r: Option<TokenConditionalSwap>)
        ensures
            r.is_some() == (bytes@.len() == TOKEN_CONDITIONAL_SWAP_SIZE),
            r.is_some() ==> encode(r.unwrap()) == bytes@,
    {
        if bytes.len() != TOKEN_CONDITIONAL_SWAP_SIZE {
            return None;
        }
        let mut reserved: [u8; 111] = vstd::array::array_fill_for_copy_types(0u8);
        let mut i: usize = 0;
        while i < 111
            invariant
                i <= 111,
                bytes@.len() == 200,
                reserved@.len() == 111,
                forall|j: int| 0 <= j < i ==> reserved@[j] == bytes@[89 + j],
            decreases 111 - i,
        {
            reserved[i] = bytes[RESERVED_OFFSET + i];
            i = i + 1;
        }
        let t = TokenConditionalSwap {
            id: u64_from_le_bytes(slice_subrange(bytes, 0, 8)),
            max_buy: u64_from_le_bytes(slice_subrange(bytes, 8, 16)),
            max_sell: u64_from_le_bytes(slice_subrange(bytes, 16, 24)),
            bought: u64_from_le_bytes(slice_subrange(bytes, 24, 32)),
            sold: u64_from_le_bytes(slice_subrange(bytes, 32, 40)),
            expiry_timestamp: u64_from_le_bytes(slice_subrange(bytes, 40, 48)),
            price_lower_limit: u64_from_le_bytes(slice_subrange(bytes, 48, 56)),
            price_upper_limit: u64_from_le_bytes(slice_subrange(bytes, 56, 64)),
            price_premium_rate: u64_from_le_bytes(slice_subrange(bytes, 64, 72)),
            taker_fee_rate: u32_from_le_bytes(slice_subrange(bytes, 72, 76)),
            maker_fee_rate: u32_from_le_bytes(slice_subrange(bytes, 76, 80)),
            buy_token_index: u16_from_le_bytes(slice_subrange(bytes, 80, 82)),
            sell_token_index: u16_from_le_bytes(slice_subrange(bytes, 82, 84)),
            has_data: bytes[84],
            allow_creating_deposits: bytes[85],
            allow_creating_borrows: bytes[86],
            display_price_style: bytes[87],
            intention: bytes[88],
            reserved,
        };
        proof {
            lemma_encode_pieces(t);
            lemma_auto_spec_u64_to_from_le_bytes();
            lemma_auto_spec_u32_to_from_le_bytes();
            lemma_auto_spec_u16_to_from_le_bytes();
            assert(reserved@ =~= bytes@.subrange(89, 200));
            assert(encode(t).subrange(0, 8) == bytes@.subrange(0, 8));
            assert(encode(t).subrange(8, 16) == bytes@.subrange(8, 16));
            assert(encode(t).subrange(16, 24) == bytes@.subrange(16, 24));
            assert(encode(t).subrange(24, 32) == bytes@.subrange(24, 32));
            assert(encode(t).subrange(32, 40) == bytes@.subrange(32, 40));
            assert(encode(t).subrange(40, 48) == bytes@.subrange(40, 48));
            assert(encode(t).subrange(48, 56) == bytes@.subrange(48, 56));
            assert(encode(t).subrange(56, 64) == bytes@.subrange(56, 64));
            assert(encode(t).subrange(64, 72) == bytes@.subrange(64, 72));
            assert(encode(t).subrange(72, 76) == bytes@.subrange(72, 76));
            assert(encode(t).subrange(76, 80) == bytes@.subrange(76, 80));
            assert(encode(t).subrange(80, 82) == bytes@.subrange(80, 82));
            assert(encode(t).subrange(82, 84) == bytes@.subrange(82, 84));
            assert(encode(t) =~= bytes@);
        }
        Some(t)
    }
}

} // verus!
