//! One conditional swap slot: a standing order that may be executed while a
//! reference price lies in a configured range, up to lifetime buy and sell
//! ceilings, until it expires.
use vstd::prelude::*;
use crate::fixed_point::{I80F48, fits_i128, mul_bits, floor_int, ceil_int, clamp_u64, scale};
use vstd::arithmetic::div_mod::lemma_div_is_ordered;
use crate::float_bits::{f64_key, f64_le, f64_bits_le, f32_fixed, f32_bits_to_fixed};

verus! {

/// Index of a token in the protocol's token registry.
pub type TokenIndex = u16;

/// The registry index that marks an unset token.
pub const TOKEN_INDEX_UNSET: TokenIndex = 65535;

/// How a price should be shown to the owner of the order. Stored prices are
/// always "sell token per buy token"; this affects rendering only.
#[derive(Clone, Copy, Debug, PartialEq, Eq, Structural)]
pub enum TokenConditionalSwapDisplayPriceStyle {
    SellTokenPerBuyToken,
    BuyTokenPerSellToken,
}

/// What the owner meant the order for; display only.
#[derive(Clone, Copy, Debug, PartialEq, Eq, Structural)]
pub enum TokenConditionalSwapIntention {
    Unknown,
    /// Reducing a position when the price gets worse
    StopLoss,
    /// Reducing a position when the price gets better
    TakeProfit,
}

impl TokenConditionalSwapDisplayPriceStyle {
    pub open spec fn spec_to_u8(self) -> u8 {
        match self {
            TokenConditionalSwapDisplayPriceStyle::SellTokenPerBuyToken => 0,
            TokenConditionalSwapDisplayPriceStyle::BuyTokenPerSellToken => 1,
        }
    }

    /// The stored byte of this style.
    pub fn to_u8(self) -> (r: u8)
        ensures
            r == self.spec_to_u8(),
    {
        match self {
            TokenConditionalSwapDisplayPriceStyle::SellTokenPerBuyToken => 0,
            TokenConditionalSwapDisplayPriceStyle::BuyTokenPerSellToken => 1,
        }
    }

    /// The style a stored byte names, or `None` for a byte that names none.
    pub fn try_from_u8(v: u8) -> (r: Option<Self>)
        ensures
            v <= 1 <==> r.is_some(),
            r.is_some() ==> r.unwrap().spec_to_u8() == v,
    {
        if v == 0 {
            Some(TokenConditionalSwapDisplayPriceStyle::SellTokenPerBuyToken)
        } else if v == 1 {
            Some(TokenConditionalSwapDisplayPriceStyle::BuyTokenPerSellToken)
        } else {
            None
        }
    }
}

impl TokenConditionalSwapIntention {
    pub open spec fn spec_to_u8(self) -> u8 {
        match self {
            TokenConditionalSwapIntention::Unknown => 0,
            TokenConditionalSwapIntention::StopLoss => 1,
            TokenConditionalSwapIntention::TakeProfit => 2,
        }
    }

    /// The stored byte of this intention.
    pub fn to_u8(self) -> (r: u8)
        ensures
            r == self.spec_to_u8(),
    {
        match self {
            TokenConditionalSwapIntention::Unknown => 0,
            TokenConditionalSwapIntention::StopLoss => 1,
            TokenConditionalSwapIntention::TakeProfit => 2,
        }
    }

    /// The intention a stored byte names, or `None` for a byte that names none.
    pub fn try_from_u8(v: u8) -> (r: Option<Self>)
        ensures
            v <= 2 <==> r.is_some(),
            r.is_some() ==> r.unwrap().spec_to_u8() == v,
    {
        if v == 0 {
            Some(TokenConditionalSwapIntention::Unknown)
        } else if v == 1 {
            Some(TokenConditionalSwapIntention::StopLoss)
        } else if v == 2 {
            Some(TokenConditionalSwapIntention::TakeProfit)
        } else {
            None
        }
    }
}

/// The reduce-only policy of one token, as the quantity clamps read it.
#[derive(Clone, Copy, Debug, PartialEq, Eq, Structural)]
pub struct Bank {
    pub deposits_reduce_only: bool,
    pub borrows_reduce_only: bool,
}

impl Bank {
    /// Whether new deposits of this token may not be created.
    pub fn are_deposits_reduce_only(&self) -> (r: bool)
        ensures
            r == self.deposits_reduce_only,
    {
        self.deposits_reduce_only
    }

    /// Whether new borrows of this token may not be created.
    pub fn are_borrows_reduce_only(&self) -> (r: bool)
        ensures
            r == self.borrows_reduce_only,
    {
        self.borrows_reduce_only
    }
}

/// One conditional swap slot, in its stored form.
///
/// Prices are IEEE 754 binary64 bit patterns and fee rates binary32 bit
/// patterns; flags and display enums are stored bytes.
#[derive(Clone, Copy, Debug)]
pub struct TokenConditionalSwap {
    pub id: u64,
    /// maximum amount of native tokens to buy or sell
    pub max_buy: u64,
    pub max_sell: u64,
    /// how many native tokens were already bought/sold
    pub bought: u64,
    pub sold: u64,
    /// timestamp from which on the swap can no longer execute
    pub expiry_timestamp: u64,
    /// Lowest "sell token per buy token" reference price (binary64 bits) at
    /// which the swap may execute.
    pub price_lower_limit: u64,
    /// Highest reference price (binary64 bits) at which the swap may execute.
    pub price_upper_limit: u64,
    /// The premium over the base price that rewards execution (binary64 bits).
    pub price_premium_rate: u64,
    /// The taker receives premium_price * (1 - taker_fee_rate) (binary32 bits).
    pub taker_fee_rate: u32,
    /// The maker pays premium_price * (1 + maker_fee_rate) (binary32 bits).
    pub maker_fee_rate: u32,
    pub buy_token_index: TokenIndex,
    pub sell_token_index: TokenIndex,
    pub has_data: u8,
    /// may token purchases create deposits?
    pub allow_creating_deposits: u8,
    /// may token selling create borrows?
    pub allow_creating_borrows: u8,
    /// a stored `TokenConditionalSwapDisplayPriceStyle`
    pub display_price_style: u8,
    /// a stored `TokenConditionalSwapIntention`
    pub intention: u8,
    pub reserved: [u8; 111],
}

/// The fee on `base` native sell tokens at the binary32 rate `rate_bits`: the
/// rate rounded to 48 fractional bits, the product rounded down to an
/// integer; `None` when the rate is not finite or out of the fixed-point
/// range, the product overflows, or the fee is not a `u64`.
pub open spec fn fee_for(base: int, rate_bits: u32) -> Option<u64> {
    match f32_fixed(rate_bits) {
        None => None,
        Some(rate) => {
            let p = mul_bits(base, rate);
            if fits_i128(p) && 0 <= floor_int(p) <= u64::MAX {
                Some(floor_int(p) as u64)
            } else {
                None
            }
        },
    }
}

/// The smaller of two integers.
pub open spec fn min_u64(a: u64, b: u64) -> u64 {
    if a <= b {
        a
    } else {
        b
    }
}

impl TokenConditionalSwap {
    /// The counters stay within their ceilings.
    pub open spec fn wf(self) -> bool {
        self.bought <= self.max_buy && self.sold <= self.max_sell
    }

    pub open spec fn spec_has_data(self) -> bool {
        self.has_data == 1
    }

    pub open spec fn spec_remaining_buy(self) -> int {
        self.max_buy - self.bought
    }

    pub open spec fn spec_remaining_sell(self) -> int {
        self.max_sell - self.sold
    }

    pub open spec fn spec_price_in_range(self, price: u64) -> bool {
        f64_le(self.price_lower_limit, price) && f64_le(price, self.price_upper_limit)
    }

    /// The buy cap: the remaining buy amount, and unless new deposits may be
    /// created, no more than brings the position up to zero (rounded up).
    pub open spec fn spec_max_buy_for_position(self, buy_position: int, buy_bank: Bank) -> u64 {
        min_u64(
            self.spec_remaining_buy() as u64,
            if self.allow_creating_deposits == 1 && !buy_bank.deposits_reduce_only {
                u64::MAX
            } else {
                clamp_u64(ceil_int(-buy_position))
            },
        )
    }

    /// The sell cap: the remaining sell amount, and unless new borrows may be
    /// created, no more than brings the position down to zero (rounded down).
    pub open spec fn spec_max_sell_for_position(self, sell_position: int, sell_bank: Bank) -> u64 {
        min_u64(
            self.spec_remaining_sell() as u64,
            if self.allow_creating_borrows == 1 && !sell_bank.borrows_reduce_only {
                u64::MAX
            } else {
                clamp_u64(floor_int(sell_position))
            },
        )
    }

    /// The record of an empty slot.
    pub open spec fn spec_default() -> TokenConditionalSwap {
        TokenConditionalSwap {
            id: 0,
            max_buy: 0,
            max_sell: 0,
            bought: 0,
            sold: 0,
            expiry_timestamp: u64::MAX,
            price_lower_limit: 0,
            price_upper_limit: 0,
            price_premium_rate: 0,
            taker_fee_rate: 0,
            maker_fee_rate: 0,
            buy_token_index: TOKEN_INDEX_UNSET,
            sell_token_index: TOKEN_INDEX_UNSET,
            has_data: 0,
            allow_creating_deposits: 0,
            allow_creating_borrows: 0,
            display_price_style: 0,
            intention: 0,
            reserved: vstd::array::spec_array_fill_for_copy_type::<u8, 111>(0),
        }
    }

    /// Whether the entry is in use
    ///
    /// Note that it's possible for an entry to be in use but be expired
    pub fn has_data(&self) -> (r: bool)
        ensures
            r == self.spec_has_data(),
    {
        self.has_data == 1
    }

    /// Marks the slot as used or empty; nothing else changes.
    pub fn set_has_data(&mut self, has_data: bool)
        ensures
            final(self).has_data == (if has_data { 1u8 } else { 0u8 }),
            *final(self) == (TokenConditionalSwap { has_data: final(self).has_data, ..*old(self) }),
    {
        self.has_data = if has_data { 1 } else { 0 };
    }

    /// Whether the swap can no longer execute at time `now_ts`.
    pub fn is_expired(&self, now_ts: u64) -> (r: bool)
        ensures
            r == (now_ts >= self.expiry_timestamp),
    {
        now_ts >= self.expiry_timestamp
    }

    pub fn allow_creating_deposits(&self) -> (r: bool)
        ensures
            r == (self.allow_creating_deposits == 1),
    {
        self.allow_creating_deposits == 1
    }

    pub fn allow_creating_borrows(&self) -> (r: bool)
        ensures
            r == (self.allow_creating_borrows == 1),
    {
        self.allow_creating_borrows == 1
    }

    /// How much may still be bought.
    pub fn remaining_buy(&self) -> (r: u64)
        requires
            self.wf(),
        ensures
            r == self.spec_remaining_buy(),
    {
        self.max_buy - self.bought
    }

    /// How much may still be sold.
    pub fn remaining_sell(&self) -> (r: u64)
        requires
            self.wf(),
        ensures
            r == self.spec_remaining_sell(),
    {
        self.max_sell - self.sold
    }

    /// Whether the reference price (binary64 bits) lies within both limits,
    /// inclusive; never for a NaN.
    pub fn price_in_range(&self, price: u64) -> (r: bool)
        ensures
            r == self.spec_price_in_range(price),
    {
        f64_bits_le(self.price_lower_limit, price) && f64_bits_le(price, self.price_upper_limit)
    }

    /// The maker fee on `base_sell_amount` native sell tokens, rounded down.
    pub fn maker_fee(&self, base_sell_amount: I80F48) -> (r: Option<u64>)
        ensures
            r == fee_for(base_sell_amount.bits as int, self.maker_fee_rate),
    {
        fee_at_rate(base_sell_amount, self.maker_fee_rate)
    }

    /// The taker fee on `base_sell_amount` native sell tokens, rounded down.
    pub fn taker_fee(&self, base_sell_amount: I80F48) -> (r: Option<u64>)
        ensures
            r == fee_for(base_sell_amount.bits as int, self.taker_fee_rate),
    {
        fee_at_rate(base_sell_amount, self.taker_fee_rate)
    }

    /// The remaining buy amount, taking the current buy token position and
    /// buy bank's reduce-only status into account.
    ///
    /// Note that the account health might further restrict execution.
    pub fn max_buy_for_position(&self, buy_position: I80F48, buy_bank: &Bank) -> (r: u64)
        requires
            self.wf(),
        ensures
            r == self.spec_max_buy_for_position(buy_position.bits as int, *buy_bank),
    {
        let cap = if self.allow_creating_deposits() && !buy_bank.are_deposits_reduce_only() {
            u64::MAX
        } else {
            // rounding up: reaching 0..1 deposited native tokens is fine
            buy_position.neg_ceil_clamp_to_u64()
        };
        let remaining = self.remaining_buy();
        if remaining <= cap {
            remaining
        } else {
            cap
        }
    }

    /// The remaining sell amount, taking the current sell token position and
    /// sell bank's reduce-only status into account.
    ///
    /// Note that the account health might further restrict execution.
    pub fn max_sell_for_position(&self, sell_position: I80F48, sell_bank: &Bank) -> (r: u64)
        requires
            self.wf(),
        ensures
            r == self.spec_max_sell_for_position(sell_position.bits as int, *sell_bank),
    {
        let cap = if self.allow_creating_borrows() && !sell_bank.are_borrows_reduce_only() {
            u64::MAX
        } else {
            // rounding down: the position never goes below 0
            let f = sell_position.floor();
            assert(floor_int(f.bits as int) == floor_int(sell_position.bits as int));
            f.clamp_to_u64()
        };
        let remaining = self.remaining_sell();
        if remaining <= cap {
            remaining
        } else {
            cap
        }
    }
}

impl TokenConditionalSwap {
    /// Whether the swap may execute at time `now_ts` with the reference price
    /// `price` (binary64 bits): it is in use, not expired, and the price is in
    /// range. The display style never changes which comparison is made.
    pub fn is_executable(&self, now_ts: u64, price: u64) -> (r: bool)
        ensures
            r == (self.spec_has_data() && now_ts < self.expiry_timestamp
                && self.spec_price_in_range(price)),
    {
        self.has_data() && !self.is_expired(now_ts) && self.price_in_range(price)
    }

    /// The amount a fill may settle: the requested amount, capped by both
    /// quantity clamps.
    pub fn binding_fill_amount(
        &self,
        requested_amount: u64,
        buy_position: I80F48,
        buy_bank: &Bank,
        sell_position: I80F48,
        sell_bank: &Bank,
    ) -> (r: u64)
        requires
            self.wf(),
        ensures
            r == min_u64(
                min_u64(
                    requested_amount,
                    self.spec_max_buy_for_position(buy_position.bits as int, *buy_bank),
                ),
                self.spec_max_sell_for_position(sell_position.bits as int, *sell_bank),
            ),
    {
        let buy_cap = self.max_buy_for_position(buy_position, buy_bank);
        let sell_cap = self.max_sell_for_position(sell_position, sell_bank);
        let amount = if requested_amount <= buy_cap {
            requested_amount
        } else {
            buy_cap
        };
        if amount <= sell_cap {
            amount
        } else {
            sell_cap
        }
    }

    /// Counts a fill of `buy_amount` bought and `sell_amount` sold, as one
    /// update, and marks the slot empty when either side is used up.
    pub fn record_fill(&mut self, buy_amount: u64, sell_amount: u64)
        requires
            old(self).wf(),
            buy_amount <= old(self).spec_remaining_buy(),
            sell_amount <= old(self).spec_remaining_sell(),
        ensures
            final(self).wf(),
            *final(self) == (TokenConditionalSwap {
                bought: (old(self).bought + buy_amount) as u64,
                sold: (old(self).sold + sell_amount) as u64,
                has_data: if old(self).bought + buy_amount == old(self).max_buy
                    || old(self).sold + sell_amount == old(self).max_sell {
                    0u8
                } else {
                    old(self).has_data
                },
                ..*old(self)
            }),
    {
        self.bought = self.bought + buy_amount;
        self.sold = self.sold + sell_amount;
        if self.remaining_buy() == 0 || self.remaining_sell() == 0 {
            self.has_data = 0;
        }
    }
}

impl Default for TokenConditionalSwap {
    fn default() -> (r: Self)
        ensures
            r == TokenConditionalSwap::spec_default(),
    {
        TokenConditionalSwap {
            id: 0,
            max_buy: 0,
            max_sell: 0,
            bought: 0,
            sold: 0,
            expiry_timestamp: u64::MAX,
            price_lower_limit: 0,
            price_upper_limit: 0,
            price_premium_rate: 0,
            taker_fee_rate: 0,
            maker_fee_rate: 0,
            buy_token_index: TOKEN_INDEX_UNSET,
            sell_token_index: TOKEN_INDEX_UNSET,
            has_data: 0,
            allow_creating_deposits: 0,
            allow_creating_borrows: 0,
            display_price_style: TokenConditionalSwapDisplayPriceStyle::SellTokenPerBuyToken.to_u8(),
            intention: TokenConditionalSwapIntention::Unknown.to_u8(),
            reserved: vstd::array::array_fill_for_copy_types(0u8),
        }
    }
}

/// In a well-formed record, what remains plus what was filled is the ceiling,
/// on each side.
pub proof fn lemma_remaining_plus_filled(t: TokenConditionalSwap)
    requires
        t.wf(),
    ensures
        t.spec_remaining_buy() + t.bought == t.max_buy,
        t.spec_remaining_sell() + t.sold == t.max_sell,
{
}

/// The price range is inclusive: a price equal to either limit is in range
/// (when neither limit is a NaN and they are ordered), and any price below
/// the lower limit or above the upper one is not.
pub proof fn lemma_price_range_boundaries(t: TokenConditionalSwap, price: u64)
    requires
        f64_le(t.price_lower_limit, t.price_upper_limit),
    ensures
        t.spec_price_in_range(t.price_lower_limit),
        t.spec_price_in_range(t.price_upper_limit),
        f64_key(price) < f64_key(t.price_lower_limit) ==> !t.spec_price_in_range(price),
        f64_key(price) > f64_key(t.price_upper_limit) ==> !t.spec_price_in_range(price),
{
}

/// With a non-negative rate the fee never falls as the amount grows.
pub proof fn lemma_fee_monotone(rate_bits: u32, a: I80F48, b: I80F48)
    requires
        f32_fixed(rate_bits).is_some(),
        f32_fixed(rate_bits).unwrap() >= 0,
        a.bits <= b.bits,
        fee_for(a.bits as int, rate_bits).is_some(),
        fee_for(b.bits as int, rate_bits).is_some(),
    ensures
        fee_for(a.bits as int, rate_bits).unwrap() <= fee_for(b.bits as int, rate_bits).unwrap(),
{
    let rate = f32_fixed(rate_bits).unwrap();
    assert(a.bits as int * rate <= b.bits as int * rate) by (nonlinear_arith)
        requires
            a.bits <= b.bits,
            rate >= 0,
    ;
    lemma_div_is_ordered(a.bits as int * rate, b.bits as int * rate, scale());
    lemma_div_is_ordered(mul_bits(a.bits as int, rate), mul_bits(b.bits as int, rate), scale());
}

/// The fee on nothing is nothing, at every rate with a fixed-point value.
pub proof fn lemma_fee_of_zero(rate_bits: u32)
    requires
        f32_fixed(rate_bits).is_some(),
    ensures
        fee_for(0, rate_bits) == Some(0u64),
{
}

/// When new deposits may not be created, the buy cap at a whole-number
/// position `k` is the remaining amount capped by `-k`, and zero once the
/// position is not negative, whatever the bank's flags.
pub proof fn lemma_max_buy_without_new_deposits(t: TokenConditionalSwap, k: int, bank: Bank)
    requires
        t.wf(),
        t.allow_creating_deposits != 1,
    ensures
        t.spec_max_buy_for_position(k * scale(), bank) == min_u64(
            t.spec_remaining_buy() as u64,
            clamp_u64(-k),
        ),
        k >= 0 ==> t.spec_max_buy_for_position(k * scale(), bank) == 0,
{
    assert(((-(-(k * scale()))) / scale()) == k) by (nonlinear_arith);
}

/// The fee on `base` at the binary32 rate `rate_bits`, rounded down.
fn fee_at_rate(base: I80F48, rate_bits: u32) -> (r: Option<u64>)
    ensures
        r == fee_for(base.bits as int, rate_bits),
{
    let rate = match f32_bits_to_fixed(rate_bits) {
        Some(rate) => rate,
        None => return None,
    };
    let product = match base.checked_mul(rate) {
        Some(p) => p,
        None => return None,
    };
    let f = product.floor();
    assert(floor_int(f.bits as int) == floor_int(product.bits as int));
    f.checked_to_u64()
}

} // verus!
