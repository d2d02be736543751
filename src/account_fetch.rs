//! Decisions of the account-fetching client, apart from its network calls:
//! the newest slot among transaction statuses, the discriminator check of a
//! raw account, and the steps of waiting until accounts are fresh enough.
use vstd::prelude::*;
use vstd::slice::slice_subrange;

verus! {

/// The slot of a reported status, or 0 where none was reported.
pub open spec fn slot_or_zero(s: Option<u64>) -> u64 {
    match s {
        Some(v) => v,
        None => 0,
    }
}

/// The maximum slot reported for the processing of some transactions: the
/// largest reported slot, or 0 where none was reported.
pub fn transaction_max_slot(statuses: &Vec<Option<u64>>) -> (r: u64)
    ensures
        forall|i: int| 0 <= i < statuses@.len() ==> slot_or_zero(#[trigger] statuses@[i]) <= r,
        r == 0 || exists|i: int| 0 <= i < statuses@.len() && statuses@[i] == Some(r),
{
    let mut best: u64 = 0;
    let mut i: usize = 0;
    while i < statuses.len()
        invariant
            i <= statuses@.len(),
            forall|j: int| 0 <= j < i ==> slot_or_zero(#[trigger] statuses@[j]) <= best,
            best == 0 || exists|j: int| 0 <= j < i && statuses@[j] == Some(best),
        decreases statuses@.len() - i,
    {
        match statuses[i] {
            Some(v) => {
                if v > best {
                    best = v;
                }
            },
            None => {},
        }
        i = i + 1;
    }
    best
}

/// The payload of a raw account that starts with `discriminator`: the bytes
/// after its first eight, or `None` when it is shorter or starts otherwise.
pub fn strip_discriminator<'a>(data: &'a [u8], discriminator: &[u8; 8]) -> (r: Option<&'a [u8]>)
    ensures
        r.is_some() == (data@.len() >= 8 && data@.subrange(0, 8) == discriminator@),
        r.is_some() ==> r.unwrap()@ == data@.subrange(8, data@.len() as int),
{
    if data.len() < 8 {
        return None;
    }
    let mut i: usize = 0;
    while i < 8
        invariant
            i <= 8,
            data@.len() >= 8,
            discriminator@.len() == 8,
            forall|j: int| 0 <= j < i ==> data@[j] == discriminator@[j],
        decreases 8 - i,
    {
        if data[i] != discriminator[i] {
            assert(data@.subrange(0, 8)[i as int] != discriminator@[i as int]);
            return None;
        }
        i = i + 1;
    }
    assert(data@.subrange(0, 8) =~= discriminator@);
    Some(slice_subrange(data, 8, data.len()))
}

/// What the client does next while it waits for every account of a list to
/// hold data at least as new as a slot.
#[derive(Clone, Copy, Debug, PartialEq, Eq, Structural)]
pub enum WaitStep {
    /// refresh the account at this position via RPC
    Refresh(usize),
    /// pause, then ask again for the account at this position
    Sleep(usize),
    /// give up: the deadline passed while waiting for this account
    TimedOut(usize),
    /// every account is fresh enough
    Done,
}

/// The step after the account at `index` (of `n`) returned data of
/// `data_slot`, or before it was refreshed (`None`); `timed_out` says whether
/// the deadline has passed.
pub open spec fn spec_wait_step(
    n: usize,
    index: usize,
    data_slot: Option<u64>,
    min_slot: u64,
    timed_out: bool,
) -> WaitStep {
    let next: int = match data_slot {
        Some(s) => if s >= min_slot { index + 1 } else { index as int },
        None => index as int,
    };
    match data_slot {
        Some(s) if s < min_slot => WaitStep::Sleep(index),
        _ => if next >= n {
            WaitStep::Done
        } else if timed_out {
            WaitStep::TimedOut(next as usize)
        } else {
            WaitStep::Refresh(next as usize)
        },
    }
}

/// Decides the next step of waiting for fresh accounts, as `spec_wait_step`
/// describes: an account whose data is new enough moves the wait on to the
/// next one, older data means pausing, and the deadline is checked before
/// every refresh.
pub fn wait_step(n: usize, index: usize, data_slot: Option<u64>, min_slot: u64, timed_out: bool) -> (r: WaitStep)
    requires
        index < n,
    ensures
        r == spec_wait_step(n, index, data_slot, min_slot, timed_out),
{
    let next: usize = match data_slot {
        Some(s) => {
            if s < min_slot {
                return WaitStep::Sleep(index);
            }
            index + 1
        },
        None => index,
    };
    if next >= n {
        WaitStep::Done
    } else if timed_out {
        WaitStep::TimedOut(next)
    } else {
        WaitStep::Refresh(next)
    }
}

} // verus!
