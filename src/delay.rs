use vstd::prelude::*;

verus! {

/// The backoff table, in seconds, indexed by retry index.
pub open spec fn delay_spec(index: nat) -> nat {
    if index == 0 {
        60
    } else if index == 1 {
        600
    } else if index == 2 {
        1800
    } else if index == 3 {
        3600
    } else if index == 4 {
        14400
    } else if index == 5 {
        28800
    } else {
        86400
    }
}

/// Backoff in seconds before the message published at `index` is delivered.
pub fn get_delay_seconds(index: u64) -> (r: u64)
    ensures
        r == delay_spec(index as nat),
{
    let delays: [u64; 7] = [60, 600, 1800, 3600, 14400, 28800, 86400];
    if index < 7 {
        delays[index as usize]
    } else {
        86400
    }
}

} // verus!
