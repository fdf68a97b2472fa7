use vstd::prelude::*;
use anchor_lang::prelude::{Clock, ProgramError, SolanaSysvar};

verus! {

/// `solana_program::program_error::ProgramError`, the runtime's own error.
/// The library hands such an error on and never looks inside.
#[verifier::external_type_specification]
#[verifier::external_body]
pub struct ExProgramError(ProgramError);

/// `Clock::get()` of `solana_program`, reduced to the field
/// `unix_timestamp`: the time as the runtime reports it, or the runtime's
/// error where it reports none, as it does outside a running cluster.
/// Nothing is claimed of either: two calls may differ.
#[verifier::external_body]
pub(crate) fn cluster_unix_timestamp() -> (time: Result<i64, ProgramError>) {
    Clock::get().map(|clock| clock.unix_timestamp)
}

/// The seconds that a signed timestamp stands for where times are unsigned:
/// the timestamp itself, and for a timestamp before the epoch the same 64
/// bits read as an unsigned number.
pub open spec fn seconds_of(unix_timestamp: i64) -> u64 {
    if unix_timestamp >= 0 {
        unix_timestamp as u64
    } else {
        (unix_timestamp + 0x1_0000_0000_0000_0000) as u64
    }
}

/// The seconds that `unix_timestamp` stands for.
pub fn seconds(unix_timestamp: i64) -> (now: u64)
    ensures
        now == seconds_of(unix_timestamp),
{
    assert(unix_timestamp < 0 ==> (unix_timestamp as u64) == (unix_timestamp
        + 0x1_0000_0000_0000_0000int)) by (bit_vector);
    #[verifier::truncate]
    (unix_timestamp as u64)
}

} // verus!
