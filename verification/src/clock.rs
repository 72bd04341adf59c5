//! The clock of the ledger on which the facilitator runs.

use vstd::prelude::*;
use anchor_lang::prelude::{Clock, SolanaSysvar};

verus! {

/// The error type of the ledger's runtime, `ProgramError`, as `anchor_lang`
/// hands it on. It is carried through and never looked into.
#[verifier::external_type_specification]
#[verifier::external_body]
pub struct ExProgramError(anchor_lang::prelude::ProgramError);

/// Reads the ledger's clock with `Clock::get` of `anchor_lang` and gives the
/// `unix_timestamp` of what it returns, or its error. Nothing is claimed of
/// the result: the time is whatever the ledger says it is, and where the
/// code does not run on a ledger there is no clock to read.
#[verifier::external_body]
pub(crate) fn ledger_unix_timestamp() -> (r: Result<i64, anchor_lang::prelude::ProgramError>) {
    match Clock::get() {
        Ok(clock) => Ok(clock.unix_timestamp),
        Err(e) => Err(e),
    }
}

} // verus!
