//! What the protocol takes from its host platform: the identity type that
//! names every party, and the cluster clock that dates rating receipts.

use anchor_lang::prelude::{Clock, SolanaSysvar};
use vstd::prelude::*;

verus! {

/// `anchor_lang::prelude::Pubkey`, the 32-byte address that identifies an
/// account holder. The protocol stores and copies identities but never looks
/// inside one, so the type is declared without its contents.
#[verifier::external_type_specification]
#[verifier::external_body]
pub struct ExPubkey(anchor_lang::prelude::Pubkey);

/// `anchor_lang::prelude::ProgramError`, the failure that a platform service
/// reports. Declared without its variants: the protocol only notes that a
/// service failed.
#[verifier::external_type_specification]
#[verifier::external_body]
pub struct ExProgramError(anchor_lang::prelude::ProgramError);

/// Reads the cluster clock with `Clock::get` (the `Sysvar` trait's method on
/// `anchor_lang::prelude::Clock`) and hands back its `unix_timestamp` field,
/// or the platform's error when the clock cannot be read. The reading depends
/// on when and where the call is made, so nothing is claimed of it.
#[verifier::external_body]
pub(crate) fn unix_timestamp() -> (reading: Result<i64, anchor_lang::prelude::ProgramError>) {
    Clock::get().map(|clock| clock.unix_timestamp)
}

} // verus!
