use vstd::prelude::*;

use crate::error::BlockbusterError;
use crate::instruction::tail_from;
use crate::keys::{candy_machine_core_id, candy_machine_core_id_bytes, Pubkey};

verus! {

/// The eight-byte discriminator that opens a candy machine account.
pub open spec fn candy_machine_discriminator() -> Seq<u8> {
    seq![51u8, 173, 177, 113, 25, 241, 109, 189]
}

/// A recognised candy machine account: the account body that follows the
/// discriminator, verbatim, ready for the candy machine state deserializer
/// of the caller's choice.
#[derive(Debug, PartialEq, Eq)]
pub enum CandyMachineCoreAccountData {
    CandyMachineCore(Vec<u8>),
}

/// The decoder for candy machine core accounts.
pub struct CandyMachineParser;

impl CandyMachineParser {
    /// The program id this decoder handles.
    pub fn key(&self) -> (r: Pubkey)
        ensures
            r@ == candy_machine_core_id_bytes(),
    {
        candy_machine_core_id()
    }

    /// Whether a program id is the one this decoder handles.
    pub fn key_match(&self, key: &Pubkey) -> (r: bool)
        ensures
            r == (key@ == candy_machine_core_id_bytes()),
    {
        key.eq_key(&candy_machine_core_id())
    }

    /// This decoder consumes account snapshots.
    pub fn handles_account_updates(&self) -> (r: bool)
        ensures
            r,
    {
        true
    }

    /// This decoder does not consume instruction bundles.
    pub fn handles_instructions(&self) -> (r: bool)
        ensures
            !r,
    {
        false
    }

    /// Decode one account snapshot: an account too short to hold a
    /// discriminator is rejected as invalid, an unrecognised discriminator
    /// as unknown, and a recognised one yields the account body that
    /// follows it.
    pub fn handle_account(&self, account_data: &Vec<u8>) -> (r: Result<
        CandyMachineCoreAccountData,
        BlockbusterError,
    >)
        ensures
            match r {
                Ok(d) => account_data@.len() >= 8 && account_data@.take(8)
                    == candy_machine_discriminator() && (d matches CandyMachineCoreAccountData::CandyMachineCore(
                body) && body@ == account_data@.skip(8)),
                Err(e) => (account_data@.len() < 8 && e == BlockbusterError::InvalidDataLength) || (
                account_data@.len() >= 8 && account_data@.take(8) != candy_machine_discriminator()
                    && e == BlockbusterError::UnknownAccountDiscriminator),
            },
    {
        if account_data.len() < 8 {
            return Err(BlockbusterError::InvalidDataLength);
        }
        if account_data[0] != 51 || account_data[1] != 173 || account_data[2] != 177
            || account_data[3] != 113 || account_data[4] != 25 || account_data[5] != 241
            || account_data[6] != 109 || account_data[7] != 189 {
            proof {
                assert(account_data@.take(8) != candy_machine_discriminator());
            }
            return Err(BlockbusterError::UnknownAccountDiscriminator);
        }
        proof {
            assert(account_data@.take(8) =~= candy_machine_discriminator());
        }
        let body = tail_from(account_data, 8);
        Ok(CandyMachineCoreAccountData::CandyMachineCore(body))
    }
}

} // verus!
