use vstd::prelude::*;

use crate::bubblegum::{handle_instruction_model, BubblegumInstruction, BubblegumParser};
use crate::candy_machine_core::{CandyMachineCoreAccountData, CandyMachineParser};
use crate::error::BlockbusterError;
use crate::instruction::InstructionBundle;
use crate::keys::Pubkey;

verus! {

/// The decoders this crate ships, one per supported program.
#[derive(Clone, Copy, Debug, PartialEq, Eq, Structural)]
pub enum ParserKind {
    Bubblegum,
    CandyMachineCore,
}

impl DeepView for ParserKind {
    type V = ParserKind;

    open spec fn deep_view(&self) -> ParserKind {
        *self
    }
}

/// The decoder registered for a program id: registrations are scanned newest
/// first, so a later registration for the same id wins.
pub open spec fn lookup_model(entries: Seq<(Seq<u8>, ParserKind)>, key: Seq<u8>) -> Option<
    ParserKind,
>
    decreases entries.len(),
{
    if entries.len() == 0 {
        None
    } else if entries.last().0 == key {
        Some(entries.last().1)
    } else {
        lookup_model(entries.drop_last(), key)
    }
}

/// Routes a program id to the decoder registered for it.  Registration never
/// fails: a later registration for an already registered id simply wins.
pub struct DecoderRegistry {
    entries: Vec<(Pubkey, ParserKind)>,
}

impl View for DecoderRegistry {
    type V = Seq<(Seq<u8>, ParserKind)>;

    closed spec fn view(&self) -> Seq<(Seq<u8>, ParserKind)> {
        self.entries.deep_view()
    }
}

impl DecoderRegistry {
    /// A registry with no decoders.
    pub fn new() -> (r: DecoderRegistry)
        ensures
            r@ == Seq::<(Seq<u8>, ParserKind)>::empty(),
    {
        let r = DecoderRegistry { entries: Vec::new() };
        proof {
            assert(r@ =~= Seq::<(Seq<u8>, ParserKind)>::empty());
        }
        r
    }

    /// Associate a decoder with a program id.
    pub fn register(&mut self, program_id: Pubkey, kind: ParserKind)
        ensures
            final(self)@ == old(self)@.push((program_id@, kind)),
    {
        self.entries.push((program_id, kind));
        proof {
            assert(self@ =~= old(self)@.push((program_id@, kind)));
        }
    }

    /// The decoder for a program id, if one was registered: the latest
    /// registration wins.
    pub fn lookup(&self, key: &Pubkey) -> (r: Option<ParserKind>)
        ensures
            r == lookup_model(self@, key@),
    {
        let mut i: usize = self.entries.len();
        proof {
            assert(self@.take(self.entries.len() as int) =~= self@);
        }
        while i > 0
            invariant
                i <= self.entries.len(),
                self@.len() == self.entries.len(),
                lookup_model(self@, key@) == lookup_model(self@.take(i as int), key@),
            decreases i,
        {
            i = i - 1;
            proof {
                assert(self@.take(i as int + 1).drop_last() =~= self@.take(i as int));
                assert(self@.take(i as int + 1).last() == self@[i as int]);
            }
            if self.entries[i].0.eq_key(key) {
                assert(self@[i as int].0 == key@);
                return Some(self.entries[i].1);
            }
        }
        assert(lookup_model(self@.take(0), key@) is None);
        None
    }
}

/// What one decoder run produced: a decoded record of the decoder's kind,
/// or nothing when the decoder does not consume that input family.
pub enum ProgramParseResult {
    Bubblegum(BubblegumInstruction),
    CandyMachineCore(CandyMachineCoreAccountData),
    NotUsed,
}

/// Decode an instruction bundle with the given decoder.  A decoder that
/// does not consume instruction bundles yields nothing.
pub fn decode_instruction(kind: ParserKind, bundle: &InstructionBundle) -> (r: Result<
    ProgramParseResult,
    BlockbusterError,
>)
    ensures
        match kind {
            ParserKind::Bubblegum => (match r {
                Ok(p) => (p matches ProgramParseResult::Bubblegum(b)
                    && handle_instruction_model(bundle.deep_view()) matches Ok(m) && b@ == m),
                Err(e) => handle_instruction_model(bundle.deep_view()) matches Err(m) && e == m,
            }),
            ParserKind::CandyMachineCore => r matches Ok(p) && p is NotUsed,
        },
{
    match kind {
        ParserKind::Bubblegum => {
            let parser = BubblegumParser;
            match parser.handle_instruction(bundle) {
                Ok(b) => Ok(ProgramParseResult::Bubblegum(b)),
                Err(e) => Err(e),
            }
        },
        ParserKind::CandyMachineCore => Ok(ProgramParseResult::NotUsed),
    }
}

/// Decode an account snapshot with the given decoder.  A decoder that does
/// not consume account snapshots yields nothing.
pub fn decode_account(kind: ParserKind, account_data: &Vec<u8>) -> (r: Result<
    ProgramParseResult,
    BlockbusterError,
>)
    ensures
        match kind {
            ParserKind::Bubblegum => r matches Ok(p) && p is NotUsed,
            ParserKind::CandyMachineCore => (match r {
                Ok(p) => (p matches ProgramParseResult::CandyMachineCore(d) && account_data@.len()
                    >= 8 && account_data@.take(8)
                    == crate::candy_machine_core::candy_machine_discriminator() && (
                d matches CandyMachineCoreAccountData::CandyMachineCore(body) && body@
                    == account_data@.skip(8))),
                Err(e) => (account_data@.len() < 8 && e == BlockbusterError::InvalidDataLength) || (
                account_data@.len() >= 8 && account_data@.take(8)
                    != crate::candy_machine_core::candy_machine_discriminator() && e
                    == BlockbusterError::UnknownAccountDiscriminator),
            }),
        },
{
    match kind {
        ParserKind::Bubblegum => Ok(ProgramParseResult::NotUsed),
        ParserKind::CandyMachineCore => {
            let parser = CandyMachineParser;
            match parser.handle_account(account_data) {
                Ok(d) => Ok(ProgramParseResult::CandyMachineCore(d)),
                Err(e) => Err(e),
            }
        },
    }
}

} // verus!
