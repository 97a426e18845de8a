use blockbuster::candy_machine_core::{CandyMachineCoreAccountData, CandyMachineParser};
use blockbuster::error::BlockbusterError;
use blockbuster::keys::Pubkey;
use blockbuster::registry::{decode_account, decode_instruction, DecoderRegistry, ParserKind, ProgramParseResult};

fn pk(tag: u8) -> Pubkey {
    Pubkey::new_from_array([tag; 32])
}

const CANDY_MACHINE_DISCRIMINATOR: [u8; 8] = [51, 173, 177, 113, 25, 241, 109, 189];

#[test]
fn short_account_data_is_invalid_length() {
    let parser = CandyMachineParser;
    let err = parser.handle_account(&vec![1, 2, 3]).unwrap_err();
    assert_eq!(err, BlockbusterError::InvalidDataLength);
    let err = parser.handle_account(&vec![]).unwrap_err();
    assert_eq!(err, BlockbusterError::InvalidDataLength);
}

#[test]
fn unknown_discriminator_is_rejected() {
    let parser = CandyMachineParser;
    let err = parser.handle_account(&vec![9; 16]).unwrap_err();
    assert_eq!(err, BlockbusterError::UnknownAccountDiscriminator);
}

#[test]
fn recognised_discriminator_yields_account_body() {
    let parser = CandyMachineParser;
    let mut data = CANDY_MACHINE_DISCRIMINATOR.to_vec();
    data.extend([10, 20, 30]);
    let decoded = parser.handle_account(&data).unwrap();
    let CandyMachineCoreAccountData::CandyMachineCore(body) = decoded;
    assert_eq!(body, vec![10, 20, 30]);
}

#[test]
fn discriminator_alone_yields_empty_body() {
    let parser = CandyMachineParser;
    let decoded = parser.handle_account(&CANDY_MACHINE_DISCRIMINATOR.to_vec()).unwrap();
    let CandyMachineCoreAccountData::CandyMachineCore(body) = decoded;
    assert!(body.is_empty());
}

#[test]
fn candy_parser_capabilities_and_key() {
    let parser = CandyMachineParser;
    assert!(parser.handles_account_updates());
    assert!(!parser.handles_instructions());
    let key = parser.key();
    assert!(parser.key_match(&key));
    assert!(!parser.key_match(&pk(1)));
}

#[test]
fn registry_routes_by_program_id() {
    let mut registry = DecoderRegistry::new();
    let bubblegum = blockbuster::keys::bubblegum_id();
    let candy = blockbuster::keys::candy_machine_core_id();
    registry.register(bubblegum, ParserKind::Bubblegum);
    registry.register(candy, ParserKind::CandyMachineCore);
    assert_eq!(registry.lookup(&bubblegum), Some(ParserKind::Bubblegum));
    assert_eq!(registry.lookup(&candy), Some(ParserKind::CandyMachineCore));
    assert_eq!(registry.lookup(&pk(7)), None);
}

#[test]
fn later_registration_wins() {
    let mut registry = DecoderRegistry::new();
    let key = pk(1);
    registry.register(key, ParserKind::Bubblegum);
    registry.register(key, ParserKind::CandyMachineCore);
    assert_eq!(registry.lookup(&key), Some(ParserKind::CandyMachineCore));
}

#[test]
fn empty_registry_finds_nothing() {
    let registry = DecoderRegistry::new();
    assert_eq!(registry.lookup(&pk(1)), None);
}

#[test]
fn key_equality_is_by_bytes() {
    let a = pk(1);
    let b = Pubkey::new_from_array([1; 32]);
    assert!(a.eq_key(&b));
    let mut bytes = [1u8; 32];
    bytes[31] = 2;
    let c = Pubkey::new_from_array(bytes);
    assert!(!a.eq_key(&c));
}

#[test]
fn decode_routes_by_decoder_kind() {
    // The candy machine decoder does not consume instruction bundles.
    let bundle = blockbuster::instruction::InstructionBundle::default();
    match decode_instruction(ParserKind::CandyMachineCore, &bundle) {
        Ok(ProgramParseResult::NotUsed) => {}
        _ => panic!("expected nothing"),
    }
    // The bubblegum decoder does not consume account snapshots.
    match decode_account(ParserKind::Bubblegum, &vec![1, 2, 3]) {
        Ok(ProgramParseResult::NotUsed) => {}
        _ => panic!("expected nothing"),
    }
    // Routed account decode reaches the candy machine decoder.
    let mut data = CANDY_MACHINE_DISCRIMINATOR.to_vec();
    data.extend([5, 6]);
    match decode_account(ParserKind::CandyMachineCore, &data) {
        Ok(ProgramParseResult::CandyMachineCore(CandyMachineCoreAccountData::CandyMachineCore(
            body,
        ))) => assert_eq!(body, vec![5, 6]),
        _ => panic!("expected candy machine account data"),
    }
    // Routed instruction decode reaches the bubblegum decoder: an empty
    // bundle is its decode error.
    match decode_instruction(ParserKind::Bubblegum, &bundle) {
        Err(e) => assert_eq!(e, blockbuster::error::BlockbusterError::DeserializationError),
        Ok(_) => panic!("expected an error"),
    }
}
