use vstd::prelude::*;

use borsh::BorshDeserialize;

use crate::error::BlockbusterError;
use crate::instruction::{tail_from, InstructionBundle, PairModel};
use crate::keys::{bubblegum_id, bubblegum_id_bytes, noop_id, noop_id_bytes, Pubkey};
use spl_account_compression::events::{AccountCompressionEvent, ApplicationDataEvent, ChangeLogEvent};

verus! {

#[verifier::external_type_specification]
#[verifier::external_body]
pub struct ExMetadataArgs(mpl_bubblegum::types::MetadataArgs);

#[verifier::external_type_specification]
#[verifier::external_body]
pub struct ExUpdateArgs(mpl_bubblegum::types::UpdateArgs);

#[verifier::external_type_specification]
#[verifier::external_body]
pub struct ExLeafSchemaEvent(mpl_bubblegum::LeafSchemaEvent);

#[verifier::external_type_specification]
#[verifier::external_body]
pub struct ExChangeLogEventV1(spl_account_compression::events::ChangeLogEventV1);

/// The closed set of Bubblegum instruction kinds a payload's discriminator
/// can name.
#[derive(Clone, Copy, Debug, PartialEq, Eq, Structural)]
pub enum InstructionName {
    Unknown,
    MintV1,
    Redeem,
    CancelRedeem,
    Transfer,
    Delegate,
    DecompressV1,
    Compress,
    Burn,
    CreateTree,
    VerifyCreator,
    UnverifyCreator,
    VerifyCollection,
    UnverifyCollection,
    SetAndVerifyCollection,
    MintToCollectionV1,
    SetDecompressibleState,
    UpdateMetadata,
}

pub const MINT_V1_DISCRIMINATOR: u64 = 0x687693b876c06291;

pub const MINT_TO_COLLECTION_V1_DISCRIMINATOR: u64 = 0xf569ec52fb21299;

pub const CANCEL_REDEEM_DISCRIMINATOR: u64 = 0xf230af2732e84c6f;

pub const REDEEM_DISCRIMINATOR: u64 = 0xe161c44695560cb8;

pub const TRANSFER_DISCRIMINATOR: u64 = 0xba45038ce7c834a3;

pub const DELEGATE_DISCRIMINATOR: u64 = 0x89045855b24b935a;

pub const DECOMPRESS_V1_DISCRIMINATOR: u64 = 0x51a4fae4464c5536;

pub const BURN_DISCRIMINATOR: u64 = 0x5d2adb6b381d6e74;

pub const COMPRESS_DISCRIMINATOR: u64 = 0xfd7315b075b0c152;

pub const CREATE_TREE_DISCRIMINATOR: u64 = 0xdc2fca598e8853a5;

pub const VERIFY_CREATOR_DISCRIMINATOR: u64 = 0xc255044784601134;

pub const UNVERIFY_CREATOR_DISCRIMINATOR: u64 = 0x987073692739b26b;

pub const VERIFY_COLLECTION_DISCRIMINATOR: u64 = 0xa97a374ffd657138;

pub const UNVERIFY_COLLECTION_DISCRIMINATOR: u64 = 0xa8ba89296a2afbfa;

pub const SET_AND_VERIFY_COLLECTION_DISCRIMINATOR: u64 = 0xeab4ea9ed879f2eb;

pub const SET_DECOMPRESSIBLE_STATE_DISCRIMINATOR: u64 = 0xd646f9506986852;

/// An older spelling of the same operation maps to the same kind.
pub const SET_DECOMPRESSABLE_STATE_DISCRIMINATOR: u64 = 0x733dc3f6a8ee8712;

pub const UPDATE_METADATA_DISCRIMINATOR: u64 = 0xbae14e61ef2bb6aa;

/// The leading eight payload bytes read as a little-endian word.
pub open spec fn discriminator_value(data: Seq<u8>) -> int {
    data[0] + data[1] * 0x100 + data[2] * 0x1_0000 + data[3] * 0x100_0000 + data[4] * 0x1_0000_0000
        + data[5] * 0x100_0000_0000 + data[6] * 0x1_0000_0000_0000 + data[7]
        * 0x100_0000_0000_0000
}

/// The instruction kind a payload's discriminator names; payloads shorter
/// than the discriminator, and discriminators outside the table, name no
/// kind.
pub open spec fn kind_of(data: Seq<u8>) -> InstructionName {
    if data.len() < 8 {
        InstructionName::Unknown
    } else {
        let d = discriminator_value(data);
        if d == MINT_V1_DISCRIMINATOR {
            InstructionName::MintV1
        } else if d == MINT_TO_COLLECTION_V1_DISCRIMINATOR {
            InstructionName::MintToCollectionV1
        } else if d == CANCEL_REDEEM_DISCRIMINATOR {
            InstructionName::CancelRedeem
        } else if d == REDEEM_DISCRIMINATOR {
            InstructionName::Redeem
        } else if d == TRANSFER_DISCRIMINATOR {
            InstructionName::Transfer
        } else if d == DELEGATE_DISCRIMINATOR {
            InstructionName::Delegate
        } else if d == DECOMPRESS_V1_DISCRIMINATOR {
            InstructionName::DecompressV1
        } else if d == BURN_DISCRIMINATOR {
            InstructionName::Burn
        } else if d == COMPRESS_DISCRIMINATOR {
            InstructionName::Compress
        } else if d == CREATE_TREE_DISCRIMINATOR {
            InstructionName::CreateTree
        } else if d == VERIFY_CREATOR_DISCRIMINATOR {
            InstructionName::VerifyCreator
        } else if d == UNVERIFY_CREATOR_DISCRIMINATOR {
            InstructionName::UnverifyCreator
        } else if d == VERIFY_COLLECTION_DISCRIMINATOR {
            InstructionName::VerifyCollection
        } else if d == UNVERIFY_COLLECTION_DISCRIMINATOR {
            InstructionName::UnverifyCollection
        } else if d == SET_AND_VERIFY_COLLECTION_DISCRIMINATOR {
            InstructionName::SetAndVerifyCollection
        } else if d == SET_DECOMPRESSIBLE_STATE_DISCRIMINATOR {
            InstructionName::SetDecompressibleState
        } else if d == SET_DECOMPRESSABLE_STATE_DISCRIMINATOR {
            InstructionName::SetDecompressibleState
        } else if d == UPDATE_METADATA_DISCRIMINATOR {
            InstructionName::UpdateMetadata
        } else {
            InstructionName::Unknown
        }
    }
}

/// Resolve the instruction kind a payload names.  A payload too short to
/// hold a discriminator names no kind.
pub fn get_instruction_type(data: &Vec<u8>) -> (r: InstructionName)
    ensures
        r == kind_of(data@),
{
    if data.len() < 8 {
        return InstructionName::Unknown;
    }
    let d: u64 = (data[0] as u64) + (data[1] as u64) * 0x100 + (data[2] as u64) * 0x1_0000 + (
    data[3] as u64) * 0x100_0000 + (data[4] as u64) * 0x1_0000_0000 + (data[5] as u64)
        * 0x100_0000_0000 + (data[6] as u64) * 0x1_0000_0000_0000 + (data[7] as u64)
        * 0x100_0000_0000_0000;
    assert(d == discriminator_value(data@));
    if d == MINT_V1_DISCRIMINATOR {
        InstructionName::MintV1
    } else if d == MINT_TO_COLLECTION_V1_DISCRIMINATOR {
        InstructionName::MintToCollectionV1
    } else if d == CANCEL_REDEEM_DISCRIMINATOR {
        InstructionName::CancelRedeem
    } else if d == REDEEM_DISCRIMINATOR {
        InstructionName::Redeem
    } else if d == TRANSFER_DISCRIMINATOR {
        InstructionName::Transfer
    } else if d == DELEGATE_DISCRIMINATOR {
        InstructionName::Delegate
    } else if d == DECOMPRESS_V1_DISCRIMINATOR {
        InstructionName::DecompressV1
    } else if d == BURN_DISCRIMINATOR {
        InstructionName::Burn
    } else if d == COMPRESS_DISCRIMINATOR {
        InstructionName::Compress
    } else if d == CREATE_TREE_DISCRIMINATOR {
        InstructionName::CreateTree
    } else if d == VERIFY_CREATOR_DISCRIMINATOR {
        InstructionName::VerifyCreator
    } else if d == UNVERIFY_CREATOR_DISCRIMINATOR {
        InstructionName::UnverifyCreator
    } else if d == VERIFY_COLLECTION_DISCRIMINATOR {
        InstructionName::VerifyCollection
    } else if d == UNVERIFY_COLLECTION_DISCRIMINATOR {
        InstructionName::UnverifyCollection
    } else if d == SET_AND_VERIFY_COLLECTION_DISCRIMINATOR {
        InstructionName::SetAndVerifyCollection
    } else if d == SET_DECOMPRESSIBLE_STATE_DISCRIMINATOR {
        InstructionName::SetDecompressibleState
    } else if d == SET_DECOMPRESSABLE_STATE_DISCRIMINATOR {
        InstructionName::SetDecompressibleState
    } else if d == UPDATE_METADATA_DISCRIMINATOR {
        InstructionName::UpdateMetadata
    } else {
        InstructionName::Unknown
    }
}

/// One event parsed from a no-op logging instruction's payload: a merkle
/// change log, an application-data record, or nothing when the bytes do not
/// parse.
pub enum NoopEvent {
    Failed,
    ChangeLog(spl_account_compression::events::ChangeLogEventV1),
    AppData(Vec<u8>),
}

/// Mathematical image of a [`NoopEvent`].
pub ghost enum NoopEventModel {
    Failed,
    ChangeLog(spl_account_compression::events::ChangeLogEventV1),
    AppData(Seq<u8>),
}

impl View for NoopEvent {
    type V = NoopEventModel;

    open spec fn view(&self) -> NoopEventModel {
        match self {
            NoopEvent::Failed => NoopEventModel::Failed,
            NoopEvent::ChangeLog(e) => NoopEventModel::ChangeLog(*e),
            NoopEvent::AppData(d) => NoopEventModel::AppData(d@),
        }
    }
}

pub uninterp spec fn noop_event_of(data: Seq<u8>) -> NoopEventModel;

/// Relies on borsh deserialization of spl-account-compression's
/// `AccountCompressionEvent`, a function of the bytes alone: a change-log
/// event carries its single versioned record, an application-data event its
/// embedded bytes, and bytes that do not parse carry nothing.
#[verifier::external_body]
fn parse_noop_event(data: &Vec<u8>) -> (r: NoopEvent)
    ensures
        r@ == noop_event_of(data@),
{
    match AccountCompressionEvent::try_from_slice(data) {
        Ok(AccountCompressionEvent::ChangeLog(ChangeLogEvent::V1(e))) => NoopEvent::ChangeLog(e),
        Ok(AccountCompressionEvent::ApplicationData(ApplicationDataEvent::V1(d))) => {
            NoopEvent::AppData(d.application_data)
        },
        Err(_) => NoopEvent::Failed,
    }
}

pub uninterp spec fn leaf_schema_event_of(data: Seq<u8>) -> Option<mpl_bubblegum::LeafSchemaEvent>;

/// Relies on borsh deserialization of mpl-bubblegum's `LeafSchemaEvent`, a
/// function of the bytes alone.
#[verifier::external_body]
fn parse_leaf_schema_event(data: &Vec<u8>) -> (r: Option<mpl_bubblegum::LeafSchemaEvent>)
    ensures
        r == leaf_schema_event_of(data@),
{
    mpl_bubblegum::LeafSchemaEvent::try_from_slice(data).ok()
}

pub uninterp spec fn metadata_args_of(data: Seq<u8>, mark_collection_verified: bool) -> Option<
    mpl_bubblegum::types::MetadataArgs,
>;

/// Relies on borsh deserialization of mpl-bubblegum's `MetadataArgs`, a
/// function of the bytes alone; when the flag asks for it, the parsed
/// value's embedded collection-membership flag is forced to verified.
#[verifier::external_body]
fn parse_metadata_args(data: &Vec<u8>, mark_collection_verified: bool) -> (r: Option<
    mpl_bubblegum::types::MetadataArgs,
>)
    ensures
        r == metadata_args_of(data@, mark_collection_verified),
{
    let mut args = match mpl_bubblegum::types::MetadataArgs::try_from_slice(data) {
        Ok(args) => args,
        Err(_) => return None,
    };
    if mark_collection_verified {
        if let Some(ref mut collection) = args.collection {
            collection.verified = true;
        }
    }
    Some(args)
}

/// The previous metadata and the update diff of an update-metadata payload.
pub struct UpdateMetadataParts {
    pub current_metadata: mpl_bubblegum::types::MetadataArgs,
    pub update_args: mpl_bubblegum::types::UpdateArgs,
}

pub uninterp spec fn update_metadata_args_of(data: Seq<u8>) -> Option<UpdateMetadataParts>;

/// Relies on borsh deserialization of mpl-bubblegum's
/// `UpdateMetadataInstructionArgs`, a function of the bytes alone; of a
/// parsed value only the previous metadata and the update diff are kept.
#[verifier::external_body]
fn parse_update_metadata_args(data: &Vec<u8>) -> (r: Option<UpdateMetadataParts>)
    ensures
        r == update_metadata_args_of(data@),
{
    mpl_bubblegum::instructions::UpdateMetadataInstructionArgs::try_from_slice(data)
        .ok()
        .map(
            |args| UpdateMetadataParts {
                current_metadata: args.current_metadata,
                update_args: args.update_args,
            },
        )
}

/// Relies on `<&[u8] as TryInto<[u8; 32]>>::try_into`: it succeeds exactly
/// on 32-byte input and copies the bytes.
#[verifier::external_body]
fn bytes_to_root(data: &Vec<u8>) -> (r: Option<[u8; 32]>)
    ensures
        match r {
            Some(a) => data@.len() == 32 && a@ == data@,
            None => data@.len() != 32,
        },
{
    data.as_slice().try_into().ok()
}

/// The kind-specific payload extracted from a Bubblegum instruction.
#[derive(Debug)]
pub enum Payload {
    Unknown,
    MintV1 { args: mpl_bubblegum::types::MetadataArgs },
    Decompress { args: mpl_bubblegum::types::MetadataArgs },
    CancelRedeem { root: [u8; 32] },
    CreatorVerification { creator: Pubkey, verify: bool },
    CollectionVerification { collection: Pubkey, verify: bool },
    UpdateMetadata {
        current_metadata: mpl_bubblegum::types::MetadataArgs,
        update_args: mpl_bubblegum::types::UpdateArgs,
    },
}

/// Mathematical image of a [`Payload`].
pub ghost enum PayloadModel {
    Unknown,
    MintV1 { args: mpl_bubblegum::types::MetadataArgs },
    Decompress { args: mpl_bubblegum::types::MetadataArgs },
    CancelRedeem { root: Seq<u8> },
    CreatorVerification { creator: Seq<u8>, verify: bool },
    CollectionVerification { collection: Seq<u8>, verify: bool },
    UpdateMetadata {
        current_metadata: mpl_bubblegum::types::MetadataArgs,
        update_args: mpl_bubblegum::types::UpdateArgs,
    },
}

impl View for Payload {
    type V = PayloadModel;

    open spec fn view(&self) -> PayloadModel {
        match self {
            Payload::Unknown => PayloadModel::Unknown,
            Payload::MintV1 { args } => PayloadModel::MintV1 { args: *args },
            Payload::Decompress { args } => PayloadModel::Decompress { args: *args },
            Payload::CancelRedeem { root } => PayloadModel::CancelRedeem { root: root@ },
            Payload::CreatorVerification { creator, verify } => PayloadModel::CreatorVerification {
                creator: creator@,
                verify: *verify,
            },
            Payload::CollectionVerification { collection, verify } => PayloadModel::CollectionVerification {
                collection: collection@,
                verify: *verify,
            },
            Payload::UpdateMetadata { current_metadata, update_args } => PayloadModel::UpdateMetadata {
                current_metadata: *current_metadata,
                update_args: *update_args,
            },
        }
    }
}

/// A decoded Bubblegum instruction: its kind, the log events correlated from
/// its nested no-op instructions, and its kind-specific payload.
pub struct BubblegumInstruction {
    pub instruction: InstructionName,
    pub tree_update: Option<spl_account_compression::events::ChangeLogEventV1>,
    pub leaf_update: Option<mpl_bubblegum::LeafSchemaEvent>,
    pub payload: Option<Payload>,
}

/// Mathematical image of a [`BubblegumInstruction`].
pub ghost struct BubblegumInstructionModel {
    pub instruction: InstructionName,
    pub tree_update: Option<spl_account_compression::events::ChangeLogEventV1>,
    pub leaf_update: Option<mpl_bubblegum::LeafSchemaEvent>,
    pub payload: Option<PayloadModel>,
}

impl View for BubblegumInstruction {
    type V = BubblegumInstructionModel;

    open spec fn view(&self) -> BubblegumInstructionModel {
        BubblegumInstructionModel {
            instruction: self.instruction,
            tree_update: self.tree_update,
            leaf_update: self.leaf_update,
            payload: match &self.payload {
                Some(p) => Some(p@),
                None => None,
            },
        }
    }
}

impl BubblegumInstruction {
    /// A decoded instruction of the given kind with nothing correlated or
    /// extracted yet.
    pub fn new(ix: InstructionName) -> (r: Self)
        ensures
            r.instruction == ix,
            r.tree_update is None,
            r.leaf_update is None,
            r.payload is None,
    {
        BubblegumInstruction { instruction: ix, tree_update: None, leaf_update: None, payload: None }
    }
}

/// The tree and leaf updates correlated from the nested instructions from
/// position `from` on, scanning left to right with accumulators `tree` and
/// `leaf`: each no-op call with a non-empty payload contributes its event,
/// later events overwrite earlier ones, and a malformed or incomplete
/// application-data record stops the decode with an error.  Payloads that do
/// not parse as events at all are skipped.
pub open spec fn correlate_logs(
    inner: Seq<PairModel>,
    from: int,
    tree: Option<spl_account_compression::events::ChangeLogEventV1>,
    leaf: Option<mpl_bubblegum::LeafSchemaEvent>,
) -> Result<
    (Option<spl_account_compression::events::ChangeLogEventV1>, Option<
        mpl_bubblegum::LeafSchemaEvent,
    >),
    BlockbusterError,
>
    decreases inner.len() - from,
{
    if from < 0 || from >= inner.len() {
        Ok((tree, leaf))
    } else if inner[from].0 == noop_id_bytes() && inner[from].1.data.len() > 0 {
        match noop_event_of(inner[from].1.data) {
            NoopEventModel::Failed => correlate_logs(inner, from + 1, tree, leaf),
            NoopEventModel::ChangeLog(e) => correlate_logs(inner, from + 1, Some(e), leaf),
            NoopEventModel::AppData(app) => {
                if app.len() == 0 {
                    Err(BlockbusterError::DeserializationError)
                } else if app[0] == 0 {
                    Err(BlockbusterError::MissingBubblegumEventData)
                } else if app[0] == 1 {
                    match leaf_schema_event_of(app) {
                        Some(ev) => correlate_logs(inner, from + 1, tree, Some(ev)),
                        None => Err(BlockbusterError::DeserializationError),
                    }
                } else {
                    Err(BlockbusterError::DeserializationError)
                }
            },
        }
    } else {
        correlate_logs(inner, from + 1, tree, leaf)
    }
}

/// The creator-verification payload: the creator is read from the fixed,
/// convention-defined position (index 5) of the bundle's account list.
pub open spec fn creator_verification_model(keys: Seq<Seq<u8>>, verify: bool) -> Result<
    PayloadModel,
    BlockbusterError,
> {
    if keys.len() > 5 {
        Ok(PayloadModel::CreatorVerification { creator: keys[5], verify })
    } else {
        Err(BlockbusterError::InstructionParsingError)
    }
}

/// The collection-verification payload: the collection is read from the
/// fixed, convention-defined position (index 8) of the bundle's account
/// list.
pub open spec fn collection_verification_model(keys: Seq<Seq<u8>>, verify: bool) -> Result<
    PayloadModel,
    BlockbusterError,
> {
    if keys.len() > 8 {
        Ok(PayloadModel::CollectionVerification { collection: keys[8], verify })
    } else {
        Err(BlockbusterError::InstructionParsingError)
    }
}

/// The kind-specific payload of an instruction: nothing when the payload
/// holds no bytes beyond the discriminator, otherwise what the kind asks the
/// remainder (or, for metadata updates, the whole payload) to deserialize
/// to.
pub open spec fn payload_model_for(
    kind: InstructionName,
    data: Seq<u8>,
    keys: Seq<Seq<u8>>,
) -> Result<Option<PayloadModel>, BlockbusterError> {
    if data.len() <= 8 {
        Ok(None)
    } else {
        let rest = data.skip(8);
        match kind {
            InstructionName::MintV1 => match metadata_args_of(rest, false) {
                Some(args) => Ok(Some(PayloadModel::MintV1 { args })),
                None => Err(BlockbusterError::DeserializationError),
            },
            InstructionName::MintToCollectionV1 => match metadata_args_of(rest, true) {
                Some(args) => Ok(Some(PayloadModel::MintV1 { args })),
                None => Err(BlockbusterError::DeserializationError),
            },
            InstructionName::DecompressV1 => match metadata_args_of(rest, false) {
                Some(args) => Ok(Some(PayloadModel::Decompress { args })),
                None => Err(BlockbusterError::DeserializationError),
            },
            InstructionName::CancelRedeem => if rest.len() == 32 {
                Ok(Some(PayloadModel::CancelRedeem { root: rest }))
            } else {
                Err(BlockbusterError::InstructionParsingError)
            },
            InstructionName::VerifyCreator => match creator_verification_model(keys, true) {
                Ok(p) => Ok(Some(p)),
                Err(e) => Err(e),
            },
            InstructionName::UnverifyCreator => match creator_verification_model(keys, false) {
                Ok(p) => Ok(Some(p)),
                Err(e) => Err(e),
            },
            InstructionName::VerifyCollection => match collection_verification_model(keys, true) {
                Ok(p) => Ok(Some(p)),
                Err(e) => Err(e),
            },
            InstructionName::SetAndVerifyCollection => match collection_verification_model(
                keys,
                true,
            ) {
                Ok(p) => Ok(Some(p)),
                Err(e) => Err(e),
            },
            InstructionName::UnverifyCollection => match collection_verification_model(
                keys,
                false,
            ) {
                Ok(p) => Ok(Some(p)),
                Err(e) => Err(e),
            },
            InstructionName::UpdateMetadata => match update_metadata_args_of(data) {
                Some(parts) => Ok(Some(PayloadModel::UpdateMetadata {
                    current_metadata: parts.current_metadata,
                    update_args: parts.update_args,
                })),
                None => Err(BlockbusterError::DeserializationError),
            },
            _ => Ok(None),
        }
    }
}

/// What decoding a bundle yields: an error when the bundle carries no
/// instruction, otherwise the instruction's kind, the correlated log events,
/// and the kind-specific payload — or the first error those steps hit, log
/// correlation first.
pub open spec fn handle_instruction_model(
    bundle: crate::instruction::InstructionBundleModel,
) -> Result<BubblegumInstructionModel, BlockbusterError> {
    match bundle.instruction {
        None => Err(BlockbusterError::DeserializationError),
        Some(ix) => {
            let kind = kind_of(ix.data);
            let inner = match bundle.inner_ix {
                Some(l) => l,
                None => Seq::empty(),
            };
            match correlate_logs(inner, 0, None, None) {
                Err(e) => Err(e),
                Ok((tree, leaf)) => match payload_model_for(kind, ix.data, bundle.keys) {
                    Err(e) => Err(e),
                    Ok(p) => Ok(
                        BubblegumInstructionModel {
                            instruction: kind,
                            tree_update: tree,
                            leaf_update: leaf,
                            payload: p,
                        },
                    ),
                },
            }
        },
    }
}

/// Creator verification payloads read the creator from index 5 of the
/// bundle's account list, a versioned convention of the Bubblegum program.
fn build_creator_verification_payload(keys: &Vec<Pubkey>, verify: bool) -> (r: Result<
    Payload,
    BlockbusterError,
>)
    ensures
        match r {
            Ok(p) => creator_verification_model(keys.deep_view(), verify) == Ok::<
                PayloadModel,
                BlockbusterError,
            >(p@),
            Err(e) => creator_verification_model(keys.deep_view(), verify) == Err::<
                PayloadModel,
                BlockbusterError,
            >(e),
        },
{
    if keys.len() > 5 {
        let creator = keys[5];
        Ok(Payload::CreatorVerification { creator, verify })
    } else {
        Err(BlockbusterError::InstructionParsingError)
    }
}

/// Collection verification payloads read the collection from index 8 of the
/// bundle's account list, a versioned convention of the Bubblegum program.
fn build_collection_verification_payload(keys: &Vec<Pubkey>, verify: bool) -> (r: Result<
    Payload,
    BlockbusterError,
>)
    ensures
        match r {
            Ok(p) => collection_verification_model(keys.deep_view(), verify) == Ok::<
                PayloadModel,
                BlockbusterError,
            >(p@),
            Err(e) => collection_verification_model(keys.deep_view(), verify) == Err::<
                PayloadModel,
                BlockbusterError,
            >(e),
        },
{
    if keys.len() > 8 {
        let collection = keys[8];
        Ok(Payload::CollectionVerification { collection, verify })
    } else {
        Err(BlockbusterError::InstructionParsingError)
    }
}

/// The decoder for the Bubblegum compressed-NFT program.
pub struct BubblegumParser;

impl BubblegumParser {
    /// The program id this decoder handles.
    pub fn key(&self) -> (r: Pubkey)
        ensures
            r@ == bubblegum_id_bytes(),
    {
        bubblegum_id()
    }

    /// Whether a program id is the one this decoder handles.
    pub fn key_match(&self, key: &Pubkey) -> (r: bool)
        ensures
            r == (key@ == bubblegum_id_bytes()),
    {
        key.eq_key(&bubblegum_id())
    }

    /// This decoder does not consume account snapshots.
    pub fn handles_account_updates(&self) -> (r: bool)
        ensures
            !r,
    {
        false
    }

    /// This decoder consumes instruction bundles.
    pub fn handles_instructions(&self) -> (r: bool)
        ensures
            r,
    {
        true
    }

    /// Account snapshots carry nothing for this decoder.
    pub fn handle_account(&self, _account_data: &Vec<u8>) -> (r: Result<(), BlockbusterError>)
        ensures
            r is Ok,
    {
        Ok(())
    }

    /// Decode one bundle: resolve the instruction kind from the payload's
    /// discriminator, correlate tree and leaf updates from the nested no-op
    /// log instructions (last occurrence wins, malformed log payloads are
    /// skipped), then extract the kind-specific payload.
    pub fn handle_instruction(&self, bundle: &InstructionBundle) -> (r: Result<
        BubblegumInstruction,
        BlockbusterError,
    >)
        ensures
            match r {
                Ok(b) => handle_instruction_model(bundle.deep_view()) == Ok::<
                    BubblegumInstructionModel,
                    BlockbusterError,
                >(b@),
                Err(e) => handle_instruction_model(bundle.deep_view()) == Err::<
                    BubblegumInstructionModel,
                    BlockbusterError,
                >(e),
            },
    {
        let ghost bundle_dv = bundle.deep_view();
        let outer_ix = match &bundle.instruction {
            Some(cix) => cix,
            None => {
                return Err(BlockbusterError::DeserializationError);
            },
        };
        let ghost data_dv = outer_ix.data@;
        let ix_type = get_instruction_type(&outer_ix.data);
        let mut b_inst = BubblegumInstruction::new(ix_type);
        let ghost inner_dv = match bundle_dv.inner_ix {
            Some(l) => l,
            None => Seq::empty(),
        };
        if let Some(ixs) = &bundle.inner_ix {
            assert(inner_dv == ixs.deep_view());
            let noop = noop_id();
            let mut i: usize = 0;
            while i < ixs.len()
                invariant
                    i <= ixs.len(),
                    inner_dv == ixs.deep_view(),
                    bundle.deep_view().instruction == Some(outer_ix.deep_view()),
                    bundle.deep_view().inner_ix == Some(inner_dv),
                    noop@ == noop_id_bytes(),
                    b_inst.instruction == ix_type,
                    b_inst.payload is None,
                    correlate_logs(inner_dv, i as int, b_inst.tree_update, b_inst.leaf_update)
                        == correlate_logs(
                        inner_dv,
                        0,
                        None::<spl_account_compression::events::ChangeLogEventV1>,
                        None::<mpl_bubblegum::LeafSchemaEvent>,
                    ),
                decreases ixs.len() - i,
            {
                let pid = &ixs[i].0;
                let cix = &ixs[i].1;
                assert(inner_dv[i as int] == (pid@, cix.deep_view()));
                if pid.eq_key(&noop) && cix.data.len() > 0 {
                    match parse_noop_event(&cix.data) {
                        NoopEvent::Failed => {},
                        NoopEvent::ChangeLog(changelog_event) => {
                            b_inst.tree_update = Some(changelog_event);
                        },
                        NoopEvent::AppData(app_data) => {
                            proof {
                                assert(noop_event_of(inner_dv[i as int].1.data)
                                    == NoopEventModel::AppData(app_data@));
                            }
                            if app_data.len() == 0 {
                                proof {
                                    assert(correlate_logs(
                                        inner_dv,
                                        i as int,
                                        b_inst.tree_update,
                                        b_inst.leaf_update,
                                    ) == Err::<
                                        (
                                            Option<
                                                spl_account_compression::events::ChangeLogEventV1,
                                            >,
                                            Option<mpl_bubblegum::LeafSchemaEvent>,
                                        ),
                                        BlockbusterError,
                                    >(BlockbusterError::DeserializationError));
                                }
                                return Err(BlockbusterError::DeserializationError);
                            }
                            let tag = app_data[0];
                            if tag == 0 {
                                return Err(BlockbusterError::MissingBubblegumEventData);
                            } else if tag == 1 {
                                match parse_leaf_schema_event(&app_data) {
                                    Some(ev) => {
                                        b_inst.leaf_update = Some(ev);
                                    },
                                    None => {
                                        proof {
                                            assert(leaf_schema_event_of(app_data@) is None);
                                            assert(correlate_logs(
                                                inner_dv,
                                                i as int,
                                                b_inst.tree_update,
                                                b_inst.leaf_update,
                                            ) == Err::<
                                                (
                                                    Option<
                                                        spl_account_compression::events::ChangeLogEventV1,
                                                    >,
                                                    Option<mpl_bubblegum::LeafSchemaEvent>,
                                                ),
                                                BlockbusterError,
                                            >(BlockbusterError::DeserializationError));
                                        }
                                        return Err(BlockbusterError::DeserializationError);
                                    },
                                }
                            } else {
                                return Err(BlockbusterError::DeserializationError);
                            }
                        },
                    }
                }
                i += 1;
            }
        }
        assert(correlate_logs(
            inner_dv,
            0,
            None::<spl_account_compression::events::ChangeLogEventV1>,
            None::<mpl_bubblegum::LeafSchemaEvent>,
        ) matches Ok(pair) && pair == (b_inst.tree_update, b_inst.leaf_update));

        if outer_ix.data.len() > 8 {
            match ix_type {
                InstructionName::MintV1 => {
                    let ix_data = tail_from(&outer_ix.data, 8);
                    match parse_metadata_args(&ix_data, false) {
                        Some(args) => {
                            b_inst.payload = Some(Payload::MintV1 { args });
                        },
                        None => {
                            return Err(BlockbusterError::DeserializationError);
                        },
                    }
                },
                InstructionName::MintToCollectionV1 => {
                    let ix_data = tail_from(&outer_ix.data, 8);
                    match parse_metadata_args(&ix_data, true) {
                        Some(args) => {
                            b_inst.payload = Some(Payload::MintV1 { args });
                        },
                        None => {
                            return Err(BlockbusterError::DeserializationError);
                        },
                    }
                },
                InstructionName::DecompressV1 => {
                    let ix_data = tail_from(&outer_ix.data, 8);
                    match parse_metadata_args(&ix_data, false) {
                        Some(args) => {
                            b_inst.payload = Some(Payload::Decompress { args });
                        },
                        None => {
                            return Err(BlockbusterError::DeserializationError);
                        },
                    }
                },
                InstructionName::CancelRedeem => {
                    let ix_data = tail_from(&outer_ix.data, 8);
                    match bytes_to_root(&ix_data) {
                        Some(root) => {
                            b_inst.payload = Some(Payload::CancelRedeem { root });
                        },
                        None => {
                            return Err(BlockbusterError::InstructionParsingError);
                        },
                    }
                },
                InstructionName::VerifyCreator => {
                    match build_creator_verification_payload(&bundle.keys, true) {
                        Ok(p) => {
                            b_inst.payload = Some(p);
                        },
                        Err(e) => {
                            return Err(e);
                        },
                    }
                },
                InstructionName::UnverifyCreator => {
                    match build_creator_verification_payload(&bundle.keys, false) {
                        Ok(p) => {
                            b_inst.payload = Some(p);
                        },
                        Err(e) => {
                            return Err(e);
                        },
                    }
                },
                InstructionName::VerifyCollection => {
                    match build_collection_verification_payload(&bundle.keys, true) {
                        Ok(p) => {
                            b_inst.payload = Some(p);
                        },
                        Err(e) => {
                            return Err(e);
                        },
                    }
                },
                InstructionName::SetAndVerifyCollection => {
                    match build_collection_verification_payload(&bundle.keys, true) {
                        Ok(p) => {
                            b_inst.payload = Some(p);
                        },
                        Err(e) => {
                            return Err(e);
                        },
                    }
                },
                InstructionName::UnverifyCollection => {
                    match build_collection_verification_payload(&bundle.keys, false) {
                        Ok(p) => {
                            b_inst.payload = Some(p);
                        },
                        Err(e) => {
                            return Err(e);
                        },
                    }
                },
                InstructionName::UpdateMetadata => {
                    match parse_update_metadata_args(&outer_ix.data) {
                        Some(parts) => {
                            b_inst.payload = Some(
                                Payload::UpdateMetadata {
                                    current_metadata: parts.current_metadata,
                                    update_args: parts.update_args,
                                },
                            );
                        },
                        None => {
                            return Err(BlockbusterError::DeserializationError);
                        },
                    }
                },
                _ => {},
            }
        }
        Ok(b_inst)
    }
}

} // verus!
