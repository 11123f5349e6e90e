//! The events that the program writes to its log, and their decoder.
//!
//! An event arrives as base64 text. Its bytes are an 8-byte discriminator
//! that names the record, followed by the record's fields.

use crate::address::Address;
use crate::common::codec::{
    address_at, bool_byte, i64_at, i64_bits, read_address, read_bool, read_i64, read_text,
    read_u64, text_at, text_bytes, u64_at,
};
use crate::common::outside::{base64_decode, base64_decoded, Base64Error};
use crate::encoding::le_bytes;
use vstd::prelude::*;

verus! {

/// Discriminator of a `CreateEvent`.
pub const CREATE_EVENT_DISCRIMINATOR: [u8; 8] = [27, 114, 169, 77, 222, 235, 99, 118];

/// Discriminator of a `TradeEvent`.
pub const TRADE_EVENT_DISCRIMINATOR: [u8; 8] = [189, 219, 127, 211, 78, 230, 97, 238];

/// Discriminator of a `CompleteEvent`.
pub const COMPLETE_EVENT_DISCRIMINATOR: [u8; 8] = [95, 114, 97, 156, 212, 46, 152, 8];

/// Discriminator of a `SetParamsEvent`.
pub const SET_PARAMS_EVENT_DISCRIMINATOR: [u8; 8] = [223, 195, 159, 246, 62, 48, 143, 131];

/// Number of bytes in a discriminator.
pub const DISCRIMINATOR_LEN: usize = 8;

/// Number of bytes in the fields of a `TradeEvent`.
pub const TRADE_EVENT_LEN: usize = 217;

/// Number of bytes in the fields of a `CompleteEvent`.
pub const COMPLETE_EVENT_LEN: usize = 104;

/// Number of bytes in the fields of a `SetParamsEvent`.
pub const SET_PARAMS_EVENT_LEN: usize = 72;

/// Number of bytes in the fields of a `CreateEvent` that follow its three
/// texts.
pub const CREATE_EVENT_TAIL_LEN: usize = 168;

/// A token was created.
#[derive(Debug, Clone, PartialEq, Eq)]
pub struct CreateEvent {
    pub name: String,
    pub symbol: String,
    pub uri: String,
    pub mint: Address,
    pub bonding_curve: Address,
    pub user: Address,
    pub creator: Address,
    pub timestamp: i64,
    pub virtual_sol_reserves: u64,
    pub virtual_token_reserves: u64,
    pub real_sol_reserves: u64,
    pub real_token_reserves: u64,
}

/// A token was bought or sold.
#[derive(Debug, Clone, Copy, PartialEq, Eq)]
pub struct TradeEvent {
    pub mint: Address,
    pub sol_amount: u64,
    pub token_amount: u64,
    pub is_buy: bool,
    pub user: Address,
    pub timestamp: i64,
    pub virtual_sol_reserves: u64,
    pub virtual_token_reserves: u64,
    pub real_sol_reserves: u64,
    pub real_token_reserves: u64,
    pub fee_recipient: Address,
    pub fee_basis_points: u64,
    pub fee: u64,
    pub creator: Address,
    pub creator_fee_basis_points: u64,
    pub creator_fee: u64,
}

/// A bonding curve was completed.
#[derive(Debug, Clone, Copy, PartialEq, Eq)]
pub struct CompleteEvent {
    pub user: Address,
    pub mint: Address,
    pub bonding_curve: Address,
    pub timestamp: i64,
}

/// The global parameters were set.
#[derive(Debug, Clone, Copy, PartialEq, Eq)]
pub struct SetParamsEvent {
    pub fee_recipient: Address,
    pub initial_virtual_token_reserves: u64,
    pub initial_virtual_sol_reserves: u64,
    pub initial_real_token_reserves: u64,
    pub token_total_supply: u64,
    pub fee_basis_points: u64,
}

/// An event of the program.
#[derive(Debug, Clone, PartialEq, Eq)]
pub enum PumpFunEvent {
    Create(CreateEvent),
    Trade(TradeEvent),
    Complete(CompleteEvent),
    SetParams(SetParamsEvent),
}

/// The records that an event can hold.
#[derive(Debug, Clone, Copy, PartialEq, Eq)]
pub enum RecordKind {
    CreateEvent,
    TradeEvent,
    CompleteEvent,
    SetParamsEvent,
}

/// Why bytes are no event.
#[derive(Debug, Clone, Copy, PartialEq, Eq)]
pub enum DecodeFailure {
    /// Fewer bytes than a discriminator has.
    TooShort,
    /// The discriminator of this record, followed by bytes that are not
    /// such a record.
    Malformed(RecordKind),
    /// A discriminator that names no record.
    Unknown,
}

/// Why a logged text is no event.
#[derive(Debug, Clone, PartialEq, Eq)]
pub enum EventError {
    /// The text is no base64.
    Base64(Base64Error),
    /// The text stands for fewer bytes than a discriminator has; carries
    /// the text.
    TooShort { data: String },
    /// The bytes after the discriminator are not the record that it names.
    Malformed { record: RecordKind },
    /// The discriminator names no record; carries the transaction's
    /// signature and the text.
    Unknown { signature: String, data: String },
}

/// What a `CreateEvent` holds.
pub struct CreateEventView {
    pub name: Seq<char>,
    pub symbol: Seq<char>,
    pub uri: Seq<char>,
    pub mint: Seq<u8>,
    pub bonding_curve: Seq<u8>,
    pub user: Seq<u8>,
    pub creator: Seq<u8>,
    pub timestamp: i64,
    pub virtual_sol_reserves: u64,
    pub virtual_token_reserves: u64,
    pub real_sol_reserves: u64,
    pub real_token_reserves: u64,
}

/// What a `TradeEvent` holds.
pub struct TradeEventView {
    pub mint: Seq<u8>,
    pub sol_amount: u64,
    pub token_amount: u64,
    pub is_buy: bool,
    pub user: Seq<u8>,
    pub timestamp: i64,
    pub virtual_sol_reserves: u64,
    pub virtual_token_reserves: u64,
    pub real_sol_reserves: u64,
    pub real_token_reserves: u64,
    pub fee_recipient: Seq<u8>,
    pub fee_basis_points: u64,
    pub fee: u64,
    pub creator: Seq<u8>,
    pub creator_fee_basis_points: u64,
    pub creator_fee: u64,
}

/// What a `CompleteEvent` holds.
pub struct CompleteEventView {
    pub user: Seq<u8>,
    pub mint: Seq<u8>,
    pub bonding_curve: Seq<u8>,
    pub timestamp: i64,
}

/// What a `SetParamsEvent` holds.
pub struct SetParamsEventView {
    pub fee_recipient: Seq<u8>,
    pub initial_virtual_token_reserves: u64,
    pub initial_virtual_sol_reserves: u64,
    pub initial_real_token_reserves: u64,
    pub token_total_supply: u64,
    pub fee_basis_points: u64,
}

/// What an event holds.
pub enum PumpFunEventView {
    Create(CreateEventView),
    Trade(TradeEventView),
    Complete(CompleteEventView),
    SetParams(SetParamsEventView),
}

impl View for CreateEvent {
    type V = CreateEventView;

    open spec fn view(&self) -> CreateEventView {
        CreateEventView {
            name: self.name@,
            symbol: self.symbol@,
            uri: self.uri@,
            mint: self.mint@,
            bonding_curve: self.bonding_curve@,
            user: self.user@,
            creator: self.creator@,
            timestamp: self.timestamp,
            virtual_sol_reserves: self.virtual_sol_reserves,
            virtual_token_reserves: self.virtual_token_reserves,
            real_sol_reserves: self.real_sol_reserves,
            real_token_reserves: self.real_token_reserves,
        }
    }
}

impl View for TradeEvent {
    type V = TradeEventView;

    open spec fn view(&self) -> TradeEventView {
        TradeEventView {
            mint: self.mint@,
            sol_amount: self.sol_amount,
            token_amount: self.token_amount,
            is_buy: self.is_buy,
            user: self.user@,
            timestamp: self.timestamp,
            virtual_sol_reserves: self.virtual_sol_reserves,
            virtual_token_reserves: self.virtual_token_reserves,
            real_sol_reserves: self.real_sol_reserves,
            real_token_reserves: self.real_token_reserves,
            fee_recipient: self.fee_recipient@,
            fee_basis_points: self.fee_basis_points,
            fee: self.fee,
            creator: self.creator@,
            creator_fee_basis_points: self.creator_fee_basis_points,
            creator_fee: self.creator_fee,
        }
    }
}

impl View for CompleteEvent {
    type V = CompleteEventView;

    open spec fn view(&self) -> CompleteEventView {
        CompleteEventView {
            user: self.user@,
            mint: self.mint@,
            bonding_curve: self.bonding_curve@,
            timestamp: self.timestamp,
        }
    }
}

impl View for SetParamsEvent {
    type V = SetParamsEventView;

    open spec fn view(&self) -> SetParamsEventView {
        SetParamsEventView {
            fee_recipient: self.fee_recipient@,
            initial_virtual_token_reserves: self.initial_virtual_token_reserves,
            initial_virtual_sol_reserves: self.initial_virtual_sol_reserves,
            initial_real_token_reserves: self.initial_real_token_reserves,
            token_total_supply: self.token_total_supply,
            fee_basis_points: self.fee_basis_points,
        }
    }
}

impl View for PumpFunEvent {
    type V = PumpFunEventView;

    open spec fn view(&self) -> PumpFunEventView {
        match self {
            PumpFunEvent::Create(e) => PumpFunEventView::Create(e@),
            PumpFunEvent::Trade(e) => PumpFunEventView::Trade(e@),
            PumpFunEvent::Complete(e) => PumpFunEventView::Complete(e@),
            PumpFunEvent::SetParams(e) => PumpFunEventView::SetParams(e@),
        }
    }
}

impl RecordKind {
    /// The record's name.
    pub fn name(&self) -> (r: &'static str)
        ensures
            r@ == (match self {
                RecordKind::CreateEvent => "CreateEvent"@,
                RecordKind::TradeEvent => "TradeEvent"@,
                RecordKind::CompleteEvent => "CompleteEvent"@,
                RecordKind::SetParamsEvent => "SetParamsEvent"@,
            }),
    {
        match self {
            RecordKind::CreateEvent => "CreateEvent",
            RecordKind::TradeEvent => "TradeEvent",
            RecordKind::CompleteEvent => "CompleteEvent",
            RecordKind::SetParamsEvent => "SetParamsEvent",
        }
    }
}

impl CreateEventView {
    /// Whether the addresses have 32 bytes each and the texts fewer than
    /// 2^32 bytes each, as those of every `CreateEvent` that was decoded.
    pub open spec fn wf(&self) -> bool {
        &&& self.mint.len() == 32
        &&& self.bonding_curve.len() == 32
        &&& self.user.len() == 32
        &&& self.creator.len() == 32
        &&& vstd::utf8::encode_utf8(self.name).len() < 0x1_0000_0000
        &&& vstd::utf8::encode_utf8(self.symbol).len() < 0x1_0000_0000
        &&& vstd::utf8::encode_utf8(self.uri).len() < 0x1_0000_0000
    }

    /// The fields that follow the three texts, in order.
    pub open spec fn tail(&self) -> Seq<u8> {
        self.mint + self.bonding_curve + self.user + self.creator + le_bytes(
            i64_bits(self.timestamp),
            8,
        ) + le_bytes(self.virtual_sol_reserves as nat, 8) + le_bytes(
            self.virtual_token_reserves as nat,
            8,
        ) + le_bytes(self.real_sol_reserves as nat, 8) + le_bytes(
            self.real_token_reserves as nat,
            8,
        )
    }

    /// The record's bytes: the fields in order.
    pub open spec fn encoding(&self) -> Seq<u8> {
        text_bytes(self.name) + text_bytes(self.symbol) + text_bytes(self.uri) + self.tail()
    }
}

impl TradeEventView {
    /// Whether the addresses have 32 bytes each, as those of every
    /// `TradeEvent`.
    pub open spec fn wf(&self) -> bool {
        &&& self.mint.len() == 32
        &&& self.user.len() == 32
        &&& self.fee_recipient.len() == 32
        &&& self.creator.len() == 32
    }

    /// The record's bytes: the fields in order.
    pub open spec fn encoding(&self) -> Seq<u8> {
        self.mint + le_bytes(self.sol_amount as nat, 8) + le_bytes(self.token_amount as nat, 8)
            + seq![bool_byte(self.is_buy)] + self.user + le_bytes(i64_bits(self.timestamp), 8)
            + le_bytes(self.virtual_sol_reserves as nat, 8) + le_bytes(
            self.virtual_token_reserves as nat,
            8,
        ) + le_bytes(self.real_sol_reserves as nat, 8) + le_bytes(
            self.real_token_reserves as nat,
            8,
        ) + self.fee_recipient + le_bytes(self.fee_basis_points as nat, 8) + le_bytes(
            self.fee as nat,
            8,
        ) + self.creator + le_bytes(self.creator_fee_basis_points as nat, 8) + le_bytes(
            self.creator_fee as nat,
            8,
        )
    }
}

impl CompleteEventView {
    /// Whether the addresses have 32 bytes each, as those of every
    /// `CompleteEvent`.
    pub open spec fn wf(&self) -> bool {
        &&& self.user.len() == 32
        &&& self.mint.len() == 32
        &&& self.bonding_curve.len() == 32
    }

    /// The record's bytes: the fields in order.
    pub open spec fn encoding(&self) -> Seq<u8> {
        self.user + self.mint + self.bonding_curve + le_bytes(i64_bits(self.timestamp), 8)
    }
}

impl SetParamsEventView {
    /// Whether the address has 32 bytes, as that of every `SetParamsEvent`.
    pub open spec fn wf(&self) -> bool {
        self.fee_recipient.len() == 32
    }

    /// The record's bytes: the fields in order.
    pub open spec fn encoding(&self) -> Seq<u8> {
        self.fee_recipient + le_bytes(self.initial_virtual_token_reserves as nat, 8) + le_bytes(
            self.initial_virtual_sol_reserves as nat,
            8,
        ) + le_bytes(self.initial_real_token_reserves as nat, 8) + le_bytes(
            self.token_total_supply as nat,
            8,
        ) + le_bytes(self.fee_basis_points as nat, 8)
    }
}

/// The `CreateEvent` whose fields `body` holds, if it holds exactly such a
/// record.
pub open spec fn parse_create(body: Seq<u8>) -> Option<CreateEventView> {
    match text_at(body, 0) {
        Some((name, a)) => match text_at(body, a) {
            Some((symbol, b)) => match text_at(body, b) {
                Some((uri, c)) => if body.len() != c + CREATE_EVENT_TAIL_LEN {
                    None
                } else {
                    Some(
                        CreateEventView {
                            name,
                            symbol,
                            uri,
                            mint: address_at(body, c),
                            bonding_curve: address_at(body, c + 32),
                            user: address_at(body, c + 64),
                            creator: address_at(body, c + 96),
                            timestamp: i64_at(body, c + 128),
                            virtual_sol_reserves: u64_at(body, c + 136),
                            virtual_token_reserves: u64_at(body, c + 144),
                            real_sol_reserves: u64_at(body, c + 152),
                            real_token_reserves: u64_at(body, c + 160),
                        },
                    )
                },
                None => None,
            },
            None => None,
        },
        None => None,
    }
}

/// The `TradeEvent` whose fields `body` holds, if it holds exactly such a
/// record.
pub open spec fn parse_trade(body: Seq<u8>) -> Option<TradeEventView> {
    if body.len() != TRADE_EVENT_LEN || body[48] > 1 {
        None
    } else {
        Some(
            TradeEventView {
                mint: address_at(body, 0),
                sol_amount: u64_at(body, 32),
                token_amount: u64_at(body, 40),
                is_buy: body[48] == 1,
                user: address_at(body, 49),
                timestamp: i64_at(body, 81),
                virtual_sol_reserves: u64_at(body, 89),
                virtual_token_reserves: u64_at(body, 97),
                real_sol_reserves: u64_at(body, 105),
                real_token_reserves: u64_at(body, 113),
                fee_recipient: address_at(body, 121),
                fee_basis_points: u64_at(body, 153),
                fee: u64_at(body, 161),
                creator: address_at(body, 169),
                creator_fee_basis_points: u64_at(body, 201),
                creator_fee: u64_at(body, 209),
            },
        )
    }
}

/// The `CompleteEvent` whose fields `body` holds, if it holds exactly such
/// a record.
pub open spec fn parse_complete(body: Seq<u8>) -> Option<CompleteEventView> {
    if body.len() != COMPLETE_EVENT_LEN {
        None
    } else {
        Some(
            CompleteEventView {
                user: address_at(body, 0),
                mint: address_at(body, 32),
                bonding_curve: address_at(body, 64),
                timestamp: i64_at(body, 96),
            },
        )
    }
}

/// The `SetParamsEvent` whose fields `body` holds, if it holds exactly such
/// a record.
pub open spec fn parse_set_params(body: Seq<u8>) -> Option<SetParamsEventView> {
    if body.len() != SET_PARAMS_EVENT_LEN {
        None
    } else {
        Some(
            SetParamsEventView {
                fee_recipient: address_at(body, 0),
                initial_virtual_token_reserves: u64_at(body, 32),
                initial_virtual_sol_reserves: u64_at(body, 40),
                initial_real_token_reserves: u64_at(body, 48),
                token_total_supply: u64_at(body, 56),
                fee_basis_points: u64_at(body, 64),
            },
        )
    }
}

/// The event that `bytes` hold: the record that the first eight bytes name,
/// read from the bytes that follow; or why they hold none.
pub open spec fn decoded_event(bytes: Seq<u8>) -> Result<PumpFunEventView, DecodeFailure> {
    if bytes.len() < DISCRIMINATOR_LEN {
        Err(DecodeFailure::TooShort)
    } else {
        let discriminator = bytes.subrange(0, 8);
        let body = bytes.subrange(8, bytes.len() as int);
        if discriminator == CREATE_EVENT_DISCRIMINATOR@ {
            match parse_create(body) {
                Some(e) => Ok(PumpFunEventView::Create(e)),
                None => Err(DecodeFailure::Malformed(RecordKind::CreateEvent)),
            }
        } else if discriminator == TRADE_EVENT_DISCRIMINATOR@ {
            match parse_trade(body) {
                Some(e) => Ok(PumpFunEventView::Trade(e)),
                None => Err(DecodeFailure::Malformed(RecordKind::TradeEvent)),
            }
        } else if discriminator == COMPLETE_EVENT_DISCRIMINATOR@ {
            match parse_complete(body) {
                Some(e) => Ok(PumpFunEventView::Complete(e)),
                None => Err(DecodeFailure::Malformed(RecordKind::CompleteEvent)),
            }
        } else if discriminator == SET_PARAMS_EVENT_DISCRIMINATOR@ {
            match parse_set_params(body) {
                Some(e) => Ok(PumpFunEventView::SetParams(e)),
                None => Err(DecodeFailure::Malformed(RecordKind::SetParamsEvent)),
            }
        } else {
            Err(DecodeFailure::Unknown)
        }
    }
}

/// Whether `r` is what decoding `bytes` gives, for an event that was logged
/// as the text `data` by the transaction `signature`: the event that the
/// bytes hold, or the failure with what it carries.
pub open spec fn decode_outcome(
    r: Result<PumpFunEvent, EventError>,
    signature: Seq<char>,
    data: Seq<char>,
    bytes: Seq<u8>,
) -> bool {
    match r {
        Ok(event) => decoded_event(bytes) == Ok::<PumpFunEventView, DecodeFailure>(event@),
        Err(EventError::TooShort { data: d }) => decoded_event(bytes) == Err::<
            PumpFunEventView,
            DecodeFailure,
        >(DecodeFailure::TooShort) && d@ == data,
        Err(EventError::Malformed { record }) => decoded_event(bytes) == Err::<
            PumpFunEventView,
            DecodeFailure,
        >(DecodeFailure::Malformed(record)),
        Err(EventError::Unknown { signature: s, data: d }) => decoded_event(bytes) == Err::<
            PumpFunEventView,
            DecodeFailure,
        >(DecodeFailure::Unknown) && s@ == signature && d@ == data,
        Err(EventError::Base64(_)) => false,
    }
}

/// Reads a `CreateEvent` from the bytes that follow its discriminator.
pub fn decode_create(body: &[u8]) -> (r: Option<CreateEvent>)
    ensures
        match r {
            Some(e) => parse_create(body@) == Some(e@),
            None => parse_create(body@) is None,
        },
{
    let (name, a) = read_text(body, 0)?;
    let (symbol, b) = read_text(body, a)?;
    let (uri, c) = read_text(body, b)?;
    if body.len() - c != CREATE_EVENT_TAIL_LEN {
        return None;
    }
    Some(
        CreateEvent {
            name,
            symbol,
            uri,
            mint: read_address(body, c),
            bonding_curve: read_address(body, c + 32),
            user: read_address(body, c + 64),
            creator: read_address(body, c + 96),
            timestamp: read_i64(body, c + 128),
            virtual_sol_reserves: read_u64(body, c + 136),
            virtual_token_reserves: read_u64(body, c + 144),
            real_sol_reserves: read_u64(body, c + 152),
            real_token_reserves: read_u64(body, c + 160),
        },
    )
}

/// Reads a `TradeEvent` from the bytes that follow its discriminator.
pub fn decode_trade(body: &[u8]) -> (r: Option<TradeEvent>)
    ensures
        match r {
            Some(e) => parse_trade(body@) == Some(e@),
            None => parse_trade(body@) is None,
        },
{
    if body.len() != TRADE_EVENT_LEN {
        return None;
    }
    let is_buy: bool = read_bool(body, 48)?;
    Some(
        TradeEvent {
            mint: read_address(body, 0),
            sol_amount: read_u64(body, 32),
            token_amount: read_u64(body, 40),
            is_buy,
            user: read_address(body, 49),
            timestamp: read_i64(body, 81),
            virtual_sol_reserves: read_u64(body, 89),
            virtual_token_reserves: read_u64(body, 97),
            real_sol_reserves: read_u64(body, 105),
            real_token_reserves: read_u64(body, 113),
            fee_recipient: read_address(body, 121),
            fee_basis_points: read_u64(body, 153),
            fee: read_u64(body, 161),
            creator: read_address(body, 169),
            creator_fee_basis_points: read_u64(body, 201),
            creator_fee: read_u64(body, 209),
        },
    )
}

/// Reads a `CompleteEvent` from the bytes that follow its discriminator.
pub fn decode_complete(body: &[u8]) -> (r: Option<CompleteEvent>)
    ensures
        match r {
            Some(e) => parse_complete(body@) == Some(e@),
            None => parse_complete(body@) is None,
        },
{
    if body.len() != COMPLETE_EVENT_LEN {
        return None;
    }
    Some(
        CompleteEvent {
            user: read_address(body, 0),
            mint: read_address(body, 32),
            bonding_curve: read_address(body, 64),
            timestamp: read_i64(body, 96),
        },
    )
}

/// Reads a `SetParamsEvent` from the bytes that follow its discriminator.
pub fn decode_set_params(body: &[u8]) -> (r: Option<SetParamsEvent>)
    ensures
        match r {
            Some(e) => parse_set_params(body@) == Some(e@),
            None => parse_set_params(body@) is None,
        },
{
    if body.len() != SET_PARAMS_EVENT_LEN {
        return None;
    }
    Some(
        SetParamsEvent {
            fee_recipient: read_address(body, 0),
            initial_virtual_token_reserves: read_u64(body, 32),
            initial_virtual_sol_reserves: read_u64(body, 40),
            initial_real_token_reserves: read_u64(body, 48),
            token_total_supply: read_u64(body, 56),
            fee_basis_points: read_u64(body, 64),
        },
    )
}

/// Whether `bytes` start with `discriminator`.
fn starts_with_discriminator(bytes: &[u8], discriminator: &[u8; 8]) -> (r: bool)
    requires
        bytes.len() >= 8,
    ensures
        r == (bytes@.subrange(0, 8) == discriminator@),
{
    let mut i: usize = 0;
    while i < 8
        invariant
            i <= 8,
            bytes.len() >= 8,
            forall|j: int| 0 <= j < i ==> bytes@[j] == discriminator@[j],
        decreases 8 - i,
    {
        if bytes[i] != discriminator[i] {
            assert(bytes@.subrange(0, 8)[i as int] != discriminator@[i as int]);
            return false;
        }
        i += 1;
    }
    assert(bytes@.subrange(0, 8) =~= discriminator@);
    true
}

/// Decodes the bytes of an event that the transaction `signature` logged
/// as the text `data`.
///
/// Fewer than eight bytes are too short. Otherwise the first eight name
/// the record and all the bytes that follow must be that record; a
/// discriminator that names none is unknown.
pub fn decode_event(signature: &str, data: &str, bytes: &[u8]) -> (r: Result<
    PumpFunEvent,
    EventError,
>)
    ensures
        decode_outcome(r, signature@, data@, bytes@),
        bytes.len() < 8 ==> r matches Err(EventError::TooShort { .. }),
{
    if bytes.len() < DISCRIMINATOR_LEN {
        return Err(EventError::TooShort { data: data.to_owned() });
    }
    let body: &[u8] = vstd::slice::slice_subrange(bytes, DISCRIMINATOR_LEN, bytes.len());
    if starts_with_discriminator(bytes, &CREATE_EVENT_DISCRIMINATOR) {
        match decode_create(body) {
            Some(e) => Ok(PumpFunEvent::Create(e)),
            None => Err(EventError::Malformed { record: RecordKind::CreateEvent }),
        }
    } else if starts_with_discriminator(bytes, &TRADE_EVENT_DISCRIMINATOR) {
        match decode_trade(body) {
            Some(e) => Ok(PumpFunEvent::Trade(e)),
            None => Err(EventError::Malformed { record: RecordKind::TradeEvent }),
        }
    } else if starts_with_discriminator(bytes, &COMPLETE_EVENT_DISCRIMINATOR) {
        match decode_complete(body) {
            Some(e) => Ok(PumpFunEvent::Complete(e)),
            None => Err(EventError::Malformed { record: RecordKind::CompleteEvent }),
        }
    } else if starts_with_discriminator(bytes, &SET_PARAMS_EVENT_DISCRIMINATOR) {
        match decode_set_params(body) {
            Some(e) => Ok(PumpFunEvent::SetParams(e)),
            None => Err(EventError::Malformed { record: RecordKind::SetParamsEvent }),
        }
    } else {
        Err(EventError::Unknown { signature: signature.to_owned(), data: data.to_owned() })
    }
}

/// Decodes an event that the transaction `signature` logged as the base64
/// text `data`.
///
/// Where `data` is no base64, the failure says why. Otherwise the result is
/// that of `decode_event` on the bytes that `data` stands for.
pub fn parse_event(signature: &str, data: &str) -> (r: Result<PumpFunEvent, EventError>)
    ensures
        match base64_decoded(data@) {
            Ok(bytes) => decode_outcome(r, signature@, data@, bytes),
            Err(e) => r matches Err(EventError::Base64(b)) && b == e,
        },
{
    match base64_decode(data) {
        Ok(bytes) => decode_event(signature, data, bytes.as_slice()),
        Err(e) => Err(EventError::Base64(e)),
    }
}

} // verus!
