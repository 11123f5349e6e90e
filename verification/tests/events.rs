use base64::Engine;
use pumpfun::address::Address;
use pumpfun::common::outside::Base64Error;
use pumpfun::common::stream::{
    decode_complete, decode_create, decode_event, decode_set_params, decode_trade, parse_event,
    CompleteEvent, CreateEvent, EventError, PumpFunEvent, RecordKind, SetParamsEvent, TradeEvent,
    COMPLETE_EVENT_DISCRIMINATOR, CREATE_EVENT_DISCRIMINATOR, SET_PARAMS_EVENT_DISCRIMINATOR,
    TRADE_EVENT_DISCRIMINATOR,
};

fn sample(seed: u8) -> Address {
    let mut bytes = [0u8; 32];
    for (i, b) in bytes.iter_mut().enumerate() {
        *b = seed.wrapping_mul(13).wrapping_add(i as u8);
    }
    Address::new(bytes)
}

fn trade() -> TradeEvent {
    TradeEvent {
        mint: sample(1),
        sol_amount: 1_000_000_007,
        token_amount: u64::MAX,
        is_buy: true,
        user: sample(2),
        timestamp: -1_700_000_000,
        virtual_sol_reserves: 30_000_000_000,
        virtual_token_reserves: 1_073_000_000_000_000,
        real_sol_reserves: 0,
        real_token_reserves: 793_100_000_000_000,
        fee_recipient: sample(3),
        fee_basis_points: 95,
        fee: 9_500_001,
        creator: sample(4),
        creator_fee_basis_points: 5,
        creator_fee: 500_001,
    }
}

fn trade_bytes(e: &TradeEvent) -> Vec<u8> {
    let mut out = borsh::to_vec(&(
        e.mint.to_bytes(),
        e.sol_amount,
        e.token_amount,
        e.is_buy,
        e.user.to_bytes(),
        e.timestamp,
        e.virtual_sol_reserves,
        e.virtual_token_reserves,
    ))
    .unwrap();
    out.extend(
        borsh::to_vec(&(
            e.real_sol_reserves,
            e.real_token_reserves,
            e.fee_recipient.to_bytes(),
            e.fee_basis_points,
            e.fee,
            e.creator.to_bytes(),
            e.creator_fee_basis_points,
            e.creator_fee,
        ))
        .unwrap(),
    );
    out
}

fn create() -> CreateEvent {
    CreateEvent {
        name: "Cat On Horse".to_string(),
        symbol: "COH".to_string(),
        uri: "https://example.com/\u{1F40E}.json".to_string(),
        mint: sample(5),
        bonding_curve: sample(6),
        user: sample(7),
        creator: sample(8),
        timestamp: i64::MAX,
        virtual_sol_reserves: 1,
        virtual_token_reserves: 2,
        real_sol_reserves: 3,
        real_token_reserves: 4,
    }
}

fn create_bytes(e: &CreateEvent) -> Vec<u8> {
    borsh::to_vec(&(
        e.name.clone(),
        e.symbol.clone(),
        e.uri.clone(),
        e.mint.to_bytes(),
        e.bonding_curve.to_bytes(),
        e.user.to_bytes(),
        e.creator.to_bytes(),
        e.timestamp,
        (e.virtual_sol_reserves, e.virtual_token_reserves, e.real_sol_reserves, e.real_token_reserves),
    ))
    .unwrap()
}

fn framed(discriminator: &[u8; 8], body: &[u8]) -> Vec<u8> {
    let mut out = discriminator.to_vec();
    out.extend_from_slice(body);
    out
}

fn text(bytes: &[u8]) -> String {
    base64::engine::general_purpose::STANDARD.encode(bytes)
}

#[test]
fn trade_round_trip() {
    let e = trade();
    let body = trade_bytes(&e);
    assert_eq!(body.len(), 217);
    assert_eq!(decode_trade(&body), Some(e));
    let data = text(&framed(&TRADE_EVENT_DISCRIMINATOR, &body));
    assert_eq!(parse_event("sig", &data), Ok(PumpFunEvent::Trade(e)));
    let mut sold = e;
    sold.is_buy = false;
    sold.timestamp = i64::MIN;
    assert_eq!(decode_trade(&trade_bytes(&sold)), Some(sold));
}

#[test]
fn trade_rejects_malformed_bodies() {
    let body = trade_bytes(&trade());
    assert_eq!(decode_trade(&body[..216]), None);
    let mut longer = body.clone();
    longer.push(0);
    assert_eq!(decode_trade(&longer), None);
    let mut flag = body.clone();
    flag[48] = 2;
    assert_eq!(decode_trade(&flag), None);
    assert_eq!(decode_trade(&[]), None);
    let data = text(&framed(&TRADE_EVENT_DISCRIMINATOR, &flag));
    assert_eq!(
        parse_event("sig", &data),
        Err(EventError::Malformed { record: RecordKind::TradeEvent })
    );
}

#[test]
fn create_round_trip() {
    let e = create();
    let body = create_bytes(&e);
    assert_eq!(decode_create(&body), Some(e.clone()));
    let data = text(&framed(&CREATE_EVENT_DISCRIMINATOR, &body));
    assert_eq!(parse_event("sig", &data), Ok(PumpFunEvent::Create(e.clone())));
    let mut empty = e;
    empty.name = String::new();
    empty.symbol = String::new();
    empty.uri = String::new();
    assert_eq!(decode_create(&create_bytes(&empty)), Some(empty));
}

#[test]
fn create_rejects_malformed_bodies() {
    let body = create_bytes(&create());
    assert_eq!(decode_create(&body[..body.len() - 1]), None);
    let mut longer = body.clone();
    longer.push(0);
    assert_eq!(decode_create(&longer), None);
    assert_eq!(decode_create(&[]), None);
    assert_eq!(decode_create(&[1, 0, 0]), None);
    assert_eq!(decode_create(&[5, 0, 0, 0, b'a']), None);
    let mut not_utf8 = body.clone();
    not_utf8[4] = 0xff;
    assert_eq!(decode_create(&not_utf8), None);
    let mut huge = body.clone();
    huge[3] = 0xff;
    assert_eq!(decode_create(&huge), None);
    let data = text(&framed(&CREATE_EVENT_DISCRIMINATOR, &not_utf8));
    assert_eq!(
        parse_event("sig", &data),
        Err(EventError::Malformed { record: RecordKind::CreateEvent })
    );
}

#[test]
fn complete_and_set_params_round_trip() {
    let done = CompleteEvent { user: sample(1), mint: sample(2), bonding_curve: sample(3), timestamp: 1_700_000_000 };
    let body = borsh::to_vec(&(done.user.to_bytes(), done.mint.to_bytes(), done.bonding_curve.to_bytes(), done.timestamp)).unwrap();
    assert_eq!(body.len(), 104);
    assert_eq!(decode_complete(&body), Some(done));
    assert_eq!(decode_complete(&body[1..]), None);
    let data = text(&framed(&COMPLETE_EVENT_DISCRIMINATOR, &body));
    assert_eq!(parse_event("sig", &data), Ok(PumpFunEvent::Complete(done)));
    let data = text(&framed(&COMPLETE_EVENT_DISCRIMINATOR, &body[1..]));
    assert_eq!(
        parse_event("sig", &data),
        Err(EventError::Malformed { record: RecordKind::CompleteEvent })
    );

    let set = SetParamsEvent {
        fee_recipient: sample(4),
        initial_virtual_token_reserves: 1,
        initial_virtual_sol_reserves: 1 << 63,
        initial_real_token_reserves: 3,
        token_total_supply: 0x0807060504030201,
        fee_basis_points: 100,
    };
    let body = borsh::to_vec(&(
        set.fee_recipient.to_bytes(),
        set.initial_virtual_token_reserves,
        set.initial_virtual_sol_reserves,
        set.initial_real_token_reserves,
        set.token_total_supply,
        set.fee_basis_points,
    ))
    .unwrap();
    assert_eq!(body.len(), 72);
    assert_eq!(decode_set_params(&body), Some(set));
    let data = text(&framed(&SET_PARAMS_EVENT_DISCRIMINATOR, &body));
    assert_eq!(parse_event("sig", &data), Ok(PumpFunEvent::SetParams(set)));
    let data = text(&framed(&SET_PARAMS_EVENT_DISCRIMINATOR, &[]));
    assert_eq!(
        parse_event("sig", &data),
        Err(EventError::Malformed { record: RecordKind::SetParamsEvent })
    );
}

#[test]
fn seven_bytes_are_too_short() {
    let bytes = framed(&TRADE_EVENT_DISCRIMINATOR, &trade_bytes(&trade()));
    let data = text(&bytes[..7]);
    assert_eq!(parse_event("sig", &data), Err(EventError::TooShort { data: data.clone() }));
    assert_eq!(parse_event("sig", ""), Err(EventError::TooShort { data: String::new() }));
    assert_eq!(
        decode_event("sig", "text", &bytes[..7]),
        Err(EventError::TooShort { data: "text".to_string() })
    );
}

#[test]
fn other_discriminators_are_unknown() {
    let mut bytes = framed(&TRADE_EVENT_DISCRIMINATOR, &trade_bytes(&trade()));
    bytes[0] ^= 0xff;
    let data = text(&bytes);
    assert_eq!(
        parse_event("5ig", &data),
        Err(EventError::Unknown { signature: "5ig".to_string(), data: data.clone() })
    );
    let data = text(&[0u8; 8]);
    assert_eq!(
        parse_event("5ig", &data),
        Err(EventError::Unknown { signature: "5ig".to_string(), data: data.clone() })
    );
}

#[test]
fn text_that_is_no_base64() {
    assert_eq!(
        parse_event("sig", "!!!!"),
        Err(EventError::Base64(Base64Error::InvalidByte(0, b'!')))
    );
    assert_eq!(
        parse_event("sig", "abcde"),
        Err(EventError::Base64(Base64Error::InvalidLength(5)))
    );
    assert_eq!(parse_event("sig", "ab"), Err(EventError::Base64(Base64Error::InvalidPadding)));
    assert_eq!(
        parse_event("sig", "ab=="),
        Err(EventError::Base64(Base64Error::InvalidLastSymbol(1, b'b')))
    );
}

#[test]
fn record_names() {
    assert_eq!(RecordKind::CreateEvent.name(), "CreateEvent");
    assert_eq!(RecordKind::TradeEvent.name(), "TradeEvent");
    assert_eq!(RecordKind::CompleteEvent.name(), "CompleteEvent");
    assert_eq!(RecordKind::SetParamsEvent.name(), "SetParamsEvent");
}
