//! Laws of the event decoder.

use crate::common::codec::{
    bool_byte, i64_bits, lemma_i64_at_bytes, lemma_i64_piece, lemma_text_at_bytes,
    lemma_text_at_written, lemma_u64_at_bytes, lemma_u64_piece, text_at, text_bytes,
};
use crate::common::stream::{
    decoded_event, parse_complete, parse_create, parse_set_params, parse_trade,
    CompleteEventView, CreateEventView, DecodeFailure, PumpFunEventView, SetParamsEventView,
    TradeEventView,
    COMPLETE_EVENT_DISCRIMINATOR, CREATE_EVENT_DISCRIMINATOR, SET_PARAMS_EVENT_DISCRIMINATOR,
    TRADE_EVENT_DISCRIMINATOR,
};
use crate::encoding::le_bytes;
use vstd::prelude::*;

verus! {

/// The four discriminators differ from one another, so that no bytes are
/// read as two records.
pub proof fn lemma_discriminators_distinct()
    ensures
        CREATE_EVENT_DISCRIMINATOR@ != TRADE_EVENT_DISCRIMINATOR@,
        CREATE_EVENT_DISCRIMINATOR@ != COMPLETE_EVENT_DISCRIMINATOR@,
        CREATE_EVENT_DISCRIMINATOR@ != SET_PARAMS_EVENT_DISCRIMINATOR@,
        TRADE_EVENT_DISCRIMINATOR@ != COMPLETE_EVENT_DISCRIMINATOR@,
        TRADE_EVENT_DISCRIMINATOR@ != SET_PARAMS_EVENT_DISCRIMINATOR@,
        COMPLETE_EVENT_DISCRIMINATOR@ != SET_PARAMS_EVENT_DISCRIMINATOR@,
{
    assert(CREATE_EVENT_DISCRIMINATOR@[0] == 27);
    assert(TRADE_EVENT_DISCRIMINATOR@[0] == 189);
    assert(COMPLETE_EVENT_DISCRIMINATOR@[0] == 95);
    assert(SET_PARAMS_EVENT_DISCRIMINATOR@[0] == 223);
}

/// Fewer than eight bytes are too short to be an event.
pub proof fn lemma_short_bytes_are_too_short(bytes: Seq<u8>)
    requires
        bytes.len() < 8,
    ensures
        decoded_event(bytes) == Err::<PumpFunEventView, DecodeFailure>(DecodeFailure::TooShort),
{
}

/// Eight bytes or more that start with none of the four discriminators are
/// an unknown event.
pub proof fn lemma_other_discriminator_is_unknown(bytes: Seq<u8>)
    requires
        bytes.len() >= 8,
        bytes.subrange(0, 8) != CREATE_EVENT_DISCRIMINATOR@,
        bytes.subrange(0, 8) != TRADE_EVENT_DISCRIMINATOR@,
        bytes.subrange(0, 8) != COMPLETE_EVENT_DISCRIMINATOR@,
        bytes.subrange(0, 8) != SET_PARAMS_EVENT_DISCRIMINATOR@,
    ensures
        decoded_event(bytes) == Err::<PumpFunEventView, DecodeFailure>(DecodeFailure::Unknown),
{
}

/// The bytes of a trade are read back as that trade, field by field.
pub proof fn lemma_trade_round_trip(v: TradeEventView)
    requires
        v.wf(),
    ensures
        v.encoding().len() == 217,
        parse_trade(v.encoding()) == Some(v),
{
    lemma_u64_piece(v.sol_amount);
    lemma_u64_piece(v.token_amount);
    lemma_i64_piece(v.timestamp);
    lemma_u64_piece(v.virtual_sol_reserves);
    lemma_u64_piece(v.virtual_token_reserves);
    lemma_u64_piece(v.real_sol_reserves);
    lemma_u64_piece(v.real_token_reserves);
    lemma_u64_piece(v.fee_basis_points);
    lemma_u64_piece(v.fee);
    lemma_u64_piece(v.creator_fee_basis_points);
    lemma_u64_piece(v.creator_fee);
    let body: Seq<u8> = v.encoding();
    assert(body.len() == 217);
    assert(body.subrange(0, 32) =~= v.mint);
    assert(body.subrange(32, 40) =~= le_bytes(v.sol_amount as nat, 8));
    assert(body.subrange(40, 48) =~= le_bytes(v.token_amount as nat, 8));
    assert(body[48] == bool_byte(v.is_buy));
    assert(body.subrange(49, 81) =~= v.user);
    assert(body.subrange(81, 89) =~= le_bytes(i64_bits(v.timestamp), 8));
    assert(body.subrange(89, 97) =~= le_bytes(v.virtual_sol_reserves as nat, 8));
    assert(body.subrange(97, 105) =~= le_bytes(v.virtual_token_reserves as nat, 8));
    assert(body.subrange(105, 113) =~= le_bytes(v.real_sol_reserves as nat, 8));
    assert(body.subrange(113, 121) =~= le_bytes(v.real_token_reserves as nat, 8));
    assert(body.subrange(121, 153) =~= v.fee_recipient);
    assert(body.subrange(153, 161) =~= le_bytes(v.fee_basis_points as nat, 8));
    assert(body.subrange(161, 169) =~= le_bytes(v.fee as nat, 8));
    assert(body.subrange(169, 201) =~= v.creator);
    assert(body.subrange(201, 209) =~= le_bytes(v.creator_fee_basis_points as nat, 8));
    assert(body.subrange(209, 217) =~= le_bytes(v.creator_fee as nat, 8));
}

/// The discriminator of a trade followed by the bytes of a trade decodes to
/// that trade.
pub proof fn lemma_trade_event_round_trip(v: TradeEventView)
    requires
        v.wf(),
    ensures
        decoded_event(TRADE_EVENT_DISCRIMINATOR@ + v.encoding()) == Ok::<
            PumpFunEventView,
            DecodeFailure,
        >(PumpFunEventView::Trade(v)),
{
    lemma_trade_round_trip(v);
    lemma_discriminators_distinct();
    let bytes: Seq<u8> = TRADE_EVENT_DISCRIMINATOR@ + v.encoding();
    assert(bytes.subrange(0, 8) =~= TRADE_EVENT_DISCRIMINATOR@);
    assert(bytes.subrange(8, bytes.len() as int) =~= v.encoding());
}

/// The bytes of a creation are read back as that creation.
pub proof fn lemma_create_round_trip(v: CreateEventView)
    requires
        v.wf(),
    ensures
        parse_create(v.encoding()) == Some(v),
{
    let name: Seq<u8> = text_bytes(v.name);
    let symbol: Seq<u8> = text_bytes(v.symbol);
    let uri: Seq<u8> = text_bytes(v.uri);
    let tail: Seq<u8> = v.tail();
    let body: Seq<u8> = v.encoding();
    lemma_text_at_written(Seq::empty(), v.name, symbol + uri + tail);
    assert(body =~= Seq::<u8>::empty() + name + (symbol + uri + tail));
    lemma_text_at_written(name, v.symbol, uri + tail);
    assert(body =~= name + symbol + (uri + tail));
    lemma_text_at_written(name + symbol, v.uri, tail);
    assert(body =~= name + symbol + uri + tail);
    let c: int = (name.len() + symbol.len() + uri.len()) as int;
    lemma_i64_piece(v.timestamp);
    lemma_u64_piece(v.virtual_sol_reserves);
    lemma_u64_piece(v.virtual_token_reserves);
    lemma_u64_piece(v.real_sol_reserves);
    lemma_u64_piece(v.real_token_reserves);
    assert(tail.len() == 168);
    assert(body.len() == c + 168);
    assert(body.subrange(c, c + 32) =~= v.mint);
    assert(body.subrange(c + 32, c + 64) =~= v.bonding_curve);
    assert(body.subrange(c + 64, c + 96) =~= v.user);
    assert(body.subrange(c + 96, c + 128) =~= v.creator);
    assert(body.subrange(c + 128, c + 136) =~= le_bytes(i64_bits(v.timestamp), 8));
    assert(body.subrange(c + 136, c + 144) =~= le_bytes(v.virtual_sol_reserves as nat, 8));
    assert(body.subrange(c + 144, c + 152) =~= le_bytes(v.virtual_token_reserves as nat, 8));
    assert(body.subrange(c + 152, c + 160) =~= le_bytes(v.real_sol_reserves as nat, 8));
    assert(body.subrange(c + 160, c + 168) =~= le_bytes(v.real_token_reserves as nat, 8));
}

/// A trade that was read from bytes has exactly those bytes.
pub proof fn lemma_trade_bytes(body: Seq<u8>)
    requires
        parse_trade(body) is Some,
    ensures
        parse_trade(body)->0.wf(),
        parse_trade(body)->0.encoding() == body,
{
    let v: TradeEventView = parse_trade(body)->0;
    lemma_u64_at_bytes(body, 32);
    lemma_u64_at_bytes(body, 40);
    lemma_i64_at_bytes(body, 81);
    lemma_u64_at_bytes(body, 89);
    lemma_u64_at_bytes(body, 97);
    lemma_u64_at_bytes(body, 105);
    lemma_u64_at_bytes(body, 113);
    lemma_u64_at_bytes(body, 153);
    lemma_u64_at_bytes(body, 161);
    lemma_u64_at_bytes(body, 201);
    lemma_u64_at_bytes(body, 209);
    assert(seq![bool_byte(v.is_buy)] =~= body.subrange(48, 49));
    assert(v.encoding() =~= body);
}

/// A completion that was read from bytes has exactly those bytes.
pub proof fn lemma_complete_bytes(body: Seq<u8>)
    requires
        parse_complete(body) is Some,
    ensures
        parse_complete(body)->0.wf(),
        parse_complete(body)->0.encoding() == body,
{
    lemma_i64_at_bytes(body, 96);
    assert(parse_complete(body)->0.encoding() =~= body);
}

/// A change of parameters that was read from bytes has exactly those bytes.
pub proof fn lemma_set_params_bytes(body: Seq<u8>)
    requires
        parse_set_params(body) is Some,
    ensures
        parse_set_params(body)->0.wf(),
        parse_set_params(body)->0.encoding() == body,
{
    lemma_u64_at_bytes(body, 32);
    lemma_u64_at_bytes(body, 40);
    lemma_u64_at_bytes(body, 48);
    lemma_u64_at_bytes(body, 56);
    lemma_u64_at_bytes(body, 64);
    assert(parse_set_params(body)->0.encoding() =~= body);
}

/// A creation that was read from bytes has exactly those bytes.
pub proof fn lemma_create_bytes(body: Seq<u8>)
    requires
        parse_create(body) is Some,
    ensures
        parse_create(body)->0.encoding() == body,
{
    let v: CreateEventView = parse_create(body)->0;
    lemma_text_at_bytes(body, 0);
    let first = text_at(body, 0)->0;
    let a: int = first.1;
    lemma_text_at_bytes(body, a);
    let second = text_at(body, a)->0;
    let b: int = second.1;
    lemma_text_at_bytes(body, b);
    let third = text_at(body, b)->0;
    let c: int = third.1;
    lemma_i64_at_bytes(body, c + 128);
    lemma_u64_at_bytes(body, c + 136);
    lemma_u64_at_bytes(body, c + 144);
    lemma_u64_at_bytes(body, c + 152);
    lemma_u64_at_bytes(body, c + 160);
    assert(v.tail() =~= body.subrange(c, c + 168));
    assert(v.encoding() =~= body.subrange(0, a) + body.subrange(a, b) + body.subrange(b, c)
        + body.subrange(c, c + 168));
    assert(v.encoding() =~= body);
}

/// The bytes of a completion are read back as that completion.
pub proof fn lemma_complete_round_trip(v: CompleteEventView)
    requires
        v.wf(),
    ensures
        v.encoding().len() == 104,
        parse_complete(v.encoding()) == Some(v),
{
    lemma_i64_piece(v.timestamp);
    let body: Seq<u8> = v.encoding();
    assert(body.subrange(0, 32) =~= v.user);
    assert(body.subrange(32, 64) =~= v.mint);
    assert(body.subrange(64, 96) =~= v.bonding_curve);
    assert(body.subrange(96, 104) =~= le_bytes(i64_bits(v.timestamp), 8));
}

/// The bytes of a change of parameters are read back as that change.
pub proof fn lemma_set_params_round_trip(v: SetParamsEventView)
    requires
        v.wf(),
    ensures
        v.encoding().len() == 72,
        parse_set_params(v.encoding()) == Some(v),
{
    lemma_u64_piece(v.initial_virtual_token_reserves);
    lemma_u64_piece(v.initial_virtual_sol_reserves);
    lemma_u64_piece(v.initial_real_token_reserves);
    lemma_u64_piece(v.token_total_supply);
    lemma_u64_piece(v.fee_basis_points);
    let body: Seq<u8> = v.encoding();
    assert(body.subrange(0, 32) =~= v.fee_recipient);
    assert(body.subrange(32, 40) =~= le_bytes(v.initial_virtual_token_reserves as nat, 8));
    assert(body.subrange(40, 48) =~= le_bytes(v.initial_virtual_sol_reserves as nat, 8));
    assert(body.subrange(48, 56) =~= le_bytes(v.initial_real_token_reserves as nat, 8));
    assert(body.subrange(56, 64) =~= le_bytes(v.token_total_supply as nat, 8));
    assert(body.subrange(64, 72) =~= le_bytes(v.fee_basis_points as nat, 8));
}

} // verus!
