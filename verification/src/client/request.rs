//! The requests of the catalog: the id of each message type, and the payload
//! that each request carries.
//!
//! A payload is a protobuf message. Its first field is the payload type, which
//! repeats the id of the frame; the fields that follow are listed, for each
//! request, in the order of their numbers.

use crate::codec::OutboundFrame;
use crate::wire::{
    bool_field, double_field, int32_field, int64_field, put_double_bits, put_int32, put_int64,
    put_string, repeated_int64_field, string_field, uint32_field, valid_tag,
};
use vstd::prelude::*;

verus! {

/// Authenticates the application.
pub const APPLICATION_AUTH_REQ: u16 = 2100;

/// Authorizes a trading account for the session.
pub const ACCOUNT_AUTH_REQ: u16 = 2102;

/// Places an order.
pub const NEW_ORDER_REQ: u16 = 2106;

/// Cancels a pending order.
pub const CANCEL_ORDER_REQ: u16 = 2108;

/// Closes a position, or a part of it.
pub const CLOSE_POSITION_REQ: u16 = 2111;

/// Asks for the assets of an account.
pub const ASSET_LIST_REQ: u16 = 2112;

/// Asks for the symbols of an account.
pub const SYMBOLS_LIST_REQ: u16 = 2114;

/// Asks for the trader's data of an account.
pub const TRADER_REQ: u16 = 2121;

/// Asks for the open positions and pending orders of an account.
pub const RECONCILE_REQ: u16 = 2124;

/// Subscribes to the spot prices of symbols.
pub const SUBSCRIBE_SPOTS_REQ: u16 = 2127;

/// Ends the spot prices of symbols.
pub const UNSUBSCRIBE_SPOTS_REQ: u16 = 2129;

/// Asks for the trend bars of a symbol.
pub const GET_TRENDBARS_REQ: u16 = 2137;

/// Asks for the ticks of a symbol.
pub const GET_TICKDATA_REQ: u16 = 2145;

/// Asks for the accounts that an access token gives access to.
pub const GET_ACCOUNTS_BY_ACCESS_TOKEN_REQ: u16 = 2149;

/// Asks for the asset classes of an account.
pub const ASSET_CLASS_LIST_REQ: u16 = 2153;

/// Asks for the symbol categories of an account.
pub const SYMBOL_CATEGORY_REQ: u16 = 2160;

/// Logs an account out.
pub const ACCOUNT_LOGOUT_REQ: u16 = 2162;

/// Trades the refresh token for new tokens.
pub const REFRESH_TOKEN_REQ: u16 = 2173;

/// Asks for the details of an order.
pub const ORDER_DETAILS_REQ: u16 = 2181;

/// Asks for the orders of a position.
pub const ORDER_LIST_BY_POSITION_ID_REQ: u16 = 2183;

/// Asks for the deals that offset a deal.
pub const DEAL_OFFSET_LIST_REQ: u16 = 2185;

/// Asks for the unrealized profit and loss of the open positions.
pub const GET_POSITION_UNREALIZED_PNL_REQ: u16 = 2187;

/// How an order is executed.
#[derive(Debug, Clone, Copy, PartialEq, Eq, Structural)]
pub enum ProtoOaOrderType {
    Market,
    Limit,
    Stop,
    StopLossTakeProfit,
    MarketRange,
    StopLimit,
}

/// The side of a trade.
#[derive(Debug, Clone, Copy, PartialEq, Eq, Structural)]
pub enum ProtoOaTradeSide {
    Buy,
    Sell,
}

/// The side of a quote.
#[derive(Debug, Clone, Copy, PartialEq, Eq, Structural)]
pub enum ProtoOaQuoteType {
    Bid,
    Ask,
}

impl ProtoOaOrderType {
    /// The number of the order type on the wire.
    pub open spec fn wire_code(self) -> i32 {
        match self {
            ProtoOaOrderType::Market => 1,
            ProtoOaOrderType::Limit => 2,
            ProtoOaOrderType::Stop => 3,
            ProtoOaOrderType::StopLossTakeProfit => 4,
            ProtoOaOrderType::MarketRange => 5,
            ProtoOaOrderType::StopLimit => 6,
        }
    }

    /// The number of the order type on the wire.
    pub fn code(self) -> (code: i32)
        ensures
            code == self.wire_code(),
    {
        match self {
            ProtoOaOrderType::Market => 1,
            ProtoOaOrderType::Limit => 2,
            ProtoOaOrderType::Stop => 3,
            ProtoOaOrderType::StopLossTakeProfit => 4,
            ProtoOaOrderType::MarketRange => 5,
            ProtoOaOrderType::StopLimit => 6,
        }
    }
}

impl ProtoOaTradeSide {
    /// The number of the side on the wire.
    pub open spec fn wire_code(self) -> i32 {
        match self {
            ProtoOaTradeSide::Buy => 1,
            ProtoOaTradeSide::Sell => 2,
        }
    }

    /// The number of the side on the wire.
    pub fn code(self) -> (code: i32)
        ensures
            code == self.wire_code(),
    {
        match self {
            ProtoOaTradeSide::Buy => 1,
            ProtoOaTradeSide::Sell => 2,
        }
    }
}

impl ProtoOaQuoteType {
    /// The number of the quote type on the wire.
    pub open spec fn wire_code(self) -> i32 {
        match self {
            ProtoOaQuoteType::Bid => 1,
            ProtoOaQuoteType::Ask => 2,
        }
    }

    /// The number of the quote type on the wire.
    pub fn code(self) -> (code: i32)
        ensures
            code == self.wire_code(),
    {
        match self {
            ProtoOaQuoteType::Bid => 1,
            ProtoOaQuoteType::Ask => 2,
        }
    }
}

/// The first field of every payload: the id of the message type.
pub open spec fn payload_type_field(id: u16) -> Seq<u8> {
    int32_field(1, id as i32)
}

/// An optional `int64` field: absent where there is no number.
pub open spec fn optional_int64_field(tag: u32, value: Option<i64>) -> Seq<u8> {
    match value {
        Some(number) => int64_field(tag, number),
        None => Seq::empty(),
    }
}

/// An optional `double` field, given the bits of the number: absent where
/// there is no number.
pub open spec fn optional_double_field(tag: u32, bits: Option<u64>) -> Seq<u8> {
    match bits {
        Some(number) => double_field(tag, number),
        None => Seq::empty(),
    }
}

/// The payload of a request that names a trading account and nothing else.
pub open spec fn account_payload(id: u16, account_id: i64) -> Seq<u8> {
    payload_type_field(id) + int64_field(2, account_id)
}

/// The payload of a request that names a trading account and one more
/// identifier: an order, a deal.
pub open spec fn account_item_payload(id: u16, account_id: i64, item_id: i64) -> Seq<u8> {
    account_payload(id, account_id) + int64_field(3, item_id)
}

/// The payload of a request that carries one token and nothing else.
pub open spec fn token_payload(id: u16, token: Seq<char>) -> Seq<u8> {
    payload_type_field(id) + string_field(2, token)
}

/// The payload of the request that authenticates the application: its client
/// id and its client secret.
pub open spec fn application_auth_payload(client_id: Seq<char>, client_secret: Seq<char>) -> Seq<
    u8,
> {
    payload_type_field(APPLICATION_AUTH_REQ) + string_field(2, client_id) + string_field(
        3,
        client_secret,
    )
}

/// The payload of the request that authorizes a trading account: the account
/// and the access token.
pub open spec fn account_auth_payload(account_id: i64, access_token: Seq<char>) -> Seq<u8> {
    account_payload(ACCOUNT_AUTH_REQ, account_id) + string_field(3, access_token)
}

/// The payload of the request for the symbols of an account: the account, and
/// whether archived symbols are wanted.
pub open spec fn symbols_list_payload(account_id: i64, include_archived_symbols: bool) -> Seq<u8> {
    account_payload(SYMBOLS_LIST_REQ, account_id) + bool_field(3, include_archived_symbols)
}

/// The payload of the request that ends spot prices: the account and the
/// symbols, one field for each.
pub open spec fn unsubscribe_spots_payload(account_id: i64, symbol_ids: Seq<i64>) -> Seq<u8> {
    account_payload(UNSUBSCRIBE_SPOTS_REQ, account_id) + repeated_int64_field(3, symbol_ids)
}

/// The payload of the request for spot prices: the account, the symbols, one
/// field for each, and whether the time of each price is wanted.
pub open spec fn subscribe_spots_payload(
    account_id: i64,
    symbol_ids: Seq<i64>,
    subscribe_to_spot_timestamp: bool,
) -> Seq<u8> {
    account_payload(SUBSCRIBE_SPOTS_REQ, account_id) + repeated_int64_field(3, symbol_ids)
        + bool_field(4, subscribe_to_spot_timestamp)
}

/// The payload of the request for ticks: the account, the symbol, the side of
/// the quote, and the two times where they are given.
pub open spec fn tick_data_payload(
    account_id: i64,
    symbol_id: i64,
    quote_type: ProtoOaQuoteType,
    from_timestamp: Option<i64>,
    to_timestamp: Option<i64>,
) -> Seq<u8> {
    account_payload(GET_TICKDATA_REQ, account_id) + int64_field(3, symbol_id) + int32_field(
        4,
        quote_type.wire_code(),
    ) + optional_int64_field(5, from_timestamp) + optional_int64_field(6, to_timestamp)
}

/// The payload of the request for trend bars: the account, the two times, the
/// period, the symbol and the largest count.
pub open spec fn trendbars_payload(
    account_id: i64,
    from_timestamp: i64,
    to_timestamp: i64,
    period: i32,
    symbol_id: i64,
    count: u32,
) -> Seq<u8> {
    account_payload(GET_TRENDBARS_REQ, account_id) + int64_field(3, from_timestamp) + int64_field(
        4,
        to_timestamp,
    ) + int32_field(5, period) + int64_field(6, symbol_id) + uint32_field(7, count)
}

/// The limit price of an order: the price of a limit order, and none for any
/// other type.
pub open spec fn limit_price_of(order_type: ProtoOaOrderType, price: Option<u64>) -> Option<u64> {
    match order_type {
        ProtoOaOrderType::Limit => price,
        _ => None,
    }
}

/// The stop price of an order: the price of a stop order, and none for any
/// other type.
pub open spec fn stop_price_of(order_type: ProtoOaOrderType, price: Option<u64>) -> Option<u64> {
    match order_type {
        ProtoOaOrderType::Stop => price,
        _ => None,
    }
}

/// The payload of the request for a new order: the account, the symbol, the
/// order type, the side, the volume, and the prices that the order has.
pub open spec fn new_order_payload(
    account_id: i64,
    symbol_id: i64,
    order_type: ProtoOaOrderType,
    trade_side: ProtoOaTradeSide,
    volume: i64,
    limit_price: Option<u64>,
    stop_price: Option<u64>,
) -> Seq<u8> {
    account_payload(NEW_ORDER_REQ, account_id) + int64_field(3, symbol_id) + int32_field(
        4,
        order_type.wire_code(),
    ) + int32_field(5, trade_side.wire_code()) + int64_field(6, volume) + optional_double_field(
        7,
        limit_price,
    ) + optional_double_field(8, stop_price)
}

/// The payload of the request that closes a position: the account, the
/// position and the volume to close.
pub open spec fn close_position_payload(account_id: i64, position_id: i64, volume: i64) -> Seq<u8> {
    account_item_payload(CLOSE_POSITION_REQ, account_id, position_id) + int64_field(4, volume)
}

/// The payload of the request for the orders of a position: the account, the
/// position and the two times.
pub open spec fn order_list_by_position_payload(
    account_id: i64,
    position_id: i64,
    from_timestamp: i64,
    to_timestamp: i64,
) -> Seq<u8> {
    account_item_payload(ORDER_LIST_BY_POSITION_ID_REQ, account_id, position_id) + int64_field(
        4,
        from_timestamp,
    ) + int64_field(5, to_timestamp)
}

/// Whether the payload of a frame opens with the id of the frame.
pub open spec fn declares_its_type(frame: OutboundFrame) -> bool {
    payload_type_field(frame.message_type_id).is_prefix_of(frame.payload_bytes@)
}

/// A payload that holds the payload type and nothing else yet.
pub(crate) fn begin_payload(id: u16) -> (payload: Vec<u8>)
    ensures
        payload@ == payload_type_field(id),
{
    let mut payload: Vec<u8> = Vec::new();
    put_int32(1, id as i32, &mut payload);
    payload
}

/// A payload that holds the payload type and the trading account.
pub(crate) fn begin_account_payload(id: u16, account_id: i64) -> (payload: Vec<u8>)
    ensures
        payload@ == account_payload(id, account_id),
{
    let mut payload = begin_payload(id);
    put_int64(2, account_id, &mut payload);
    payload
}

/// Appends an optional `int64` field: nothing where there is no number.
pub(crate) fn put_optional_int64(tag: u32, value: Option<i64>, payload: &mut Vec<u8>)
    requires
        valid_tag(tag),
    ensures
        final(payload)@ == old(payload)@ + optional_int64_field(tag, value),
{
    match value {
        Some(number) => {
            put_int64(tag, number, payload);
        },
        None => {},
    }
}

/// Appends an optional `double` field, given the bits of the number: nothing
/// where there is no number.
pub(crate) fn put_optional_double_bits(tag: u32, bits: Option<u64>, payload: &mut Vec<u8>)
    requires
        valid_tag(tag),
    ensures
        final(payload)@ == old(payload)@ + optional_double_field(tag, bits),
{
    match bits {
        Some(number) => {
            put_double_bits(tag, number, payload);
        },
        None => {},
    }
}

/// The frame of a request that names a trading account and nothing else.
pub fn account_request(id: u16, account_id: i64) -> (frame: OutboundFrame)
    ensures
        frame.message_type_id == id,
        frame.payload_bytes@ == account_payload(id, account_id),
        declares_its_type(frame),
{
    let payload = begin_account_payload(id, account_id);
    OutboundFrame { message_type_id: id, payload_bytes: payload }
}

/// The frame of a request that names a trading account and one more
/// identifier.
pub fn account_item_request(id: u16, account_id: i64, item_id: i64) -> (frame: OutboundFrame)
    ensures
        frame.message_type_id == id,
        frame.payload_bytes@ == account_item_payload(id, account_id, item_id),
        declares_its_type(frame),
{
    let mut payload = begin_account_payload(id, account_id);
    put_int64(3, item_id, &mut payload);
    OutboundFrame { message_type_id: id, payload_bytes: payload }
}

/// The frame of a request that carries one token and nothing else.
pub fn token_request(id: u16, token: &String) -> (frame: OutboundFrame)
    ensures
        frame.message_type_id == id,
        frame.payload_bytes@ == token_payload(id, token@),
        declares_its_type(frame),
{
    let mut payload = begin_payload(id);
    put_string(2, token, &mut payload);
    OutboundFrame { message_type_id: id, payload_bytes: payload }
}

} // verus!
