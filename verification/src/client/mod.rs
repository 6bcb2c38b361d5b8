//! The client: a session and the requests that it builds.
//!
//! Each request is built as a frame, ready for the socket. Writing it is for
//! the program, which holds the write half and lets one writer at a time put
//! one whole frame on it.

pub mod auth;
pub mod connector;
pub mod endpoint;
pub mod receiver;
pub mod request;
pub mod sender;

use crate::client::connector::ConnectionState;
use crate::client::endpoint::{endpoint_url, Encoding, Endpoints};
use crate::client::request::{
    account_auth_payload, account_item_payload, account_item_request, account_payload,
    account_request, application_auth_payload, begin_account_payload, begin_payload,
    close_position_payload, declares_its_type, limit_price_of, new_order_payload,
    order_list_by_position_payload, put_optional_double_bits, put_optional_int64,
    stop_price_of, subscribe_spots_payload, symbols_list_payload, tick_data_payload,
    token_payload, token_request, trendbars_payload, unsubscribe_spots_payload,
    ProtoOaOrderType, ProtoOaQuoteType, ProtoOaTradeSide, ACCOUNT_AUTH_REQ,
    ACCOUNT_LOGOUT_REQ, APPLICATION_AUTH_REQ, ASSET_CLASS_LIST_REQ, ASSET_LIST_REQ,
    CANCEL_ORDER_REQ, CLOSE_POSITION_REQ, DEAL_OFFSET_LIST_REQ,
    GET_ACCOUNTS_BY_ACCESS_TOKEN_REQ, GET_POSITION_UNREALIZED_PNL_REQ, GET_TICKDATA_REQ,
    GET_TRENDBARS_REQ, NEW_ORDER_REQ, ORDER_DETAILS_REQ, ORDER_LIST_BY_POSITION_ID_REQ,
    RECONCILE_REQ, REFRESH_TOKEN_REQ, SUBSCRIBE_SPOTS_REQ, SYMBOLS_LIST_REQ,
    SYMBOL_CATEGORY_REQ, TRADER_REQ, UNSUBSCRIBE_SPOTS_REQ,
};
use crate::codec::OutboundFrame;
use crate::types::{Auth, CTraderClient};
use crate::wire::{put_bool, put_int32, put_int64, put_repeated_int64, put_string, put_uint32};
use vstd::prelude::*;

verus! {

impl CTraderClient {
    /// A session for the demo or the live deployment, with the credentials of
    /// the application. The session is not connected yet: the program opens
    /// the transport at `endpoint` and tells `connection` how each attempt
    /// ended.
    pub fn new(
        is_demo: bool,
        app_client_id: String,
        app_access_token: String,
        app_client_secret: String,
        app_redirect_url: String,
        refresh_token: String,
    ) -> (client: CTraderClient)
        ensures
            client.auth.ctrader_client_id == app_client_id,
            client.auth.ctrader_access_token == app_access_token,
            client.auth.ctrader_client_secret == app_client_secret,
            client.auth.ctrader_redirect_url == app_redirect_url,
            client.auth.ctrader_refresh_token == refresh_token,
            client.endpoint@ == endpoint_url(is_demo, Encoding::Protobuf),
            client.connection == ConnectionState::Connecting,
    {
        let endpoint = Endpoints::resolve(is_demo, Encoding::Protobuf);
        let auth = Auth::new(
            app_client_id,
            app_access_token,
            app_client_secret,
            app_redirect_url,
            refresh_token,
        );
        CTraderClient { auth, endpoint, connection: ConnectionState::new() }
    }

    /// A limit order: a new order of the limit type at `price_bits`, the bits
    /// of the price as a double.
    pub fn send_new_limit_order(
        &self,
        account_id: i64,
        symbol_id: i64,
        trade_side: ProtoOaTradeSide,
        volume: i64,
        price_bits: u64,
    ) -> (frame: OutboundFrame)
        ensures
            frame.message_type_id == NEW_ORDER_REQ,
            frame.payload_bytes@ == new_order_payload(
                account_id,
                symbol_id,
                ProtoOaOrderType::Limit,
                trade_side,
                volume,
                Some(price_bits),
                None,
            ),
            declares_its_type(frame),
    {
        self.send_new_order_request(
            account_id,
            symbol_id,
            ProtoOaOrderType::Limit,
            trade_side,
            volume,
            Some(price_bits),
        )
    }

    /// A market order: a new order of the market type, without a price.
    pub fn send_new_market_order(
        &self,
        account_id: i64,
        symbol_id: i64,
        trade_side: ProtoOaTradeSide,
        volume: i64,
    ) -> (frame: OutboundFrame)
        ensures
            frame.message_type_id == NEW_ORDER_REQ,
            frame.payload_bytes@ == new_order_payload(
                account_id,
                symbol_id,
                ProtoOaOrderType::Market,
                trade_side,
                volume,
                None,
                None,
            ),
            declares_its_type(frame),
    {
        self.send_new_order_request(
            account_id,
            symbol_id,
            ProtoOaOrderType::Market,
            trade_side,
            volume,
            None,
        )
    }

    /// A stop order: a new order of the stop type at `price_bits`, the bits of
    /// the price as a double.
    pub fn send_new_stop_order(
        &self,
        account_id: i64,
        symbol_id: i64,
        trade_side: ProtoOaTradeSide,
        volume: i64,
        price_bits: u64,
    ) -> (frame: OutboundFrame)
        ensures
            frame.message_type_id == NEW_ORDER_REQ,
            frame.payload_bytes@ == new_order_payload(
                account_id,
                symbol_id,
                ProtoOaOrderType::Stop,
                trade_side,
                volume,
                None,
                Some(price_bits),
            ),
            declares_its_type(frame),
    {
        self.send_new_order_request(
            account_id,
            symbol_id,
            ProtoOaOrderType::Stop,
            trade_side,
            volume,
            Some(price_bits),
        )
    }

    /// The request for new tokens, which carries the refresh token of the
    /// session. The answer does not change the credentials of the session.
    pub fn send_refresh_token_request(&self) -> (frame: OutboundFrame)
        ensures
            frame.message_type_id == REFRESH_TOKEN_REQ,
            frame.payload_bytes@ == token_payload(
                REFRESH_TOKEN_REQ,
                self.auth.ctrader_refresh_token@,
            ),
            declares_its_type(frame),
    {
        token_request(REFRESH_TOKEN_REQ, &self.auth.ctrader_refresh_token)
    }

    /// The request that authenticates the application, which carries its
    /// client id and its client secret. It goes first, before any request that
    /// names an account. That the frame was written means that authentication
    /// was asked for, not that it was granted.
    pub fn send_application_auth_request(&mut self) -> (frame: OutboundFrame)
        ensures
            *final(self) == *old(self),
            frame.message_type_id == APPLICATION_AUTH_REQ,
            frame.payload_bytes@ == application_auth_payload(
                old(self).auth.ctrader_client_id@,
                old(self).auth.ctrader_client_secret@,
            ),
            declares_its_type(frame),
    {
        let mut payload = begin_payload(APPLICATION_AUTH_REQ);
        put_string(2, &self.auth.ctrader_client_id, &mut payload);
        put_string(3, &self.auth.ctrader_client_secret, &mut payload);
        OutboundFrame { message_type_id: APPLICATION_AUTH_REQ, payload_bytes: payload }
    }

    /// The request that makes `account_id` the account of the requests that
    /// follow, which carries the access token of the session.
    pub fn send_set_account_request(&mut self, account_id: i64) -> (frame: OutboundFrame)
        ensures
            *final(self) == *old(self),
            frame.message_type_id == ACCOUNT_AUTH_REQ,
            frame.payload_bytes@ == account_auth_payload(
                account_id,
                old(self).auth.ctrader_access_token@,
            ),
            declares_its_type(frame),
    {
        let mut payload = begin_account_payload(ACCOUNT_AUTH_REQ, account_id);
        put_string(3, &self.auth.ctrader_access_token, &mut payload);
        OutboundFrame { message_type_id: ACCOUNT_AUTH_REQ, payload_bytes: payload }
    }

    /// The request for the accounts that the access token of the session
    /// gives access to.
    pub fn send_get_account_list_by_access_token_request(&self) -> (frame: OutboundFrame)
        ensures
            frame.message_type_id == GET_ACCOUNTS_BY_ACCESS_TOKEN_REQ,
            frame.payload_bytes@ == token_payload(
                GET_ACCOUNTS_BY_ACCESS_TOKEN_REQ,
                self.auth.ctrader_access_token@,
            ),
            declares_its_type(frame),
    {
        token_request(GET_ACCOUNTS_BY_ACCESS_TOKEN_REQ, &self.auth.ctrader_access_token)
    }

    /// The request that logs an account out.
    pub fn send_account_logout_request(&self, account_id: i64) -> (frame: OutboundFrame)
        ensures
            frame.message_type_id == ACCOUNT_LOGOUT_REQ,
            frame.payload_bytes@ == account_payload(ACCOUNT_LOGOUT_REQ, account_id),
            declares_its_type(frame),
    {
        account_request(ACCOUNT_LOGOUT_REQ, account_id)
    }

    /// The request for the assets of an account.
    pub fn send_asset_list_request(&self, account_id: i64) -> (frame: OutboundFrame)
        ensures
            frame.message_type_id == ASSET_LIST_REQ,
            frame.payload_bytes@ == account_payload(ASSET_LIST_REQ, account_id),
            declares_its_type(frame),
    {
        account_request(ASSET_LIST_REQ, account_id)
    }

    /// The request for the asset classes of an account.
    pub fn send_asset_class_list_request(&self, account_id: i64) -> (frame: OutboundFrame)
        ensures
            frame.message_type_id == ASSET_CLASS_LIST_REQ,
            frame.payload_bytes@ == account_payload(ASSET_CLASS_LIST_REQ, account_id),
            declares_its_type(frame),
    {
        account_request(ASSET_CLASS_LIST_REQ, account_id)
    }

    /// The request for the symbol categories of an account.
    pub fn send_symbol_category_list_request(&self, account_id: i64) -> (frame: OutboundFrame)
        ensures
            frame.message_type_id == SYMBOL_CATEGORY_REQ,
            frame.payload_bytes@ == account_payload(SYMBOL_CATEGORY_REQ, account_id),
            declares_its_type(frame),
    {
        account_request(SYMBOL_CATEGORY_REQ, account_id)
    }

    /// The request for the symbols of an account, with or without those that
    /// are archived.
    pub fn send_symbols_list_request(&self, account_id: i64, include_archived_symbols: bool) -> (frame:
        OutboundFrame)
        ensures
            frame.message_type_id == SYMBOLS_LIST_REQ,
            frame.payload_bytes@ == symbols_list_payload(account_id, include_archived_symbols),
            declares_its_type(frame),
    {
        let mut payload = begin_account_payload(SYMBOLS_LIST_REQ, account_id);
        put_bool(3, include_archived_symbols, &mut payload);
        OutboundFrame { message_type_id: SYMBOLS_LIST_REQ, payload_bytes: payload }
    }

    /// The request for the trader's data of an account.
    pub fn send_trader_request(&self, account_id: i64) -> (frame: OutboundFrame)
        ensures
            frame.message_type_id == TRADER_REQ,
            frame.payload_bytes@ == account_payload(TRADER_REQ, account_id),
            declares_its_type(frame),
    {
        account_request(TRADER_REQ, account_id)
    }

    /// The request that ends the spot prices of the symbols in `symbol_id`.
    pub fn send_unsubscribe_spots_request(&self, account_id: i64, symbol_id: Vec<i64>) -> (frame:
        OutboundFrame)
        ensures
            frame.message_type_id == UNSUBSCRIBE_SPOTS_REQ,
            frame.payload_bytes@ == unsubscribe_spots_payload(account_id, symbol_id@),
            declares_its_type(frame),
    {
        let mut payload = begin_account_payload(UNSUBSCRIBE_SPOTS_REQ, account_id);
        put_repeated_int64(3, &symbol_id, &mut payload);
        OutboundFrame { message_type_id: UNSUBSCRIBE_SPOTS_REQ, payload_bytes: payload }
    }

    /// The request for the spot prices of the symbols in `symbol_id`, with or
    /// without the time of each. `time_in_seconds` is not sent: the gateway
    /// has no field for it.
    pub fn send_subscribe_spots_request(
        &self,
        account_id: i64,
        symbol_id: Vec<i64>,
        time_in_seconds: usize,
        subscribe_to_spot_timestamp: bool,
    ) -> (frame: OutboundFrame)
        ensures
            frame.message_type_id == SUBSCRIBE_SPOTS_REQ,
            frame.payload_bytes@ == subscribe_spots_payload(
                account_id,
                symbol_id@,
                subscribe_to_spot_timestamp,
            ),
            declares_its_type(frame),
    {
        let mut payload = begin_account_payload(SUBSCRIBE_SPOTS_REQ, account_id);
        put_repeated_int64(3, &symbol_id, &mut payload);
        put_bool(4, subscribe_to_spot_timestamp, &mut payload);
        OutboundFrame { message_type_id: SUBSCRIBE_SPOTS_REQ, payload_bytes: payload }
    }

    /// The request for the ticks of a symbol, on the bid or the ask side,
    /// between two times where they are given. `days` is not sent: the
    /// gateway has no field for it.
    pub fn send_get_tick_data_request(
        &self,
        account_id: i64,
        days: i64,
        quote_type: ProtoOaQuoteType,
        symbol_id: i64,
        from_timestamp: Option<i64>,
        to_timestamp: Option<i64>,
    ) -> (frame: OutboundFrame)
        ensures
            frame.message_type_id == GET_TICKDATA_REQ,
            frame.payload_bytes@ == tick_data_payload(
                account_id,
                symbol_id,
                quote_type,
                from_timestamp,
                to_timestamp,
            ),
            declares_its_type(frame),
    {
        let mut payload = begin_account_payload(GET_TICKDATA_REQ, account_id);
        put_int64(3, symbol_id, &mut payload);
        put_int32(4, quote_type.code(), &mut payload);
        put_optional_int64(5, from_timestamp, &mut payload);
        put_optional_int64(6, to_timestamp, &mut payload);
        OutboundFrame { message_type_id: GET_TICKDATA_REQ, payload_bytes: payload }
    }

    /// The request for the trend bars of a symbol over a period, between two
    /// times, `count` of them at most.
    pub fn send_get_trendbars_request(
        &self,
        account_id: i64,
        period: i32,
        symbol_id: i64,
        count: u32,
        from_timestamp: i64,
        to_timestamp: i64,
    ) -> (frame: OutboundFrame)
        ensures
            frame.message_type_id == GET_TRENDBARS_REQ,
            frame.payload_bytes@ == trendbars_payload(
                account_id,
                from_timestamp,
                to_timestamp,
                period,
                symbol_id,
                count,
            ),
            declares_its_type(frame),
    {
        let mut payload = begin_account_payload(GET_TRENDBARS_REQ, account_id);
        put_int64(3, from_timestamp, &mut payload);
        put_int64(4, to_timestamp, &mut payload);
        put_int32(5, period, &mut payload);
        put_int64(6, symbol_id, &mut payload);
        put_uint32(7, count, &mut payload);
        OutboundFrame { message_type_id: GET_TRENDBARS_REQ, payload_bytes: payload }
    }

    /// The request for a new order. `price`, the bits of the price as a
    /// double, becomes the limit price of a limit order and the stop price of
    /// a stop order; an order of any other type carries no price.
    pub fn send_new_order_request(
        &self,
        account_id: i64,
        symbol_id: i64,
        order_type: ProtoOaOrderType,
        trade_side: ProtoOaTradeSide,
        volume: i64,
        price: Option<u64>,
    ) -> (frame: OutboundFrame)
        ensures
            frame.message_type_id == NEW_ORDER_REQ,
            frame.payload_bytes@ == new_order_payload(
                account_id,
                symbol_id,
                order_type,
                trade_side,
                volume,
                limit_price_of(order_type, price),
                stop_price_of(order_type, price),
            ),
            declares_its_type(frame),
    {
        let limit_price = match order_type {
            ProtoOaOrderType::Limit => price,
            _ => None,
        };
        let stop_price = match order_type {
            ProtoOaOrderType::Stop => price,
            _ => None,
        };
        let mut payload = begin_account_payload(NEW_ORDER_REQ, account_id);
        put_int64(3, symbol_id, &mut payload);
        put_int32(4, order_type.code(), &mut payload);
        put_int32(5, trade_side.code(), &mut payload);
        put_int64(6, volume, &mut payload);
        put_optional_double_bits(7, limit_price, &mut payload);
        put_optional_double_bits(8, stop_price, &mut payload);
        OutboundFrame { message_type_id: NEW_ORDER_REQ, payload_bytes: payload }
    }

    /// The request for the open positions and pending orders of an account.
    pub fn send_reconcile_request(&self, account_id: i64) -> (frame: OutboundFrame)
        ensures
            frame.message_type_id == RECONCILE_REQ,
            frame.payload_bytes@ == account_payload(RECONCILE_REQ, account_id),
            declares_its_type(frame),
    {
        account_request(RECONCILE_REQ, account_id)
    }

    /// The request that closes `volume` of a position.
    pub fn send_close_position_request(&self, account_id: i64, position_id: i64, volume: i64) -> (frame:
        OutboundFrame)
        ensures
            frame.message_type_id == CLOSE_POSITION_REQ,
            frame.payload_bytes@ == close_position_payload(account_id, position_id, volume),
            declares_its_type(frame),
    {
        let mut payload = begin_account_payload(CLOSE_POSITION_REQ, account_id);
        put_int64(3, position_id, &mut payload);
        put_int64(4, volume, &mut payload);
        OutboundFrame { message_type_id: CLOSE_POSITION_REQ, payload_bytes: payload }
    }

    /// The request that cancels a pending order.
    pub fn send_cancel_order_request(&self, account_id: i64, order_id: i64) -> (frame:
        OutboundFrame)
        ensures
            frame.message_type_id == CANCEL_ORDER_REQ,
            frame.payload_bytes@ == account_item_payload(CANCEL_ORDER_REQ, account_id, order_id),
            declares_its_type(frame),
    {
        account_item_request(CANCEL_ORDER_REQ, account_id, order_id)
    }

    /// The request for the deals that offset a deal.
    pub fn send_deal_offset_list_request(&self, account_id: i64, deal_id: i64) -> (frame:
        OutboundFrame)
        ensures
            frame.message_type_id == DEAL_OFFSET_LIST_REQ,
            frame.payload_bytes@ == account_item_payload(
                DEAL_OFFSET_LIST_REQ,
                account_id,
                deal_id,
            ),
            declares_its_type(frame),
    {
        account_item_request(DEAL_OFFSET_LIST_REQ, account_id, deal_id)
    }

    /// The request for the unrealized profit and loss of the open positions of
    /// an account.
    pub fn send_get_position_unrealized_pnl_equest(&self, account_id: i64) -> (frame:
        OutboundFrame)
        ensures
            frame.message_type_id == GET_POSITION_UNREALIZED_PNL_REQ,
            frame.payload_bytes@ == account_payload(GET_POSITION_UNREALIZED_PNL_REQ, account_id),
            declares_its_type(frame),
    {
        account_request(GET_POSITION_UNREALIZED_PNL_REQ, account_id)
    }

    /// The request for the details of an order.
    pub fn send_order_details_request(&self, account_id: i64, order_id: i64) -> (frame:
        OutboundFrame)
        ensures
            frame.message_type_id == ORDER_DETAILS_REQ,
            frame.payload_bytes@ == account_item_payload(ORDER_DETAILS_REQ, account_id, order_id),
            declares_its_type(frame),
    {
        account_item_request(ORDER_DETAILS_REQ, account_id, order_id)
    }

    /// The request for the orders of a position between two times.
    pub fn send_order_list_by_position_id_request(
        &self,
        account_id: i64,
        position_id: i64,
        from_timestamp: i64,
        to_timestamp: i64,
    ) -> (frame: OutboundFrame)
        ensures
            frame.message_type_id == ORDER_LIST_BY_POSITION_ID_REQ,
            frame.payload_bytes@ == order_list_by_position_payload(
                account_id,
                position_id,
                from_timestamp,
                to_timestamp,
            ),
            declares_its_type(frame),
    {
        let mut payload = begin_account_payload(ORDER_LIST_BY_POSITION_ID_REQ, account_id);
        put_int64(3, position_id, &mut payload);
        put_int64(4, from_timestamp, &mut payload);
        put_int64(5, to_timestamp, &mut payload);
        OutboundFrame { message_type_id: ORDER_LIST_BY_POSITION_ID_REQ, payload_bytes: payload }
    }
}

} // verus!
