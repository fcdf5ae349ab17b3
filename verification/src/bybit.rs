//! The push-streamed venue: websocket message shapes and the update
//! processing that keeps its order book current. Keepalive is an
//! application-level ping/pong message pair.

pub mod process_orderbook_update;
pub mod ws_ping;
pub mod ws_pong;
pub mod ws_spot_orderbook;
pub mod ws_spot_subscribe;
pub mod ws_subscribe_response;
