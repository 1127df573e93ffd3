//! Gate exchange API: REST dispatch decisions and WebSocket frame decoding.

pub mod api;
pub mod json;
pub mod order_book;
pub mod spot;
pub mod websocket;
