//! Verified core of a real-time candlestick chart: triple-buffered GPU
//! resource bookkeeping and the per-frame upload decisions, buffer capacity
//! policy, debug statistics, text formatting of figures, timestamp labels,
//! the live stream's connection state and loop decisions, and the chat
//! panel with its assistant session.

pub mod chat;
pub mod assistant;
pub mod binary64;
pub mod clock;
pub mod rendering;
pub mod screenshot;
pub mod text;
pub mod theme;
pub mod types;
pub mod websocket;
