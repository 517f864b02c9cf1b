//! Price aggregation core of a price oracle: per-quote validation against a
//! rolling per-asset history, and a statistical consensus over one batch of
//! quotes. All quantities are fixed-point integers: prices in micro-units of
//! the quote currency, confidences and scores in parts per million.
pub mod account;
pub mod api;
mod clock;
pub mod consensus;
pub mod cycle;
pub mod history;
pub mod models;
pub mod stats;
pub mod symbols;
pub mod validator;
