//! Acquisition engine for time-limited appointment slots: session cookies,
//! schedule decoding, slot selection, submission pacing, proxy rotation and
//! the QR login poller, each stated as a pure function with a contract.

pub mod adapters;
pub mod cookies;
pub mod engine;
pub mod errors;
pub mod export;
pub mod grabber;
pub mod headers;
pub mod json;
pub mod pages;
pub mod proxy;
pub mod qr_login;
pub mod schedule;
pub mod sort;
pub mod state;
pub mod submit;
pub mod text;
pub mod timing;
pub mod types;
