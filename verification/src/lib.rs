//! Subscription state, download planning and on-disk bookkeeping for a
//! podcast client.

pub mod clock;
pub mod config;
pub mod feed;
pub mod library;
pub mod state;
pub mod storage;
pub mod text;
