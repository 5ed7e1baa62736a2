//! Verified core of the autopush WebPush connection and endpoint servers.
pub mod app_state;
pub mod fcm;
pub mod handler;
pub mod protocol;
pub mod rc;
pub mod routers;
pub mod text;
pub mod tls;
pub mod uaid;
pub mod unidentified;
pub mod webpush_io;
pub mod ws_error;
