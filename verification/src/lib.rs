//! The runtime kernel that the SMTP, IMAP and JMAP front-ends of a mail
//! server share: named-resource lookups on the configuration snapshot, the
//! authentication decisions, the OAuth bearer-token envelope and token
//! endpoint, the APPEND transaction, the delivery messages and the HTTP body
//! limiter. Every decision is a function on plain values with a proved
//! contract; the surrounding program performs the I/O.

pub mod leb128;
pub mod cipher;
pub mod envelope;
pub mod text;
pub mod snapshot;
pub mod token;
pub mod oauth;
pub mod status;
pub mod append;
pub mod auth;
pub mod delivery;
pub mod limiter;
