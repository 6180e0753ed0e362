//! A CardDAV client core: the multistatus response model, the discovery chain
//! that resolves an address-book collection, change detection by collection
//! tag, the synchronisation cycle built on them, and the record repository.
//! Beside it stand the few rules of a mail session and of the command line.
//!
//! The library never touches the network. A caller sends the requests this
//! crate describes and hands the response bodies back.
//!
//! A response body goes through three layers: `xml` cuts it into tokens,
//! `outline` checks that the tags nest and lays the tokens out as a flat
//! tree, and `multistatus` reads the entries from that tree, with the
//! payload shapes of `props`. `discovery` and `records` say what an operation
//! makes of the entries, `sync` drives a whole cycle.

pub mod compl;
pub mod date_parser;
pub mod discovery;
pub mod error;
pub mod mail;
pub mod multistatus;
pub mod outline;
pub mod props;
pub mod records;
pub mod repository;
pub mod request;
pub mod sync;
pub mod text;
pub mod xml;
