//! Polls syndication feeds for torrents and hands what is new to a download
//! backend, once per item.
//!
//! The library decides and the caller acts. One pass over a feed is the state
//! machine of [`rss`]: the caller fetches, calls the backend, sleeps,
//! notifies and flushes as the machine asks, and reports back what happened. The set of
//! the fingerprints that were submitted before lives in [`store`]; which
//! items of a pass are submitted is settled in [`select`]; [`retry`] bounds
//! every call that goes over the network; [`run`] seeds the set from the
//! backend when it is new.
pub mod backend;
pub mod bencode;
pub mod config;
pub mod feed;
pub mod fetch;
pub mod markup;
pub mod note;
pub mod notification;
pub mod retry;
pub mod rss;
pub mod run;
pub mod scan;
pub mod select;
pub mod store;
pub mod text;
pub mod torrent;
