//! Localhost tunnels through the Cloudflare edge, without a server of one's
//! own.
//!
//! A tunnel is a named Cloudflare Tunnel, a DNS record that points at it, and a
//! `cloudflared` process that carries the traffic. This library holds the rules:
//! which calls to make of the Cloudflare API and in what order, what to do when
//! one fails, when to restart, and what to give back at the end. It touches
//! neither the network nor the file system; a program around it does, and hands
//! the library what came back.
//!
//! - [`protocol`]: local protocols and DNS labels
//! - [`client`]: requests to the API, and what its replies mean
//! - [`builder`], [`plan`]: what a tunnel is to be
//! - [`conflicts`], [`bootstrap`]: clearing the way and setting a tunnel up
//! - [`session`], [`release`]: supervising it and giving it back
//! - [`handle`], [`live`]: what its owner holds, and the tunnel as a whole
//! - [`cleanup`]: removing what an interrupted run has left behind
//! - [`binary`], [`install`]: the `cloudflared` binary
//! - [`config`], [`cli`], [`commands`], [`tunnel`], [`ui`]: the command line tool
//! - [`listener`], [`event`], [`codes`]: what JavaScript sees
//! - [`error`], [`json`], [`text`]: errors, documents, strings

pub mod binary;
pub mod bootstrap;
pub mod builder;
pub mod cleanup;
pub mod cli;
pub mod client;
pub mod codes;
pub mod commands;
pub mod config;
pub mod conflicts;
pub mod error;
pub mod event;
pub mod handle;
pub mod install;
pub mod json;
pub mod listener;
pub mod live;
pub mod plan;
pub mod protocol;
pub mod release;
pub mod session;
pub mod text;
pub mod tunnel;
pub mod ui;
