//! The core of a serial-to-TCP gateway.
//!
//! A gateway opens one serial device and any number of TCP clients, and
//! passes bytes between them unchanged: what the device sends goes to every
//! client, what a client sends goes to the device in the order sent.
//!
//! This crate holds what such a gateway decides and computes: the registry of
//! clients and its broadcast (`state`), the loops of the serial half (`link`)
//! and of each client (`conn`) as machines that are handed events and hand
//! out commands, the way of the bytes between them (`traffic`), the
//! supervisor's steps (`gateway`), the choice of the serial port (`serial`),
//! exit codes (`exit`), and what the displays show (`inspector`, `overview`,
//! `chat`, `ports`). The program around it reads, writes, sleeps and draws.

pub mod addr;
pub mod buffer;
pub mod chat;
pub mod cli;
pub mod conn;
pub mod counters;
pub mod exit;
pub mod gateway;
pub mod inspector;
pub mod link;
pub mod overview;
pub mod ports;
pub mod queue;
pub mod serial;
pub mod state;
pub mod text;
pub mod traffic;
