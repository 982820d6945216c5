//! The parts of a hand-made HTTP fetch: a hardware address for a virtual
//! interface, a DNS lookup with its own query and reply handling, and the
//! state machine that takes one TCP socket through connect, request and
//! response.
//!
//! Nothing here touches a socket or a device. The caller owns them, reports
//! what happens on them, and is told what to do next:
//!
//! - [`ethernet`] makes the hardware address;
//! - [`locator`] reads the URL and says whether it can be fetched;
//! - [`dns`] prepares the query, passes over datagrams from strangers and
//!   reads the address out of the reply;
//! - [`http`] builds the request and decides, tick by tick, what the socket
//!   is to do;
//! - [`address`] holds IPv4 addresses and endpoints as plain values.
//!
//! Random values are drawn in one private module, `entropy`.

pub mod address;
pub mod dns;
mod entropy;
pub mod ethernet;
pub mod http;
pub mod locator;
