//! A DNS-over-HTTPS responder with a denylist, and what keeps it supplied.
//!
//! The responder takes DNS queries that arrive over HTTP, answers the names
//! on a static denylist with NXDOMAIN, and turns the outcome of one upstream
//! lookup into a DNS response for every other name:
//!
//! - [`request`] takes the DNS message out of a GET or POST request,
//! - [`message`] holds DNS messages and the codec for their wire format,
//! - [`denylist`] holds the blocked names,
//! - [`resolver`] tells apart what a lookup can come to,
//! - [`synthesis`] builds the response message,
//! - [`binding`] leads a request through these steps to an HTTP response,
//! - [`laws`] states what holds of the whole.
//!
//! Beside it stand the two jobs that supply it: [`blocklist`] and [`package`]
//! make the denylist file and put it into the responder's code package, and
//! [`profile`] makes the device profile that points clients at the responder.
//! [`text`] holds what they need of strings.
//!
//! The library does no I/O. The lookup, the files and the network belong to
//! the program around it.

pub mod binding;
pub mod blocklist;
pub mod denylist;
pub mod error;
pub mod laws;
pub mod message;
pub mod package;
pub mod profile;
pub mod request;
pub mod resolver;
pub mod synthesis;
pub mod text;
