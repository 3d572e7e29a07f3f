//! Token generator and proxy-routed checker.
//!
//! The library holds the verified core: token generation, proxy-type
//! parsing and scheme mapping, request-URL construction, the proxy pool,
//! the admission gate, and the classification and recording of check
//! outcomes. Reading and writing files, the command line, and the HTTP
//! requests themselves live in the surrounding application.

pub mod check;
pub mod codes;
pub mod gate;
pub mod nitrous;
pub mod proxy;
pub mod strutil;
