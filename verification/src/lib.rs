//! Threat-intelligence queries: the decisions, decoding and report text of a
//! client that asks a vulnerability database and a technique catalogue about
//! one adversary group.

pub mod endpoints;
pub mod error;
pub mod fetch;
pub mod json;
pub mod records;
pub mod report;
pub mod session;
