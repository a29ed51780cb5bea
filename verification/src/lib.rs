//! Client library for a university enrollment API: fetch a class roster by
//! term code and course registration number, then resolve each enrolled
//! person's Banner ID into their Duck ID.
//!
//! The library holds everything that computes: request-URL construction,
//! decoding of the two JSON response shapes, the fan-out ordering of the
//! identifier lookups, and the all-or-nothing collection of their results.
//! The binary around it does the HTTP calls and printing.

pub mod fanout;
pub mod json;
pub mod records;
pub mod urls;
