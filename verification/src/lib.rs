//! A verified exporter core for a single air-quality sensor.
//!
//! On every scrape the exporter polls the sensor once, decodes the JSON
//! payload into a fixed set of fourteen measurements, overwrites the gauge
//! registry with them, and renders the registry in the text exposition
//! format.  Any failure (no response, non-success status, malformed payload)
//! yields an empty 503 response and leaves the registry untouched.

pub mod num;
pub mod payload;
pub mod registry;
pub mod render;
pub mod scrape;

use vstd::prelude::*;

verus! {

/// Spec-level character class for ASCII decimal digits.
pub open spec fn is_digit(c: char) -> bool {
    48 <= c as u32 && c as u32 <= 57
}

} // verus!
