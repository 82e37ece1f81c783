//! One scrape, one poll.
//!
//! The caller performs the upstream HTTP GET and hands over what came back:
//! `None` when the request failed outright, otherwise the status code and
//! the raw body bytes.  `handle_scrape` makes every decision after that
//! point: a non-success status, a body that is not UTF-8, or a body that is
//! not a valid payload each fail the poll, leaving the gauges exactly as
//! they were and answering 503 with an empty body; a valid payload
//! overwrites all fourteen gauges and answers 200 with the freshly rendered
//! registry.

use crate::payload::{parse_payload, spec_parse, AirModel};
use crate::registry::{gauges_of, Registry};
use crate::render::spec_render;
use vstd::prelude::*;
use vstd::string::StringSliceAdditionalSpecFns;
use vstd::utf8::{decode_utf8, encode_utf8_decode_utf8, valid_utf8};

verus! {

/// The exporter's answer to one scrape.
pub struct ScrapeResponse {
    pub status: u16,
    pub body: String,
}

/// What one poll yields: `None` on any failure, otherwise the decoded
/// payload.  A status outside 200..=299 is a failure, as is a body that is
/// not UTF-8 or does not decode as the payload.
pub open spec fn spec_poll(up: Option<(u16, Seq<u8>)>) -> Option<AirModel> {
    match up {
        None => None,
        Some((status, body)) => if !(200 <= status && status <= 299) {
            None
        } else if !valid_utf8(body) {
            None
        } else {
            spec_parse(decode_utf8(body))
        },
    }
}

/// The mathematical value of what the upstream request returned.
pub open spec fn upstream_view(up: Option<(u16, Vec<u8>)>) -> Option<(u16, Seq<u8>)> {
    match up {
        None => None,
        Some((status, body)) => Some((status, body@)),
    }
}

/// Relies on core::str::from_utf8: it returns `Ok` exactly on a valid
/// UTF-8 encoding, and then the returned slice reads the same bytes as
/// characters.
#[verifier::external_body]
fn utf8_to_str(v: &[u8]) -> (r: Option<&str>)
    ensures
        r is Some <==> valid_utf8(v@),
        r matches Some(s) ==> s.spec_bytes() =~= v@,
{
    match core::str::from_utf8(v) {
        Ok(s) => Some(s),
        Err(_) => None,
    }
}

/// An empty 503 answer.
fn unavailable() -> (r: ScrapeResponse)
    ensures
        r.status == 503,
        r.body@ =~= Seq::<char>::empty(),
{
    ScrapeResponse { status: 503, body: String::new() }
}

/// Handles one scrape, given what the upstream poll request returned.
///
/// On failure the registry keeps every gauge value it had — the update is
/// all-or-nothing — and the answer is an empty 503.  On success every gauge
/// holds the new payload's value, whatever it held before, and the answer
/// is the rendered registry with status 200.
pub fn handle_scrape(reg: &mut Registry, upstream: Option<(u16, Vec<u8>)>) -> (r: ScrapeResponse)
    requires
        old(reg).wf(),
    ensures
        final(reg).wf(),
        spec_poll(upstream_view(upstream)) is None ==> r.status == 503 && r.body@
            =~= Seq::<char>::empty() && final(reg)@ == old(reg)@,
        spec_poll(upstream_view(upstream)) matches Some(m) ==> r.status == 200 && final(reg)@
            == gauges_of(m) && r.body@ == spec_render(gauges_of(m)),
{
    match upstream {
        None => unavailable(),
        Some((status, body)) => {
            if !(200 <= status && status <= 299) {
                return unavailable();
            }
            match utf8_to_str(body.as_slice()) {
                None => unavailable(),
                Some(text) => {
                    proof {
                        encode_utf8_decode_utf8(text@);
                        assert(decode_utf8(body@) == text@);
                    }
                    match parse_payload(text) {
                        None => unavailable(),
                        Some(d) => {
                            reg.update(d);
                            let rendered = reg.render();
                            ScrapeResponse { status: 200, body: rendered }
                        },
                    }
                },
            }
        },
    }
}

} // verus!
