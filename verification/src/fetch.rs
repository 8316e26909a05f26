//! Fetch-cycle outcome logic: HTTP status validation, body decoding, and
//! extraction of the single region the poller consumes.  The HTTP transfer
//! itself happens outside the library; this module is handed the status code
//! and the body text.

use vstd::prelude::*;
use vstd::string::StringExecFns;
use crate::decode::{decode_payload, envelope_matches};
use crate::errors::FetchError;
use crate::json::JsonValue;
use crate::types::{Data, Region};

verus! {

/// The upstream request URL for a postcode: the fixed path template with
/// the postcode embedded verbatim at its end.
pub open spec fn url_chars(postcode: Seq<char>) -> Seq<char> {
    "https://api.carbonintensity.org.uk/regional/postcode/"@ + postcode
}

/// Build the request URL for one region's poll cycle.
pub fn region_url(postcode: &str) -> (r: String)
    ensures
        r@ == url_chars(postcode@),
{
    let mut url = String::from_str("https://api.carbonintensity.org.uk/regional/postcode/");
    url.append(postcode);
    url
}

/// Successful (2xx) HTTP status codes.
pub open spec fn is_success_status(code: u16) -> bool {
    200 <= code < 300
}

/// Validate the HTTP status of a response: any non-2xx status fails the
/// cycle with exactly [`FetchError::HttpStatus`] carrying the code.
pub fn check_status(code: u16) -> (r: Result<(), FetchError>)
    ensures
        r is Ok <==> is_success_status(code),
        r is Err ==> r == Err::<(), FetchError>(FetchError::HttpStatus(code)),
{
    if 200 <= code && code < 300 {
        Ok(())
    } else {
        Err(FetchError::HttpStatus(code))
    }
}

/// Take the first region of a decoded envelope.  An empty region sequence is
/// a data-contract violation ([`FetchError::NoRegionData`]), not a normal
/// empty case.
pub fn first_region(envelope: Data<Region>) -> (r: Result<Region, FetchError>)
    ensures
        r is Err <==> envelope.data@.len() == 0,
        r is Err ==> r == Err::<Region, FetchError>(FetchError::NoRegionData),
        r matches Ok(reg) ==> envelope.data@.len() > 0 && reg == envelope.data@[0],
{
    let mut envelope = envelope;
    if envelope.data.len() == 0 {
        Err(FetchError::NoRegionData)
    } else {
        Ok(envelope.data.remove(0))
    }
}

/// Outcome of one fetch, given the response's status code and body text:
/// a non-2xx status fails with its code before any decoding; a body that
/// does not decode fails with the decode error; an empty envelope fails
/// with [`FetchError::NoRegionData`]; otherwise the first region of the
/// envelope is returned, well-formed.
pub fn fetch_outcome(status: u16, body: &str) -> (r: Result<Region, FetchError>)
    ensures
        !is_success_status(status) ==> r == Err::<Region, FetchError>(
            FetchError::HttpStatus(status),
        ),
        r matches Ok(reg) ==> is_success_status(status) && reg.wf()
            && exists|jv: JsonValue, d: Data<Region>|
                envelope_matches(jv, d) && d.data@.len() > 0 && reg == d.data@[0],
        r == Err::<Region, FetchError>(FetchError::NoRegionData)
            ==> exists|jv: JsonValue, d: Data<Region>|
                envelope_matches(jv, d) && d.data@.len() == 0,
        r matches Err(e) ==> (e == FetchError::HttpStatus(status) && !is_success_status(status))
            || (is_success_status(status) && (e matches FetchError::Decode(_)
                || e == FetchError::NoRegionData)),
{
    check_status(status)?;
    let envelope = match decode_payload(body) {
        Ok(d) => d,
        Err(e) => {
            return Err(FetchError::Decode(e));
        },
    };
    let ghost env0 = envelope;
    let ghost jv0 = choose|jv: JsonValue| envelope_matches(jv, env0);
    let r = first_region(envelope);
    proof {
        assert(envelope_matches(jv0, env0));
        if r is Ok {
            assert(env0.data@.len() > 0 && r->Ok_0 == env0.data@[0]);
        } else {
            assert(env0.data@.len() == 0);
        }
    }
    r
}

} // verus!
