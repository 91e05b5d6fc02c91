//! Argument conversions of the command line client.
use crate::bytes_buf::{bytes_from_string, bytes_view};
use crate::duration::millis_duration;
use crate::text::{int_error_cause, parse_u64, spec_parse_u64, u64_error_cause_fits};
use bytes::Bytes;
use core::num::ParseIntError;
use core::time::Duration;
use vstd::prelude::*;
use vstd::string::StringSliceAdditionalSpecFns;

verus! {

/// Reads an expiration given on the command line as a number of
/// milliseconds (`std`'s grammar for `u64`: an optional `+` and decimal
/// digits). On failure the error is std's, with the kind that its
/// documentation gives for the text.
pub fn duration_from_ms_str(src: &str) -> (r: Result<Duration, ParseIntError>)
    ensures
        r is Ok <==> spec_parse_u64(src@) is Some,
        r matches Ok(d) ==> spec_parse_u64(src@) matches Some(ms) && d == millis_duration(ms as nat),
        r matches Err(e) ==> u64_error_cause_fits(src@, int_error_cause(e)),
{
    let ms = parse_u64(src)?;
    Ok(Duration::from_millis(ms))
}

/// The bytes of a value or message given on the command line: its UTF-8
/// encoding.
pub fn bytes_from_str(src: &str) -> (r: Bytes)
    ensures
        bytes_view(r) == src.spec_bytes(),
{
    bytes_from_string(src.to_owned())
}

} // verus!
