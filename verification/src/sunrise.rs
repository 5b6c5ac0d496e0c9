use vstd::prelude::*;
use crate::instant::Instant;

verus! {

/// chrono's `ParseError`, carried as it comes; nothing is claimed of what it
/// holds.
#[verifier::external_type_specification]
#[verifier::external_body]
pub struct ExParseError(chrono::ParseError);

/// Why no sunrise instant could be had.
#[derive(Debug)]
pub enum SunriseError {
    /// The request did not complete, or its body could not be decoded.
    Request,
    /// The body was decoded, but its sunrise field is no timestamp.
    Parse(chrono::ParseError),
}

/// What chrono's parser for `DateTime<Utc>` makes of a text: the instant it
/// reads, or `None` where it rejects the text. Nothing is said here of which
/// texts it accepts; only that its verdict is a function of the text.
pub uninterp spec fn parsed_instant(text: Seq<char>) -> Option<Instant>;

/// The address to ask for the sunrise at the given coordinates, each given as
/// it is to be written; the last parameter asks for ISO-8601 timestamps.
pub open spec fn url_of(lat: Seq<char>, lng: Seq<char>) -> Seq<char> {
    "https://api.sunrise-sunset.org/json?lat="@ + lat + "&lng="@ + lng + "&formatted=0"@
}

/// Builds the request address for the given coordinates.
pub fn sunrise_url(lat_text: &str, lng_text: &str) -> (url: String)
    ensures
        url@ == url_of(lat_text@, lng_text@),
{
    let mut url = String::from_str("https://api.sunrise-sunset.org/json?lat=");
    url.append(lat_text);
    url.append("&lng=");
    url.append(lng_text);
    url.append("&formatted=0");
    url
}

/// Calls chrono's `FromStr` for `DateTime<Utc>` (relaxed RFC 3339) and hands
/// the result over as seconds and nanoseconds since the epoch, read with
/// `timestamp` and `timestamp_subsec_nanos`. Believed, not proved: the
/// parser's verdict depends on the text alone, so it is `parsed_instant` of it.
#[verifier::external_body]
fn parse_utc(text: &str) -> (parsed: Result<Instant, chrono::ParseError>)
    ensures
        parsed is Ok <==> parsed_instant(text@) is Some,
        parsed is Ok ==> parsed_instant(text@) == Some(parsed->Ok_0),
{
    match text.parse::<chrono::DateTime<chrono::Utc>>() {
        Ok(at) => Ok(Instant { secs: at.timestamp(), nanos: at.timestamp_subsec_nanos() }),
        Err(e) => Err(e),
    }
}

/// Turns the parser's verdict into the library's: the instant as it is, a
/// rejection as `SunriseError::Parse` around the parser's own error.
pub fn sunrise_from_parsed(parsed: Result<Instant, chrono::ParseError>) -> (sunrise: Result<
    Instant,
    SunriseError,
>)
    ensures
        parsed is Ok ==> sunrise == Ok::<Instant, SunriseError>(parsed->Ok_0),
        parsed is Err ==> sunrise == Err::<Instant, SunriseError>(
            SunriseError::Parse(parsed->Err_0),
        ),
{
    match parsed {
        Ok(at) => Ok(at),
        Err(e) => Err(SunriseError::Parse(e)),
    }
}

/// Reads the sunrise field of a decoded response.
pub fn parse_sunrise(text: &str) -> (sunrise: Result<Instant, SunriseError>)
    ensures
        match parsed_instant(text@) {
            Some(at) => sunrise == Ok::<Instant, SunriseError>(at),
            None => sunrise is Err && sunrise->Err_0 is Parse,
        },
{
    sunrise_from_parsed(parse_utc(text))
}

/// Resolves the sunrise from what the request brought: `None` where the
/// request failed or its body could not be decoded, else the sunrise field.
pub fn resolve_sunrise(response: Option<&str>) -> (sunrise: Result<Instant, SunriseError>)
    ensures
        response is None ==> sunrise is Err && sunrise->Err_0 is Request,
        response is Some ==> match parsed_instant(response->Some_0@) {
            Some(at) => sunrise == Ok::<Instant, SunriseError>(at),
            None => sunrise is Err && sunrise->Err_0 is Parse,
        },
{
    match response {
        None => Err(SunriseError::Request),
        Some(text) => parse_sunrise(text),
    }
}

} // verus!
