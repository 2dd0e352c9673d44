//! Addresses of the Tachi API endpoints the hook uses.
use vstd::prelude::*;
use url::{ParseError, Url};

verus! {

/// `url::ParseError`, the reason a URL does not parse, held opaquely.
#[verifier::external_type_specification]
#[verifier::external_body]
pub struct ExUrlParseError(ParseError);

/// The serialization of `Url::join` of `path` onto the URL that `base`
/// parses as; `None` where either step fails. It depends on the two texts
/// alone; only `url_join` states anything of it.
pub uninterp spec fn joined_url(base: Seq<char>, path: Seq<char>) -> Option<Seq<char>>;

/// Calls `url::Url::join` on `base` parsed by `url::Url::parse` (the parse
/// only turns the text into the `Url` that `join` is a method of) and takes
/// the result's serialization; claims that it succeeds exactly where
/// `joined_url(base, path)` is some text, and then gives that text.
#[verifier::external_body]
fn url_join(base: &str, path: &str) -> (res: core::result::Result<String, ParseError>)
    ensures
        res is Ok <==> joined_url(base@, path@) is Some,
        res matches Ok(s) ==> joined_url(base@, path@) == Some(s@),
{
    Url::parse(base).and_then(|url| url.join(path)).map(String::from)
}

/// Path of Tachi's status endpoint.
pub open spec fn status_path() -> Seq<char> {
    "/api/v1/status"@
}

/// Path of Tachi's direct-manual import endpoint.
pub open spec fn import_path() -> Seq<char> {
    "/ir/direct-manual/import"@
}

/// Address of the status endpoint of the Tachi instance at `base_url`, or why
/// it cannot be formed.
pub fn tachi_status_url(base_url: &str) -> (res: core::result::Result<String, ParseError>)
    ensures
        res is Ok <==> joined_url(base_url@, status_path()) is Some,
        res matches Ok(s) ==> joined_url(base_url@, status_path()) == Some(s@),
{
    url_join(base_url, "/api/v1/status")
}

/// Address of the import endpoint of the Tachi instance at `base_url`, or why
/// it cannot be formed.
pub fn tachi_import_url(base_url: &str) -> (res: core::result::Result<String, ParseError>)
    ensures
        res is Ok <==> joined_url(base_url@, import_path()) is Some,
        res matches Ok(s) ==> joined_url(base_url@, import_path()) == Some(s@),
{
    url_join(base_url, "/ir/direct-manual/import")
}

} // verus!
