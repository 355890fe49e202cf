//! Declarations of the `http` types (as re-exported by hyper) that the
//! rewriting logic works with, and the trusted calls into them.

use vstd::prelude::*;
use vstd::string::StringSliceAdditionalSpecFns;

use hyper::header::{HeaderMap, HeaderName, HeaderValue, InvalidHeaderValue, MaxSizeReached};
use hyper::http::uri::InvalidUri;
use hyper::Uri;

verus! {

#[verifier::external_type_specification]
#[verifier::external_body]
#[verifier::reject_recursive_types(T)]
pub struct ExHeaderMap<T>(HeaderMap<T>);

#[verifier::external_type_specification]
#[verifier::external_body]
pub struct ExHeaderName(HeaderName);

#[verifier::external_type_specification]
#[verifier::external_body]
pub struct ExHeaderValue(HeaderValue);

#[verifier::external_type_specification]
#[verifier::external_body]
pub struct ExInvalidHeaderValue(InvalidHeaderValue);

#[verifier::external_type_specification]
#[verifier::external_body]
pub struct ExMaxSizeReached(MaxSizeReached);

#[verifier::external_type_specification]
#[verifier::external_body]
pub struct ExUri(Uri);

#[verifier::external_type_specification]
#[verifier::external_body]
pub struct ExInvalidUri(InvalidUri);

/// What a header map holds: for each header name (its lower-case text), the
/// values stored under it, in order, as bytes.
pub uninterp spec fn header_entries(m: HeaderMap<HeaderValue>) -> Map<Seq<char>, Seq<Seq<u8>>>;

/// The lower-case text of a header name (`HeaderName::as_str`).
pub uninterp spec fn name_text(n: HeaderName) -> Seq<char>;

/// The bytes of a header value (`HeaderValue::as_bytes`).
pub uninterp spec fn value_bytes(v: HeaderValue) -> Seq<u8>;

/// Whether `Uri`'s parser accepts the text.
pub uninterp spec fn uri_accepts(s: Seq<char>) -> bool;

/// The text of a URI's authority, if it has one (`Uri::authority`, then
/// `Authority::as_str`).
pub uninterp spec fn uri_authority(u: Uri) -> Option<Seq<char>>;

/// The text of a URI's path and query, if it has them (`Uri::path_and_query`,
/// then `PathAndQuery::as_str`).
pub uninterp spec fn uri_path_and_query(u: Uri) -> Option<Seq<char>>;

/// Text of the form `https://<host><path>` where the host holds none of the
/// characters that end an authority (`/`, `?`, `#`), and the path is not
/// empty, starts with `/` and holds no fragment.
pub open spec fn https_form(s: Seq<char>, host: Seq<char>, path: Seq<char>) -> bool {
    &&& s == "https://"@ + host + path
    &&& forall|i: int|
        0 <= i < host.len() ==> #[trigger] host[i] != '/' && host[i] != '?' && host[i] != '#'
    &&& path.len() > 0
    &&& path[0] == '/'
    &&& forall|i: int| 0 <= i < path.len() ==> #[trigger] path[i] != '#'
}

/// A byte that may stand in a header value: visible ASCII, any byte above
/// 127, the space and the horizontal tab.
pub open spec fn valid_header_byte(b: u8) -> bool {
    (b >= 32 && b != 127) || b == 9
}

/// Text all of whose UTF-8 bytes may stand in a header value.
pub open spec fn valid_header_value(bytes: Seq<u8>) -> bool {
    forall|i: int| 0 <= i < bytes.len() ==> valid_header_byte(#[trigger] bytes[i])
}

/// Text that `HeaderName::from_static` takes without panicking: non-empty,
/// short enough, and made of lower-case letters, digits and dashes only.
pub open spec fn static_header_name(s: Seq<char>) -> bool {
    &&& 0 < s.len() <= 65535
    &&& forall|i: int|
        0 <= i < s.len() ==> {
            let c = #[trigger] s[i];
            ('a' <= c && c <= 'z') || ('0' <= c && c <= '9') || c == '-'
        }
}

/// Relies on `HeaderName::from_static`: a valid lower-case name is taken as
/// it is, and its text is the given string.
pub assume_specification[ HeaderName::from_static ](src: &'static str) -> (r: HeaderName)
    requires
        static_header_name(src@),
    ensures
        name_text(r) == src@,
;

/// Relies on `HeaderValue::from_str`: it fails exactly when some byte of the
/// text may not stand in a header value, and otherwise keeps the bytes.
#[verifier::external_body]
pub(crate) fn header_value(s: &str) -> (r: Result<HeaderValue, InvalidHeaderValue>)
    ensures
        r is Ok <==> valid_header_value(s.spec_bytes()),
        r matches Ok(v) ==> value_bytes(v) == s.spec_bytes(),
{
    HeaderValue::from_str(s)
}

/// Relies on `HeaderMap::try_insert`: on success every earlier value under
/// the name is replaced by the one given; on failure (the map is at its
/// largest size) nothing that the map holds has changed. Failure needs the
/// index table to grow past 32768 slots, which at the load-factor threshold
/// of 0.2 takes at least 6554 distinct names.
#[verifier::external_body]
pub(crate) fn insert_header(
    m: &mut HeaderMap<HeaderValue>,
    name: HeaderName,
    value: HeaderValue,
) -> (r: Result<(), MaxSizeReached>)
    ensures
        r is Ok ==> header_entries(*final(m)) == header_entries(*old(m)).insert(
            name_text(name),
            seq![value_bytes(value)],
        ),
        r is Err ==> header_entries(*final(m)) == header_entries(*old(m)),
        header_entries(*old(m)).dom().finite() ==> header_entries(*final(m)).dom().finite(),
        header_entries(*old(m)).dom().finite() && header_entries(*old(m)).dom().len() < 6554
            ==> r is Ok,
{
    m.try_insert(name, value).map(|_| ())
}

/// Relies on `Uri`'s `FromStr` impl: whether it succeeds depends on the text
/// alone. For `https://<host><path>` the authority ends at the first `/`, so
/// it is the host, and the path and query are the rest, kept as they are.
#[verifier::external_body]
pub(crate) fn parse_uri(s: &str) -> (r: Result<Uri, InvalidUri>)
    ensures
        r is Ok <==> uri_accepts(s@),
        forall|host: Seq<char>, path: Seq<char>|
            #[trigger] https_form(s@, host, path) && r is Ok ==> uri_authority(r->Ok_0) == Some(
                host,
            ) && uri_path_and_query(r->Ok_0) == Some(path),
{
    s.parse::<Uri>()
}

} // verus!
