//! Turning a request received from the developer into one for the preview
//! backend: the backend URL, the `host` header and the session header.

use vstd::prelude::*;
use vstd::string::{StringExecFns, StringSliceAdditionalSpecFns};

use hyper::header::{HeaderMap, HeaderName, HeaderValue};
use hyper::http::uri::InvalidUri;
use hyper::Uri;

use crate::http_model::{
    header_entries, header_value, https_form, insert_header, parse_uri, static_header_name,
    uri_accepts, uri_authority, uri_path_and_query, valid_header_value,
};

verus! {

/// The host of the preview backend that every request is sent to.
pub const PREVIEW_HOST: &'static str = "rawhttp.cloudflareworkers.com";

/// The header that carries the preview session id to the backend.
pub const SESSION_HEADER: &'static str = "cf-ew-preview";

/// The header that names the host a request is meant for.
pub const HOST_HEADER: &'static str = "host";

/// Why a request could not be rewritten for the backend.
#[derive(Clone, Copy, Debug, PartialEq, Eq)]
pub enum RewriteError {
    /// The session id holds a byte that may not stand in a header value.
    InvalidSessionId,
    /// The backend URL built from the path is not a valid URI.
    InvalidUri,
    /// The request's header map is at its largest size.
    TooManyHeaders,
}

/// The backend URL for a request path: the fixed scheme and host, then the
/// path and query exactly as received.
pub open spec fn preview_url(path: Seq<char>) -> Seq<char> {
    "https://"@ + PREVIEW_HOST@ + path
}

/// A request path as a server receives it: it starts with `/`, and holds the
/// query if there is one but never a fragment.
pub open spec fn request_path(path: Seq<char>) -> bool {
    &&& path.len() > 0
    &&& path[0] == '/'
    &&& forall|i: int| 0 <= i < path.len() ==> #[trigger] path[i] != '#'
}

/// The headers after identity substitution: `host` names the backend, the
/// session header carries the session id, every other header is kept.
pub open spec fn substituted(
    headers: Map<Seq<char>, Seq<Seq<u8>>>,
    session_id: Seq<u8>,
) -> Map<Seq<char>, Seq<Seq<u8>>> {
    headers.insert(HOST_HEADER@, seq![PREVIEW_HOST.spec_bytes()]).insert(
        SESSION_HEADER@,
        seq![session_id],
    )
}

/// Builds the text of the backend URL for a request path.
pub fn preview_url_text(path: &str) -> (r: String)
    ensures
        r@ == preview_url(path@),
{
    let mut url = String::from_str("https://");
    url.append(PREVIEW_HOST);
    url.append(path);
    url
}

/// The backend URI for a request path.
pub fn get_preview_url(path: &str) -> (r: Result<Uri, InvalidUri>)
    ensures
        r is Ok <==> uri_accepts(preview_url(path@)),
        r is Ok && request_path(path@) ==> uri_authority(r->Ok_0) == Some(PREVIEW_HOST@)
            && uri_path_and_query(r->Ok_0) == Some(path@),
{
    let url = preview_url_text(path);
    proof {
        if request_path(path@) {
            lemma_backend_url_form(path@);
        }
    }
    parse_uri(url.as_str())
}

proof fn lemma_backend_url_form(path: Seq<char>)
    requires
        request_path(path),
    ensures
        https_form(preview_url(path), PREVIEW_HOST@, path),
{
    reveal_strlit("rawhttp.cloudflareworkers.com");
}

/// Rewrites a request received from the developer for the preview backend.
///
/// The `host` header is set to the backend host and the session header to
/// `preview_id`, each replacing whatever was there; every other header is
/// kept. The returned URI is the backend URL for `path`. The session id and
/// the URL are checked before any header is touched, so on those errors the
/// headers are as they were. The returned URI's authority is the backend
/// host and its path and query are `path`, exactly. The rewrite fails for
/// lack of room only on a map that already holds thousands of names.
pub fn preview_request_parts(
    headers: &mut HeaderMap<HeaderValue>,
    path: &str,
    preview_id: &str,
) -> (r: Result<Uri, RewriteError>)
    ensures
        !valid_header_value(preview_id.spec_bytes()) ==> r == Err::<Uri, RewriteError>(
            RewriteError::InvalidSessionId,
        ),
        valid_header_value(preview_id.spec_bytes()) && !uri_accepts(preview_url(path@)) ==> r
            == Err::<Uri, RewriteError>(RewriteError::InvalidUri),
        r matches Err(e) && e != RewriteError::TooManyHeaders ==> header_entries(*final(headers))
            == header_entries(*old(headers)),
        r is Ok ==> header_entries(*final(headers)) == substituted(
            header_entries(*old(headers)),
            preview_id.spec_bytes(),
        ),
        r == Err::<Uri, RewriteError>(RewriteError::TooManyHeaders) ==> valid_header_value(
            preview_id.spec_bytes(),
        ) && uri_accepts(preview_url(path@)) && (header_entries(*final(headers))
            == header_entries(*old(headers)) || header_entries(*final(headers)) == header_entries(
            *old(headers),
        ).insert(HOST_HEADER@, seq![PREVIEW_HOST.spec_bytes()])),
        valid_header_value(preview_id.spec_bytes()) && uri_accepts(preview_url(path@))
            && header_entries(*old(headers)).dom().finite() && header_entries(
            *old(headers),
        ).dom().len() < 6553 ==> r is Ok,
        r is Ok && request_path(path@) ==> uri_authority(r->Ok_0) == Some(PREVIEW_HOST@)
            && uri_path_and_query(r->Ok_0) == Some(path@),
{
    let session = match header_value(preview_id) {
        Ok(v) => v,
        Err(_) => {
            return Err(RewriteError::InvalidSessionId);
        },
    };
    let uri = match get_preview_url(path) {
        Ok(u) => u,
        Err(_) => {
            return Err(RewriteError::InvalidUri);
        },
    };
    proof {
        lemma_header_names();
        lemma_host_is_header_value();
    }
    let host = match header_value(PREVIEW_HOST) {
        Ok(v) => v,
        Err(_) => {
            proof {
                assert(false);
            }
            return Err(RewriteError::TooManyHeaders);
        },
    };
    if insert_header(headers, HeaderName::from_static(HOST_HEADER), host).is_err() {
        return Err(RewriteError::TooManyHeaders);
    }
    if insert_header(headers, HeaderName::from_static(SESSION_HEADER), session).is_err() {
        return Err(RewriteError::TooManyHeaders);
    }
    Ok(uri)
}

/// Identity substitution touches only the `host` and session headers: any
/// other header keeps exactly the values it had, and one that was absent
/// stays absent.
pub proof fn lemma_untargeted_headers_kept(
    headers: Map<Seq<char>, Seq<Seq<u8>>>,
    session_id: Seq<u8>,
    name: Seq<char>,
)
    requires
        name != HOST_HEADER@,
        name != SESSION_HEADER@,
    ensures
        substituted(headers, session_id).contains_key(name) == headers.contains_key(name),
        headers.contains_key(name) ==> substituted(headers, session_id)[name] == headers[name],
{
}

/// The session header sent to the backend holds exactly the session id that
/// was read for the request, as its only value, and `host` names the backend.
pub proof fn lemma_identity_headers(headers: Map<Seq<char>, Seq<Seq<u8>>>, session_id: Seq<u8>)
    ensures
        substituted(headers, session_id)[SESSION_HEADER@] == seq![session_id],
        substituted(headers, session_id)[HOST_HEADER@] == seq![PREVIEW_HOST.spec_bytes()],
{
    reveal_strlit("host");
    reveal_strlit("cf-ew-preview");
    assert(HOST_HEADER@ != SESSION_HEADER@) by {
        assert(HOST_HEADER@.len() != SESSION_HEADER@.len());
    }
}

proof fn lemma_header_names()
    ensures
        static_header_name(HOST_HEADER@),
        static_header_name(SESSION_HEADER@),
{
    reveal_strlit("host");
    reveal_strlit("cf-ew-preview");
}

proof fn lemma_host_is_header_value()
    ensures
        valid_header_value(PREVIEW_HOST.spec_bytes()),
{
    broadcast use vstd::string::is_ascii_spec_bytes;
    reveal_strlit("rawhttp.cloudflareworkers.com");
    assert(vstd::string::is_ascii(PREVIEW_HOST));
}

} // verus!
