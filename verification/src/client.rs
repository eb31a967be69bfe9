//! The API client: a stored base URL and the transport handles built from it.
//!
//! A client is a plain value holding one immutable string. Constructing it
//! does nothing else — no validation and no network I/O. Each request builds
//! its own transport handle, so no connection state lives in the client and
//! calls from different threads never share a handle.

use vstd::prelude::*;
use vstd::string::StringExecFns;

use crate::error::ApiError;

verus! {

#[verifier::external_type_specification]
#[verifier::external_body]
pub struct ExEasy(curl::easy::Easy);

#[verifier::external_type_specification]
#[verifier::external_body]
pub struct ExCurlError(curl::Error);

/// Whether a character sequence contains an interior NUL, the one content the
/// transport refuses in a request target.
pub open spec fn has_nul(s: Seq<char>) -> bool {
    exists|i: int| 0 <= i < s.len() && s[i] == '\0'
}

/// The request target a transport handle is configured with.
pub uninterp spec fn target_of(e: curl::easy::Easy) -> Seq<char>;

/// The POST payload a transport handle is configured with.
pub uninterp spec fn payload_of(e: curl::easy::Easy) -> Seq<u8>;

/// Relies on `curl::easy::Easy::new`: allocates a fresh transport handle with
/// default options; nothing is sent until the handle is driven.
pub assume_specification[ curl::easy::Easy::new ]() -> curl::easy::Easy;

/// Relies on `curl::easy::Easy::url`: stores the request target on the handle
/// without driving it. The target's syntax is checked only when the handle is
/// driven; the call itself fails exactly when the string holds an interior
/// NUL byte and so cannot be stored (allocation failure aside).
pub assume_specification[ curl::easy::Easy::url ](
    e: &mut curl::easy::Easy,
    url: &str,
) -> (r: Result<(), curl::Error>)
    ensures
        r is Ok <==> !has_nul(url@),
        r is Ok ==> target_of(*final(e)) == url@,
;

/// Relies on `curl::easy::Easy::post`: marks the handle's pending request as
/// a POST without driving it and without touching the stored target; setting
/// this flag cannot fail.
pub assume_specification[ curl::easy::Easy::post ](
    e: &mut curl::easy::Easy,
    enable: bool,
) -> (r: Result<(), curl::Error>)
    ensures
        r is Ok,
        target_of(*final(e)) == target_of(*old(e)),
;

/// Relies on `curl::easy::Easy::post_fields_copy`: copies the payload into
/// the handle, to be sent verbatim as the request body when the handle is
/// driven, leaving the stored target untouched; the caller's buffer need not
/// outlive this call, and the call fails only on allocation failure, left
/// aside here.
pub assume_specification[ curl::easy::Easy::post_fields_copy ](
    e: &mut curl::easy::Easy,
    data: &[u8],
) -> (r: Result<(), curl::Error>)
    ensures
        r is Ok,
        target_of(*final(e)) == target_of(*old(e)),
        payload_of(*final(e)) == data@,
;

/// Relies on the `Display` impl of `curl::Error`: renders the transport's
/// diagnostic message.
#[verifier::external_body]
fn curl_error_text(e: &curl::Error) -> String {
    format!("{}", e)
}

/// The request target for a path suffix: the base URL, a separating slash,
/// and the suffix, in that order and with nothing else.
pub open spec fn full_url(base: Seq<char>, addons: Seq<char>) -> Seq<char> {
    base + seq!['/'] + addons
}

/// A client for an Esplora HTTP API instance.
///
/// It holds the base URL verbatim and is immutable after construction; its
/// view is that URL as a character sequence.
pub struct EsploraAPI {
    base_url: String,
}

impl View for EsploraAPI {
    type V = Seq<char>;

    closed spec fn view(&self) -> Seq<char> {
        self.base_url@
    }
}

impl EsploraAPI {
    /// Create a new instance of the esplora API client.
    ///
    /// The URL is stored verbatim: nothing is validated, no network I/O is
    /// performed, and construction always succeeds. The result is fallible
    /// only so that callers can treat every client operation uniformly.
    pub fn new(url: &str) -> (r: Result<Self, ApiError>)
        ensures
            r matches Ok(c) && c@ == url@,
    {
        Ok(EsploraAPI { base_url: url.to_owned() })
    }

    /// The full request target for a path suffix: exactly the base URL, one
    /// separating slash, and the suffix.
    pub fn request_url(&self, addons: &str) -> (r: String)
        ensures
            r@ == full_url(self@, addons@),
    {
        let mut url = self.base_url.clone();
        url.append("/");
        url.append(addons);
        proof {
            reveal_strlit("/");
            assert(url@ =~= full_url(self@, addons@));
        }
        url
    }

    /// Build a transport handle targeting exactly `request_url(addons)` for a
    /// GET.
    ///
    /// The handle is only configured, never driven: no network I/O happens
    /// here. Building succeeds exactly when the target is storable (no
    /// interior NUL); a refused target is reported as a configuration error.
    pub fn client(&self, addons: &str) -> (r: Result<curl::easy::Easy, ApiError>)
        ensures
            r is Ok <==> !has_nul(full_url(self@, addons@)),
            r matches Ok(h) ==> target_of(h) == full_url(self@, addons@),
            r matches Err(e) ==> e is Config,
    {
        let url = self.request_url(addons);
        let mut easy = curl::easy::Easy::new();
        match easy.url(url.as_str()) {
            Ok(()) => Ok(easy),
            Err(e) => {
                let message = curl_error_text(&e);
                Err(ApiError::Config { message })
            },
        }
    }

    /// Build a transport handle targeting exactly `request_url(addons)` for a
    /// POST whose request body is exactly `body`.
    ///
    /// The payload is copied into the handle before this call returns, so the
    /// caller's buffer need not outlive it. The handle is only configured,
    /// never driven. Building succeeds exactly when the target is storable
    /// (no interior NUL); a refused target is reported as a configuration
    /// error.
    pub fn client_post(&self, addons: &str, body: &[u8]) -> (r: Result<curl::easy::Easy, ApiError>)
        ensures
            r is Ok <==> !has_nul(full_url(self@, addons@)),
            r matches Ok(h) ==> target_of(h) == full_url(self@, addons@) && payload_of(h)
                == body@,
            r matches Err(e) ==> e is Config,
    {
        let mut easy = match self.client(addons) {
            Ok(easy) => easy,
            Err(e) => {
                return Err(e);
            },
        };
        match easy.post(true) {
            Ok(()) => {},
            Err(e) => {
                let message = curl_error_text(&e);
                return Err(ApiError::Config { message });
            },
        }
        match easy.post_fields_copy(body) {
            Ok(()) => {},
            Err(e) => {
                let message = curl_error_text(&e);
                return Err(ApiError::Config { message });
            },
        }
        Ok(easy)
    }
}

} // verus!
