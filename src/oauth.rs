//! The token client: one device profile, the current bearer token, its
//! expiry, and the header mapping presented to the identity service.
use crate::calls::{
    base64_encoding, encode_base64, json_string_member, json_u64_member, read_json_string, read_json_u64,
};
use crate::device::{lemma_client_id_len, valid_profile, Device, DeviceView, AUTHORIZATION, LOID};
use crate::headers::Headers;
use vstd::prelude::*;
use vstd::utf8::encode_utf8;
use vstd::string::*;

verus! {

/// The method of every token request.
pub const TOKEN_METHOD: &'static str = "POST";

/// Where token requests are sent.
pub const TOKEN_URL: &'static str = "https://accounts.reddit.com/api/access_token";

/// The JSON body of every token request: the scopes asked for.
pub const SCOPES_BODY: &'static str = "{\"scopes\":[\"*\",\"email\",\"pii\"]}";

/// The body member that holds the granted token.
pub const ACCESS_TOKEN_FIELD: &'static str = "access_token";

/// The body member that holds the token's validity in seconds.
pub const EXPIRES_IN_FIELD: &'static str = "expires_in";

/// HTTP Basic credentials of client `id` with an empty password.
pub open spec fn basic_credentials(id: Seq<char>) -> Seq<char> {
    "Basic "@ + base64_encoding(encode_utf8(id + ":"@))
}

/// The `Authorization` value that presents `token`.
pub open spec fn bearer(token: Seq<char>) -> Seq<char> {
    "Bearer "@ + token
}

/// The headers of a token request made from stored headers `h` by client `id`:
/// a stored `Authorization` is never sent, Basic credentials take its place.
pub open spec fn request_headers(h: Map<Seq<char>, Seq<char>>, id: Seq<char>) -> Map<
    Seq<char>,
    Seq<char>,
> {
    h.remove(AUTHORIZATION@).insert(AUTHORIZATION@, basic_credentials(id))
}

/// The stored headers after a successful exchange that granted `token`, with
/// the device header `loid` echoed where the response carried one.
pub open spec fn granted_headers(
    h: Map<Seq<char>, Seq<char>>,
    loid: Option<Seq<char>>,
    token: Seq<char>,
) -> Map<Seq<char>, Seq<char>> {
    let echoed = match loid {
        Some(l) => h.insert(LOID@, l),
        None => h,
    };
    echoed.insert(AUTHORIZATION@, bearer(token))
}

/// The text that an optional string holds.
pub open spec fn text_of(o: Option<String>) -> Option<Seq<char>> {
    match o {
        Some(s) => Some(s@),
        None => None,
    }
}

/// A token request.
pub struct TokenRequest {
    pub method: String,
    pub url: String,
    pub headers: Headers,
    pub body: String,
}

/// The client's state: stored headers, token, validity and device profile.
pub ghost struct OauthView {
    pub headers: Map<Seq<char>, Seq<char>>,
    pub token: Seq<char>,
    pub expires_in: u64,
    pub device: DeviceView,
}

/// The stored `Authorization` header presents the stored token; before the
/// first successful exchange there is neither header nor token.
pub open spec fn token_consistent(o: OauthView) -> bool {
    if o.headers.contains_key(AUTHORIZATION@) {
        o.headers[AUTHORIZATION@] == bearer(o.token)
    } else {
        o.token.len() == 0
    }
}

/// The token client.
pub struct Oauth {
    headers_map: Headers,
    token: String,
    expires_in: u64,
    device: Device,
}

impl View for Oauth {
    type V = OauthView;

    closed spec fn view(&self) -> OauthView {
        OauthView {
            headers: self.headers_map@,
            token: self.token@,
            expires_in: self.expires_in,
            device: self.device@,
        }
    }
}

impl Oauth {
    pub closed spec fn parts_wf(&self) -> bool {
        self.headers_map.wf() && self.device.wf()
    }

    pub open spec fn wf(&self) -> bool {
        &&& self.parts_wf()
        &&& valid_profile(self@.device)
        &&& token_consistent(self@)
    }

    /// A client for `device` that holds no token yet.
    pub fn with_device(device: Device) -> (r: Oauth)
        requires
            device.wf(),
        ensures
            r.wf(),
            r@ == (OauthView {
                headers: device@.headers,
                token: Seq::empty(),
                expires_in: 0,
                device: device@,
            }),
    {
        let headers_map = device.headers().copy();
        Oauth { headers_map, token: String::new(), expires_in: 0, device }
    }

    /// A client for a freshly generated random device, holding no token yet.
    pub fn new() -> (r: Oauth)
        ensures
            r.wf(),
            r@.headers == r@.device.headers,
            r@.token.len() == 0,
            r@.expires_in == 0,
    {
        Oauth::with_device(Device::random())
    }

    /// The token request: the stored headers without any stored
    /// `Authorization`, Basic credentials of the device's client id, and the
    /// scopes body. A first login and every refresh send this same request.
    pub fn token_request(&self) -> (r: TokenRequest)
        requires
            self.wf(),
        ensures
            r.method@ == TOKEN_METHOD@,
            r.url@ == TOKEN_URL@,
            r.body@ == SCOPES_BODY@,
            r.headers.wf(),
            r.headers@ == request_headers(self@.headers, self@.device.oauth_id),
    {
        let auth = String::from_str(AUTHORIZATION);
        let mut headers = self.headers_map.without(&auth);
        let mut id = self.device.oauth_id().clone();
        id.append(":");
        proof {
            lemma_client_id_len();
            reveal_strlit(":");
        }
        let encoded = encode_base64(id.as_str());
        let mut value = String::from_str("Basic ");
        value.append(encoded.as_str());
        headers.insert(auth, value);
        TokenRequest {
            method: String::from_str(TOKEN_METHOD),
            url: String::from_str(TOKEN_URL),
            headers,
            body: String::from_str(SCOPES_BODY),
        }
    }

    /// Applies what an exchange returned: the device header `loid` if the
    /// response carried one, and the token and its validity read from the
    /// body. Succeeds exactly when both were read; then token, expiry and
    /// `Authorization: Bearer <token>` are stored together. On failure nothing
    /// changes.
    pub fn apply_grant(&mut self, loid: Option<String>, token: Option<String>, expires_in: Option<u64>) -> (ok: bool)
        requires
            old(self).wf(),
        ensures
            final(self).wf(),
            ok == (token.is_some() && expires_in.is_some()),
            ok ==> final(self)@ == (OauthView {
                headers: granted_headers(old(self)@.headers, text_of(loid), token.unwrap()@),
                token: token.unwrap()@,
                expires_in: expires_in.unwrap(),
                device: old(self)@.device,
            }),
            !ok ==> final(self)@ == old(self)@,
    {
        match (token, expires_in) {
            (Some(t), Some(e)) => {
                match loid {
                    Some(l) => {
                        self.headers_map.insert(String::from_str(LOID), l);
                    },
                    None => {},
                }
                let mut value = String::from_str("Bearer ");
                value.append(t.as_str());
                self.headers_map.insert(String::from_str(AUTHORIZATION), value);
                self.token = t;
                self.expires_in = e;
                true
            },
            _ => false,
        }
    }

    /// Applies an exchange's response: `loid` is the device header it carried,
    /// if any, and `body` its body, which must be a JSON object with a string
    /// `access_token` and an unsigned `expires_in`.
    pub fn apply_response(&mut self, loid: Option<String>, body: &[u8]) -> (ok: bool)
        requires
            old(self).wf(),
        ensures
            final(self).wf(),
            ok == (json_string_member(body@, ACCESS_TOKEN_FIELD@).is_some() && json_u64_member(
                body@,
                EXPIRES_IN_FIELD@,
            ).is_some()),
            ok ==> final(self)@ == (OauthView {
                headers: granted_headers(
                    old(self)@.headers,
                    text_of(loid),
                    json_string_member(body@, ACCESS_TOKEN_FIELD@).unwrap(),
                ),
                token: json_string_member(body@, ACCESS_TOKEN_FIELD@).unwrap(),
                expires_in: json_u64_member(body@, EXPIRES_IN_FIELD@).unwrap(),
                device: old(self)@.device,
            }),
            !ok ==> final(self)@ == old(self)@,
    {
        let token = read_json_string(body, ACCESS_TOKEN_FIELD);
        let expires_in = read_json_u64(body, EXPIRES_IN_FIELD);
        self.apply_grant(loid, token, expires_in)
    }

    /// The current bearer token; empty before the first successful exchange.
    pub fn token(&self) -> (r: &String)
        ensures
            r@ == self@.token,
    {
        &self.token
    }

    /// Seconds of validity that the last successful exchange reported.
    pub fn expires_in(&self) -> (r: u64)
        ensures
            r == self@.expires_in,
    {
        self.expires_in
    }

    /// The current header mapping, `Authorization: Bearer <token>` included
    /// once a token is held.
    pub fn headers(&self) -> (r: &Headers)
        requires
            self.wf(),
        ensures
            r.wf(),
            r@ == self@.headers,
    {
        &self.headers_map
    }

    pub fn device(&self) -> (r: &Device)
        requires
            self.wf(),
        ensures
            r.wf(),
            r@ == self@.device,
    {
        &self.device
    }
}


/// A token request never carries a bearer token: its `Authorization` is the
/// Basic credentials of the client, whatever the stored headers hold, and
/// every other stored header is sent unchanged.
pub proof fn lemma_request_sends_no_bearer(h: Map<Seq<char>, Seq<char>>, id: Seq<char>, token: Seq<char>)
    ensures
        request_headers(h, id).contains_key(AUTHORIZATION@),
        request_headers(h, id)[AUTHORIZATION@] == basic_credentials(id),
        request_headers(h, id)[AUTHORIZATION@] != bearer(token),
        forall|k: Seq<char>|
            k != AUTHORIZATION@ ==> (#[trigger] request_headers(h, id).contains_key(k) == h.contains_key(k)
                && (h.contains_key(k) ==> request_headers(h, id)[k] == h[k])),
{
    reveal_strlit("Basic ");
    reveal_strlit("Bearer ");
    assert(basic_credentials(id)[1] == 'a');
    assert(bearer(token)[1] == 'e');
}

/// The request depends on the stored headers only through those other than
/// `Authorization`: a stale bearer header left from an earlier exchange
/// changes nothing, so a refresh sends what a first login with the same
/// headers sends.
pub proof fn lemma_request_ignores_stored_authorization(
    h1: Map<Seq<char>, Seq<char>>,
    h2: Map<Seq<char>, Seq<char>>,
    id: Seq<char>,
)
    requires
        h1.remove(AUTHORIZATION@) == h2.remove(AUTHORIZATION@),
    ensures
        request_headers(h1, id) == request_headers(h2, id),
{
}

/// After a successful exchange whose response carried the device header
/// `loid`, the next token request sends that header with that value.
pub proof fn lemma_device_header_replayed(
    h: Map<Seq<char>, Seq<char>>,
    loid: Seq<char>,
    token: Seq<char>,
    id: Seq<char>,
)
    ensures
        request_headers(granted_headers(h, Some(loid), token), id).contains_key(LOID@),
        request_headers(granted_headers(h, Some(loid), token), id)[LOID@] == loid,
{
    reveal_strlit("x-reddit-loid");
    reveal_strlit("Authorization");
    assert(LOID@[0] != AUTHORIZATION@[0]);
}

/// In every well-formed state a held token is presented by the stored
/// `Authorization` header, and a stored `Authorization` presents the held
/// token: the two never disagree.
pub proof fn lemma_token_matches_authorization(o: Oauth)
    requires
        o.wf(),
    ensures
        o@.token.len() > 0 ==> o@.headers.contains_key(AUTHORIZATION@),
        o@.headers.contains_key(AUTHORIZATION@) ==> o@.headers[AUTHORIZATION@] == bearer(o@.token),
{
}

} // verus!
