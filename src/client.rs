//! The configuration every call is made with: credentials, base URL, the
//! headers sent with each request, and the retry policy.
use vstd::prelude::*;
use crate::error::{ErrorView, StabilityAIError};
use crate::policy::RetryPolicy;
use crate::types::opt_view;

verus! {

/// Default v1 API base url
pub const API_BASE: &'static str = "https://api.stability.ai/v1";

/// Name for organization header
pub const ORGANIZATION_HEADER: &'static str = "Organization";

/// Name for client id header
pub const CLIENT_ID_HEADER: &'static str = "Stability-Client-ID";

/// Name for client version header
pub const CLIENT_VERSION_HEADER: &'static str = "Stability-Client-Version";

/// Path of the account information of the caller.
pub const USER_ACCOUNT_PATH: &'static str = "/user/account";

/// Path of the credit balance of the caller.
pub const USER_BALANCE_PATH: &'static str = "/user/balance";

/// Path of the list of engines available to the caller.
pub const ENGINES_LIST_PATH: &'static str = "/engines/list";

/// Client is a container of configurations to make API calls. The HTTP
/// transport that carries the calls is kept beside it by the caller.
#[derive(Debug, Clone)]
pub struct Client {
    api_key: String,
    api_base: String,
    organization: String,
    client_id: Option<String>,
    client_version: Option<String>,
    backoff: RetryPolicy,
}

/// The settings of a [`Client`].
pub struct ClientView {
    pub api_key: Seq<char>,
    pub api_base: Seq<char>,
    pub organization: Seq<char>,
    pub client_id: Option<Seq<char>>,
    pub client_version: Option<Seq<char>>,
}

impl View for Client {
    type V = ClientView;

    closed spec fn view(&self) -> ClientView {
        ClientView {
            api_key: self.api_key@,
            api_base: self.api_base@,
            organization: self.organization@,
            client_id: opt_view(self.client_id),
            client_version: opt_view(self.client_version),
        }
    }
}

/// A header for an optional setting: sent only when set and not empty.
pub open spec fn opt_header(name: Seq<char>, v: Option<Seq<char>>) -> Seq<(Seq<char>, Seq<char>)> {
    match v {
        Some(s) => if s.len() > 0 {
            seq![(name, s)]
        } else {
            seq![]
        },
        None => seq![],
    }
}

/// The custom headers sent with every request, in order.
pub open spec fn headers_of(c: ClientView) -> Seq<(Seq<char>, Seq<char>)> {
    opt_header(ORGANIZATION_HEADER@, Some(c.organization)) + opt_header(
        CLIENT_ID_HEADER@,
        c.client_id,
    ) + opt_header(CLIENT_VERSION_HEADER@, c.client_version)
}

pub open spec fn pairs_view(v: Seq<(String, String)>) -> Seq<(Seq<char>, Seq<char>)> {
    v.map_values(|p: (String, String)| (p.0@, p.1@))
}

fn push_header(headers: &mut Vec<(String, String)>, name: &str, value: &Option<String>)
    ensures
        pairs_view(final(headers)@) == pairs_view(old(headers)@) + opt_header(name@, opt_view(*value)),
{
    let ghost before = headers@;
    match value {
        Some(v) => {
            if !v.as_str().is_empty() {
                headers.push((String::from_str(name), v.clone()));
            }
        },
        None => {},
    }
    assert(pairs_view(headers@) =~= pairs_view(before) + opt_header(name@, opt_view(*value)));
}

/// Why a client's headers are refused.
pub const INVALID_HEADER_VALUE: &'static str = "a header value holds a control character";

/// A character that may stand in an HTTP header value: a tab, or any
/// character from the space on but DEL (characters beyond ASCII are sent as
/// bytes from 0x80 on, which are allowed).
pub open spec fn is_header_char(c: char) -> bool {
    c == '\t' || (' ' <= c && c != '\x7f')
}

pub open spec fn is_header_value(s: Seq<char>) -> bool {
    forall|i: int| 0 <= i < s.len() ==> is_header_char(#[trigger] s[i])
}

/// Every value of these headers can be sent.
pub open spec fn headers_sendable(hs: Seq<(Seq<char>, Seq<char>)>) -> bool {
    forall|i: int| 0 <= i < hs.len() ==> is_header_value(#[trigger] hs[i].1)
}

/// Whether `s` can be sent as a header value.
pub fn valid_header_value(s: &str) -> (r: bool)
    ensures
        r == is_header_value(s@),
{
    let n = s.unicode_len();
    let mut i: usize = 0;
    while i < n
        invariant
            n == s@.len(),
            i <= n,
            forall|j: int| 0 <= j < i ==> is_header_char(#[trigger] s@[j]),
        decreases n - i,
    {
        let c = s.get_char(i);
        if !(c == '\t' || (' ' <= c && c != '\x7f')) {
            return false;
        }
        i = i + 1;
    }
    true
}

/// The path of a generation endpoint.
pub enum GenerationEndpoint {
    TextToImage,
    ImageToImage,
    ImageToImageUpscale,
    ImageToImageMasking,
}

pub open spec fn endpoint_suffix(e: GenerationEndpoint) -> Seq<char> {
    match e {
        GenerationEndpoint::TextToImage => "/text-to-image"@,
        GenerationEndpoint::ImageToImage => "/image-to-image"@,
        GenerationEndpoint::ImageToImageUpscale => "/image-to-image/upscale"@,
        GenerationEndpoint::ImageToImageMasking => "/image-to-image/masking"@,
    }
}

/// `/generation/{engine_id}` followed by the endpoint's own path.
pub fn generation_path(engine_id: &str, endpoint: GenerationEndpoint) -> (r: String)
    ensures
        r@ == "/generation/"@ + engine_id@ + endpoint_suffix(endpoint),
{
    let s = String::from_str("/generation/").concat(engine_id);
    match endpoint {
        GenerationEndpoint::TextToImage => s.concat("/text-to-image"),
        GenerationEndpoint::ImageToImage => s.concat("/image-to-image"),
        GenerationEndpoint::ImageToImageUpscale => s.concat("/image-to-image/upscale"),
        GenerationEndpoint::ImageToImageMasking => s.concat("/image-to-image/masking"),
    }
}

impl Client {
    /// The retry policy each call starts from a copy of.
    pub closed spec fn policy(&self) -> RetryPolicy {
        self.backoff
    }

    /// A client for the default [`API_BASE`], with the API key found in the
    /// environment if there is one (empty otherwise), no organization, and the
    /// default retry policy.
    pub fn new(env_api_key: Option<String>) -> (r: Client)
        ensures
            r@ == (ClientView {
                api_key: match env_api_key {
                    Some(k) => k@,
                    None => Seq::<char>::empty(),
                },
                api_base: API_BASE@,
                organization: Seq::<char>::empty(),
                client_id: None,
                client_version: None,
            }),
            r.policy().initial_interval_ms() == 500,
            r.policy().max_interval_ms() == 60_000,
            r.policy().max_elapsed_ms() == Some(900_000u64),
    {
        let api_key = match env_api_key {
            Some(k) => k,
            None => String::new(),
        };
        Client {
            api_key,
            api_base: String::from_str(API_BASE),
            organization: String::new(),
            client_id: None,
            client_version: None,
            backoff: RetryPolicy::standard(),
        }
    }

    /// To use an API key other than the one from the environment.
    pub fn with_api_key(self, api_key: &str) -> (r: Client)
        ensures
            r@ == (ClientView { api_key: api_key@, ..self@ }),
            r.policy() == self.policy(),
    {
        Client { api_key: String::from_str(api_key), ..self }
    }

    /// To use an organization id other than the default one.
    pub fn with_organization(self, organization: &str) -> (r: Client)
        ensures
            r@ == (ClientView { organization: organization@, ..self@ }),
            r.policy() == self.policy(),
    {
        Client { organization: String::from_str(organization), ..self }
    }

    /// To use an API base url other than [`API_BASE`].
    pub fn with_api_base(self, api_base: &str) -> (r: Client)
        ensures
            r@ == (ClientView { api_base: api_base@, ..self@ }),
            r.policy() == self.policy(),
    {
        Client { api_base: String::from_str(api_base), ..self }
    }

    /// To identify the calling application.
    pub fn with_client_id(self, client_id: &str) -> (r: Client)
        ensures
            r@ == (ClientView { client_id: Some(client_id@), ..self@ }),
            r.policy() == self.policy(),
    {
        Client { client_id: Some(String::from_str(client_id)), ..self }
    }

    /// To identify the version of the calling application.
    pub fn with_client_version(self, client_version: &str) -> (r: Client)
        ensures
            r@ == (ClientView { client_version: Some(client_version@), ..self@ }),
            r.policy() == self.policy(),
    {
        Client { client_version: Some(String::from_str(client_version)), ..self }
    }

    /// Exponential backoff for retrying rate limited requests.
    pub fn with_backoff(self, backoff: RetryPolicy) -> (r: Client)
        ensures
            r@ == self@,
            r.policy() == backoff,
    {
        Client { backoff, ..self }
    }

    pub fn api_base(&self) -> (r: &str)
        ensures
            r@ == self@.api_base,
    {
        self.api_base.as_str()
    }

    pub fn api_key(&self) -> (r: &str)
        ensures
            r@ == self@.api_key,
    {
        self.api_key.as_str()
    }

    /// The URL of `path` under the API base.
    pub fn url(&self, path: &str) -> (r: String)
        ensures
            r@ == self@.api_base + path@,
    {
        String::from_str(self.api_base.as_str()).concat(path)
    }

    /// The custom headers sent with every request: the organization, client
    /// id and client version, each only when set and not empty. Refused when
    /// one of the values to send cannot stand in a header.
    pub fn headers(&self) -> (r: Result<Vec<(String, String)>, StabilityAIError>)
        ensures
            headers_sendable(headers_of(self@)) ==> (r matches Ok(h) && pairs_view(h@) == headers_of(
                self@,
            )),
            !headers_sendable(headers_of(self@)) ==> (r matches Err(e) && e@
                == ErrorView::InvalidArgument(INVALID_HEADER_VALUE@)),
    {
        let mut h: Vec<(String, String)> = Vec::new();
        assert(pairs_view(h@) =~= seq![]);
        push_header(&mut h, ORGANIZATION_HEADER, &Some(self.organization.clone()));
        push_header(&mut h, CLIENT_ID_HEADER, &self.client_id);
        push_header(&mut h, CLIENT_VERSION_HEADER, &self.client_version);
        assert(pairs_view(h@) =~= headers_of(self@));
        let n = h.len();
        let mut i: usize = 0;
        while i < n
            invariant
                n == h@.len(),
                pairs_view(h@) == headers_of(self@),
                i <= n,
                forall|j: int| 0 <= j < i ==> is_header_value(#[trigger] pairs_view(h@)[j].1),
            decreases n - i,
        {
            assert(pairs_view(h@)[i as int].1 == h@[i as int].1@);
            if !valid_header_value(h[i].1.as_str()) {
                return Err(StabilityAIError::InvalidArgument(String::from_str(INVALID_HEADER_VALUE)));
            }
            i = i + 1;
        }
        Ok(h)
    }

    /// A copy of the retry policy for one call; calls never share one, and
    /// the client's own policy is never advanced. The caller restarts the
    /// copy before its first attempt.
    pub fn retry_policy(&self) -> (r: RetryPolicy)
        ensures
            r == self.policy(),
    {
        self.backoff.duplicate()
    }
}

} // verus!
