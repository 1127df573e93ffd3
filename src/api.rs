//! The REST side: what each request declares, the client, and the decisions
//! that turn one request into one signed or unsigned call and its reply into
//! a body or a typed error.

use vstd::prelude::*;
use vstd::string::StringExecFns;
use crate::json::{Json, field, get_field};
use crate::websocket::{text_of, read_text};

verus! {

pub const API_BASE: &'static str = "https://api.gateio.ws/api/";

/// HTTP verb of a request.
#[derive(Clone, Copy, Debug, PartialEq, Eq, Structural)]
pub enum ApiMethod {
    Get,
    Post,
    Put,
    Delete,
}

pub open spec fn method_name(m: ApiMethod) -> Seq<char> {
    match m {
        ApiMethod::Get => "GET"@,
        ApiMethod::Post => "POST"@,
        ApiMethod::Put => "PUT"@,
        ApiMethod::Delete => "DELETE"@,
    }
}

impl ApiMethod {
    pub fn as_str(&self) -> (r: &'static str)
        ensures
            r@ == method_name(*self),
    {
        match self {
            ApiMethod::Get => "GET",
            ApiMethod::Post => "POST",
            ApiMethod::Put => "PUT",
            ApiMethod::Delete => "DELETE",
        }
    }
}

/// Generation of the API that a request belongs to.
#[derive(Clone, Copy, Debug, PartialEq, Eq, Structural)]
pub enum ApiVersion {
    V4,
}

pub open spec fn version_name(v: ApiVersion) -> Seq<char> {
    match v {
        ApiVersion::V4 => "v4"@,
    }
}

impl ApiVersion {
    pub fn as_str(&self) -> (r: &'static str)
        ensures
            r@ == version_name(*self),
    {
        match self {
            ApiVersion::V4 => "v4",
        }
    }
}

/// What an endpoint declares about its requests: verb, API generation, and
/// whether the call goes out without a signature.
pub trait Request {
    spec fn spec_method() -> ApiMethod;

    spec fn spec_version() -> ApiVersion;

    spec fn spec_is_public() -> bool;

    fn method() -> (r: ApiMethod)
        ensures
            r == Self::spec_method(),
    ;

    fn version() -> (r: ApiVersion)
        ensures
            r == Self::spec_version(),
    ;

    fn is_public() -> (r: bool)
        ensures
            r == Self::spec_is_public(),
    ;
}

/// A proxy that calls go through.
#[derive(Clone, Debug, PartialEq)]
pub struct Proxy {
    pub host: String,
    pub port: u16,
}

/// How a client is set up: its signer, the base URL, and an optional proxy.
#[derive(Clone)]
pub struct GateApiConfig<S> {
    pub signer: S,
    pub api_base: String,
    pub proxy: Option<Proxy>,
}

impl<S> GateApiConfig<S> {
    pub fn new(signer: S, api_base: String, proxy: Option<Proxy>) -> (r: GateApiConfig<S>)
        ensures
            r == (GateApiConfig { signer, api_base, proxy }),
    {
        GateApiConfig { signer, api_base, proxy }
    }
}

/// The REST client that a `GateApi` shares between its feature handles.
#[derive(Clone)]
pub struct GateRestClient<S> {
    pub config: GateApiConfig<S>,
}

impl<S> GateRestClient<S> {
    pub fn new(config: GateApiConfig<S>) -> (r: GateRestClient<S>)
        ensures
            r.config == config,
    {
        GateRestClient { config }
    }
}

/// Gate API client.
#[derive(Clone)]
pub struct GateApi<S> {
    pub client: GateRestClient<S>,
}

/// Where a call stands.
#[derive(Clone, Copy, Debug, PartialEq, Eq, Structural)]
pub enum CallStage {
    Prepared,
    AwaitingSignature,
    AwaitingResponse,
    Finished,
}

/// What the signer is handed for a private call. The signer adds the key
/// and the timestamp of the moment it signs.
#[derive(Clone, Debug, PartialEq)]
pub struct SignMaterial {
    pub method: ApiMethod,
    /// The URL path that is signed, such as `/api/v4/spot/accounts`
    pub path: String,
    pub query: String,
    pub body: String,
}

/// The text that a signer signs: method, path, query, the hex digest of the
/// body and the timestamp, one per line.
pub open spec fn sign_text(
    method: ApiMethod,
    path: Seq<char>,
    query: Seq<char>,
    body_hash: Seq<char>,
    timestamp: Seq<char>,
) -> Seq<char> {
    method_name(method) + "\n"@ + path + "\n"@ + query + "\n"@ + body_hash + "\n"@ + timestamp
}

impl SignMaterial {
    /// The text to sign, given the hex digest of the body and the timestamp
    /// that the signer picked.
    pub fn text(&self, body_hash: &str, timestamp: &str) -> (r: String)
        ensures
            r@ == sign_text(self.method, self.path@, self.query@, body_hash@, timestamp@),
    {
        let mut t = self.method.as_str().to_owned();
        t.append("\n");
        t.append(self.path.as_str());
        t.append("\n");
        t.append(self.query.as_str());
        t.append("\n");
        t.append(body_hash);
        t.append("\n");
        t.append(timestamp);
        t
    }
}

/// Two signings of the same material at different timestamps sign different
/// texts.
pub proof fn lemma_fresh_timestamp_fresh_text(
    method: ApiMethod,
    path: Seq<char>,
    query: Seq<char>,
    body_hash: Seq<char>,
    t1: Seq<char>,
    t2: Seq<char>,
)
    requires
        t1 != t2,
    ensures
        sign_text(method, path, query, body_hash, t1) != sign_text(method, path, query, body_hash, t2),
{
    let p = method_name(method) + "\n"@ + path + "\n"@ + query + "\n"@ + body_hash + "\n"@;
    assert(sign_text(method, path, query, body_hash, t1) == p + t1);
    assert(sign_text(method, path, query, body_hash, t2) == p + t2);
    if p + t1 == p + t2 {
        assert((p + t1).subrange(p.len() as int, (p + t1).len() as int) =~= t1);
        assert((p + t2).subrange(p.len() as int, (p + t2).len() as int) =~= t2);
    }
}

/// The headers that a signer produced for one call.
#[derive(Clone, Debug, PartialEq)]
pub struct SignatureData {
    pub key: String,
    pub timestamp: String,
    pub sign: String,
}

/// What the code that drives a call does next.
#[derive(Clone, Debug, PartialEq)]
pub enum CallAction {
    /// Hand the material to the signer, and report back with `on_signature`.
    Sign(SignMaterial),
    /// Send the call, with the signature headers where there are any, and
    /// report back with `on_response`.
    Send(Option<SignatureData>),
}

/// A reply that came over the network.
#[derive(Debug)]
pub struct HttpReply {
    pub status: u16,
    /// The body, where it is a JSON document
    pub body: Option<Json>,
}

/// Why a response body could not be turned into the endpoint's type.
#[derive(Clone, Copy, Debug, PartialEq, Eq, Structural)]
pub enum DecodeError {
    /// The body is no JSON document.
    NotJson,
    /// The body is not of the expected shape: the named field of the item at
    /// the position given (where the body is a list).
    Malformed(Option<usize>, CurrencyField),
    /// The body is not a list where one was expected.
    NotAList,
}

/// The fields of a currency record.
#[derive(Clone, Copy, Debug, PartialEq, Eq, Structural)]
pub enum CurrencyField {
    Record,
    Currency,
    Delisted,
    WithdrawDisabled,
    WithdrawDelayed,
    DepositDisabled,
    TradeDisabled,
    FixedRate,
    Chain,
}

/// Why a call failed.
#[derive(Clone, Debug, PartialEq)]
pub enum RequestError {
    /// The signer could not sign: credentials are missing or malformed.
    Configuration(String),
    /// The network failed.
    Transport(String),
    /// The server answered with a failure status and no structured error.
    HttpStatus(u16),
    /// The server answered with a failure status and a structured error.
    Api { label: String, message: String },
    /// The body does not have the expected shape.
    Decode(DecodeError),
}

/// One call on its way: made by `GateApi::request`, driven by `start`,
/// `on_signature` and `on_response`.
#[derive(Clone, Debug, PartialEq)]
pub struct RestCall {
    pub method: ApiMethod,
    /// The full URL of the endpoint
    pub url: String,
    /// The URL path that a signature covers
    pub sign_path: String,
    /// Whether the call must be signed
    pub signed: bool,
    pub stage: CallStage,
}

pub open spec fn is_success(status: u16) -> bool {
    200 <= status < 300
}

/// The structured error in a failure reply: `label` (or else `code`) and
/// `message`, both strings.
pub open spec fn api_error_of(body: Option<Json>) -> Option<(Seq<char>, Seq<char>)> {
    match body {
        Some(Json::Object(es)) => {
            let label = match text_of(field(es@, "label"@)) {
                Some(l) => Some(l),
                None => text_of(field(es@, "code"@)),
            };
            match (label, text_of(field(es@, "message"@))) {
                (Some(l), Some(m)) => Some((l, m)),
                _ => None,
            }
        },
        _ => None,
    }
}

/// How many times the signer is asked, from the given stage to the end of a
/// call that must (or must not) be signed.
pub open spec fn signs_from(stage: CallStage, signed: bool) -> nat {
    match stage {
        CallStage::Prepared => if signed {
            1
        } else {
            0
        },
        _ => 0,
    }
}

/// The stage that `start` moves a call to.
pub open spec fn started(signed: bool) -> CallStage {
    if signed {
        CallStage::AwaitingSignature
    } else {
        CallStage::AwaitingResponse
    }
}

impl<S> GateApi<S> {
    pub fn new(signer: S, proxy: Option<Proxy>) -> (r: GateApi<S>)
        ensures
            r.client.config.signer == signer,
            r.client.config.api_base@ == API_BASE@,
            r.client.config.proxy == proxy,
    {
        let api_base = API_BASE.to_owned();
        GateApi::with_config(GateApiConfig::new(signer, api_base, proxy))
    }

    pub fn with_config(config: GateApiConfig<S>) -> (r: GateApi<S>)
        ensures
            r.client.config == config,
    {
        let client = GateRestClient::new(config);
        GateApi { client }
    }

    /// Prepares the call of `request` at `path` (such as `/spot/currencies`):
    /// its verb, its URL under the client's base and the request's API
    /// version, and whether it must be signed.
    pub fn request<R: Request>(&self, path: &str, request: &R) -> (r: RestCall)
        ensures
            r.method == R::spec_method(),
            r.url@ == self.client.config.api_base@ + version_name(R::spec_version()) + path@,
            r.sign_path@ == "/api/"@ + version_name(R::spec_version()) + path@,
            r.signed == !R::spec_is_public(),
            r.stage == CallStage::Prepared,
    {
        let version = R::version().as_str();
        let mut url = self.client.config.api_base.clone();
        url.append(version);
        url.append(path);
        let mut sign_path = "/api/".to_owned();
        sign_path.append(version);
        sign_path.append(path);
        RestCall {
            method: R::method(),
            url,
            sign_path,
            signed: !R::is_public(),
            stage: CallStage::Prepared,
        }
    }

    /// Spot trading
    pub fn spot(&self) -> (r: SpotApi<'_, S>)
        ensures
            *r.api == *self,
    {
        SpotApi { api: self }
    }
}

/// Spot trading: the spot endpoints of a shared client.
pub struct SpotApi<'a, S> {
    pub api: &'a GateApi<S>,
}

impl RestCall {
    /// The first step: ask for a signature where the call must be signed,
    /// else send it as it is.
    pub fn start(&mut self) -> (r: CallAction)
        requires
            old(self).stage == CallStage::Prepared,
        ensures
            final(self).stage == started(old(self).signed),
            final(self).signed == old(self).signed,
            final(self).method == old(self).method,
            final(self).url == old(self).url,
            final(self).sign_path == old(self).sign_path,
            (r is Sign) == (signs_from(old(self).stage, old(self).signed) == 1),
            match r {
                CallAction::Sign(m) => old(self).signed && m.method == old(self).method
                    && m.path@ == old(self).sign_path@ && m.query@ == Seq::<char>::empty()
                    && m.body@ == Seq::<char>::empty(),
                CallAction::Send(sig) => !old(self).signed && sig is None,
            },
    {
        if self.signed {
            self.stage = CallStage::AwaitingSignature;
            CallAction::Sign(
                SignMaterial {
                    method: self.method,
                    path: self.sign_path.clone(),
                    query: String::new(),
                    body: String::new(),
                },
            )
        } else {
            self.stage = CallStage::AwaitingResponse;
            CallAction::Send(None)
        }
    }

    /// What the signer answered: send the call with its headers, or stop
    /// with a configuration error.
    pub fn on_signature(&mut self, signed: Result<SignatureData, String>) -> (r: Result<
        CallAction,
        RequestError,
    >)
        requires
            old(self).stage == CallStage::AwaitingSignature,
        ensures
            final(self).signed == old(self).signed,
            final(self).method == old(self).method,
            final(self).url == old(self).url,
            match signed {
                Ok(sig) => r == Ok::<CallAction, RequestError>(CallAction::Send(Some(sig)))
                    && final(self).stage == CallStage::AwaitingResponse,
                Err(why) => r == Err::<CallAction, RequestError>(RequestError::Configuration(why))
                    && final(self).stage == CallStage::Finished,
            },
    {
        match signed {
            Ok(sig) => {
                self.stage = CallStage::AwaitingResponse;
                Ok(CallAction::Send(Some(sig)))
            },
            Err(why) => {
                self.stage = CallStage::Finished;
                Err(RequestError::Configuration(why))
            },
        }
    }

    /// What came back: the body of a success, the server's structured error,
    /// or a transport error.
    pub fn on_response(&mut self, reply: Result<HttpReply, String>) -> (r: Result<Json, RequestError>)
        requires
            old(self).stage == CallStage::AwaitingResponse,
        ensures
            final(self).stage == CallStage::Finished,
            final(self).signed == old(self).signed,
            match reply {
                Err(why) => r == Err::<Json, RequestError>(RequestError::Transport(why)),
                Ok(rep) => if is_success(rep.status) {
                    match rep.body {
                        Some(b) => r == Ok::<Json, RequestError>(b),
                        None => r == Err::<Json, RequestError>(RequestError::Decode(DecodeError::NotJson)),
                    }
                } else {
                    match api_error_of(rep.body) {
                        Some((l, m)) => r matches Err(RequestError::Api { label, message })
                            && label@ == l && message@ == m,
                        None => r == Err::<Json, RequestError>(RequestError::HttpStatus(rep.status)),
                    }
                },
            },
    {
        self.stage = CallStage::Finished;
        match reply {
            Err(why) => Err(RequestError::Transport(why)),
            Ok(rep) => {
                if 200 <= rep.status && rep.status < 300 {
                    match rep.body {
                        Some(b) => Ok(b),
                        None => Err(RequestError::Decode(DecodeError::NotJson)),
                    }
                } else {
                    match api_error(&rep.body) {
                        Some((label, message)) => Err(RequestError::Api { label, message }),
                        None => Err(RequestError::HttpStatus(rep.status)),
                    }
                }
            },
        }
    }
}

fn api_error(body: &Option<Json>) -> (r: Option<(String, String)>)
    ensures
        match api_error_of(*body) {
            Some((l, m)) => r matches Some((a, b)) && a@ == l && b@ == m,
            None => r is None,
        },
{
    match body {
        Some(Json::Object(es)) => {
            let label = match read_text(get_field(es, "label")) {
                Some(l) => Some(l),
                None => read_text(get_field(es, "code")),
            };
            match (label, read_text(get_field(es, "message"))) {
                (Some(l), Some(m)) => Some((l, m)),
                _ => None,
            }
        },
        _ => None,
    }
}

/// A request whose type declares it public is never handed to the signer.
pub proof fn lemma_public_never_signed<R: Request>()
    requires
        R::spec_is_public(),
    ensures
        signs_from(CallStage::Prepared, !R::spec_is_public()) == 0,
        started(!R::spec_is_public()) == CallStage::AwaitingResponse,
{
}

/// A request whose type declares it private is handed to the signer exactly
/// once: at the start, and at no later stage.
pub proof fn lemma_private_signed_once<R: Request>()
    requires
        !R::spec_is_public(),
    ensures
        signs_from(CallStage::Prepared, !R::spec_is_public()) == 1,
        started(!R::spec_is_public()) == CallStage::AwaitingSignature,
        signs_from(CallStage::AwaitingSignature, true) == 0,
        signs_from(CallStage::AwaitingResponse, true) == 0,
{
}

} // verus!
