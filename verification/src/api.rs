//! The API core: where the service lives, how a request to it is addressed
//! and signed, and how the text that a transport brings back becomes a typed
//! result.

use crate::codec::{text_members, FromJson, ToJson};
use crate::error_type::MailchimpErrorType;
use crate::json::{json_parse, json_text, Json, JsonTree};
use crate::params::{
    has_key, plain_query_text, query_text, reads_as_written, ParamSeq, Params,
};
use crate::request::{credentials, BasicAuth, HeaderSet, HttpReq, MailchimpResult};
use crate::types::empty::EmptyType;
use vstd::prelude::*;

verus! {

/// The address of the service for a datacenter:
/// `https://{dc}.api.mailchimp.com/`.
pub open spec fn domain_of(dc: Seq<char>) -> Seq<char> {
    "https://"@ + dc + ".api.mailchimp.com/"@
}

/// The version of the API that this client speaks.
pub open spec fn version_text() -> Seq<char> {
    "3.0"@
}

/// The URL of an endpoint: domain, version, `/`, the endpoint, and, only
/// where there are parameters, `?` and the query string. The endpoint is
/// written as it is; the names and values of the parameters are
/// percent-encoded.
pub open spec fn url_text(
    domain: Seq<char>,
    version: Seq<char>,
    endpoint: Seq<char>,
    params: ParamSeq,
) -> Seq<char> {
    let base = domain + version + "/"@ + endpoint;
    if params.len() == 0 {
        base
    } else {
        base + "?"@ + query_text(params)
    }
}

/// The URL of an endpoint with the parameters written as they are: what
/// [`url_text`] is where every name and value is made of plain characters.
pub open spec fn plain_url_text(
    domain: Seq<char>,
    version: Seq<char>,
    endpoint: Seq<char>,
    params: ParamSeq,
) -> Seq<char> {
    let base = domain + version + "/"@ + endpoint;
    if params.len() == 0 {
        base
    } else {
        base + "?"@ + plain_query_text(params)
    }
}

/// The headers of every request: the JSON content type, and, where the API
/// key is sent as a bearer token, the authorization header with that key.
pub open spec fn header_pairs(api_key: Seq<char>, bearer: bool) -> ParamSeq {
    if bearer {
        seq![
            ("content-type"@, "application/json"@),
            ("authorization"@, "Bearer "@ + api_key),
        ]
    } else {
        seq![("content-type"@, "application/json"@)]
    }
}

/// The document that the body of a successful response holds: an empty body
/// stands for the empty object, any other body for what it parses to.
pub open spec fn body_tree(text: Seq<char>) -> Option<JsonTree> {
    if text.len() == 0 {
        Some(JsonTree::Object(Map::empty()))
    } else {
        json_parse(text)
    }
}

/// Whether `r` is what the reply of a transport decodes to: an error is
/// handed on as it is; a body that holds a document of type `T` gives that
/// record; every other body gives the fallback error.
pub open spec fn is_decoding_of<T: FromJson>(
    reply: MailchimpResult<String>,
    r: MailchimpResult<T>,
) -> bool {
    match reply {
        Err(e) => r == Err::<T, MailchimpErrorType>(e),
        Ok(text) => match body_tree(text@) {
            Some(tree) => if T::decodable(tree) {
                r matches Ok(x) && T::decodes_to(tree, x)
            } else {
                r matches Err(e) && e.is_fallback()
            },
            None => r matches Err(e) && e.is_fallback(),
        },
    }
}

/// Decodes the reply of a transport into a record of type `T`.
pub fn decode_reply<T: FromJson>(reply: MailchimpResult<String>) -> (r: MailchimpResult<T>)
    ensures
        is_decoding_of::<T>(reply, r),
{
    match reply {
        Err(e) => Err(e),
        Ok(text) => {
            let parsed = if text.as_str().is_empty() {
                Some(Json::empty_object())
            } else {
                Json::parse(text.as_str())
            };
            match parsed {
                Some(json) => match T::from_json(&json) {
                    Some(x) => Ok(x),
                    None => Err(MailchimpErrorType::default()),
                },
                None => Err(MailchimpErrorType::default()),
            }
        },
    }
}

/// The error of a result, or `None` for success.
pub open spec fn reduce_spec<T>(result: MailchimpResult<T>) -> Option<MailchimpErrorType> {
    match result {
        Ok(_) => None,
        Err(e) => Some(e),
    }
}

/// What is left of a result once the value is of no interest: the error, or
/// `None` for success.
pub fn reduce<T>(result: MailchimpResult<T>) -> (r: Option<MailchimpErrorType>)
    ensures
        r == reduce_spec(result),
{
    match result {
        Ok(_) => None,
        Err(e) => Some(e),
    }
}

/// Whether `r` is what an action reports for the reply of a transport: an
/// error is handed on as it is; an empty body and a body that holds an
/// object are success; every other body gives the fallback error.
pub open spec fn is_action_outcome(
    reply: MailchimpResult<String>,
    r: Option<MailchimpErrorType>,
) -> bool {
    match reply {
        Err(e) => r == Some(e),
        Ok(text) => match body_tree(text@) {
            Some(tree) => if tree is Object {
                r is None
            } else {
                r matches Some(e) && e.is_fallback()
            },
            None => r matches Some(e) && e.is_fallback(),
        },
    }
}

/// The request methods of the API.
#[derive(Debug, Clone, Copy, PartialEq, Eq, Structural)]
pub enum RequestMethod {
    /// HTTP `POST`: the payload is the JSON body.
    Post,
    /// HTTP `GET`: the payload is the query string.
    Get,
    /// HTTP `PUT`: the payload is the JSON body.
    Put,
    /// HTTP `PATCH`: the payload is the JSON body.
    Patch,
    /// HTTP `DELETE`: the payload is the query string.
    Delete,
}

/// One request, as it is handed to the transport.
#[derive(Debug)]
pub struct Request {
    /// The method.
    pub method: RequestMethod,
    /// The URL, query string included.
    pub url: String,
    /// The headers.
    pub headers: HeaderSet,
    /// The JSON body, for the methods that carry one.
    pub body: Option<String>,
}

/// The body that goes out with a request: none with `GET` and `DELETE`; with
/// the other methods the body of the request, or an empty one where the
/// request has none.
pub open spec fn body_sent(method: RequestMethod, body: Option<Seq<char>>) -> Option<Seq<char>> {
    match method {
        RequestMethod::Get => None,
        RequestMethod::Delete => None,
        _ => Some(
            match body {
                Some(text) => text,
                None => Seq::empty(),
            },
        ),
    }
}

/// The API core for one account: datacenter, credentials and transport.
#[derive(Debug)]
pub struct Api<R: HttpReq> {
    dc: String,
    api_key: String,
    req: Box<R>,
    basic_auth: Option<BasicAuth>,
}

impl<R: HttpReq> Api<R> {
    /// The datacenter of the account.
    pub closed spec fn datacenter(&self) -> Seq<char> {
        self.dc@
    }

    /// The API key of the account.
    pub closed spec fn key(&self) -> Seq<char> {
        self.api_key@
    }

    /// The user name for basic authentication, where that is the way the
    /// key is sent; `None` where the key is sent as a bearer token.
    pub closed spec fn basic_user(&self) -> Option<Seq<char>> {
        match self.basic_auth {
            Some(auth) => Some(auth.username@),
            None => None,
        }
    }

    /// The transport that requests go through.
    pub closed spec fn transport(&self) -> R {
        *self.req
    }

    /// The user name and the key for basic authentication, where that is
    /// the way the key is sent.
    pub closed spec fn basic_credentials(&self) -> Option<(Seq<char>, Seq<char>)> {
        credentials(self.basic_auth)
    }

    /// Whether `reply` is an answer of the transport to the request that
    /// addresses `endpoint` with `params` as the query string: the URL and
    /// the headers are those that the core builds, the credentials are the
    /// core's, and there is no body but the empty one that a writing method
    /// carries.
    pub open spec fn answers_query(
        &self,
        method: RequestMethod,
        endpoint: Seq<char>,
        params: ParamSeq,
        reply: MailchimpResult<String>,
    ) -> bool {
        self.transport().answers(
            method,
            url_text(domain_of(self.datacenter()), version_text(), endpoint, params),
            header_pairs(self.key(), self.basic_user().is_none()),
            body_sent(method, None),
            self.basic_credentials(),
            reply,
        )
    }

    /// Whether `reply` is an answer of the transport to the request that
    /// addresses `endpoint` without query string and carries `body`: the URL
    /// and the headers are those that the core builds, and the credentials
    /// are the core's.
    pub open spec fn answers_body(
        &self,
        method: RequestMethod,
        endpoint: Seq<char>,
        body: Seq<char>,
        reply: MailchimpResult<String>,
    ) -> bool {
        self.transport().answers(
            method,
            url_text(domain_of(self.datacenter()), version_text(), endpoint, ParamSeq::empty()),
            header_pairs(self.key(), self.basic_user().is_none()),
            body_sent(method, Some(body)),
            self.basic_credentials(),
            reply,
        )
    }

    /// An API core that sends the key as a bearer token.
    pub fn new(dc: &str, api_key: &str, http_transport: Box<R>) -> (r: Self)
        ensures
            r.datacenter() == dc@,
            r.key() == api_key@,
            r.basic_user().is_none(),
            r.basic_credentials().is_none(),
            r.transport() == *http_transport,
    {
        Api {
            dc: String::from_str(dc),
            api_key: String::from_str(api_key),
            req: http_transport,
            basic_auth: None,
        }
    }

    /// An API core that sends the key by HTTP basic authentication.
    pub fn with_basic_auth(dc: &str, username: &str, api_key: &str, http_transport: Box<R>) -> (r:
        Self)
        ensures
            r.datacenter() == dc@,
            r.key() == api_key@,
            r.basic_user() == Some(username@),
            r.basic_credentials() == Some((username@, api_key@)),
            r.transport() == *http_transport,
    {
        Api {
            dc: String::from_str(dc),
            api_key: String::from_str(api_key),
            req: http_transport,
            basic_auth: Some(
                BasicAuth {
                    username: String::from_str(username),
                    api_token: String::from_str(api_key),
                },
            ),
        }
    }

    /// The address of the service for this account's datacenter.
    pub fn domain(&self) -> (r: String)
        ensures
            r@ == domain_of(self.datacenter()),
    {
        let mut out = String::from_str("https://");
        out.append(self.dc.as_str());
        out.append(".api.mailchimp.com/");
        out
    }

    /// The version of the API.
    pub fn api_version(&self) -> (r: String)
        ensures
            r@ == version_text(),
    {
        String::from_str("3.0")
    }

    /// The URL of `endpoint` with `payload` as its query string.
    pub fn build_url(&self, endpoint: &str, payload: &Params) -> (r: String)
        ensures
            r@ == url_text(domain_of(self.datacenter()), version_text(), endpoint@, payload@),
            reads_as_written(payload@),
    {
        let mut out = self.domain();
        out.append(self.api_version().as_str());
        out.append("/");
        out.append(endpoint);
        if !payload.is_empty() {
            out.append("?");
            out.append(payload.query_string().as_str());
        }
        out
    }

    /// The headers of a request.
    pub fn build_headers(&self) -> (r: HeaderSet)
        ensures
            r@ == header_pairs(self.key(), self.basic_user().is_none()),
    {
        let mut headers = Params::new();
        headers.insert(String::from_str("content-type"), String::from_str("application/json"));
        proof {
            assert(!has_key(ParamSeq::empty(), "content-type"@));
            assert(headers@ =~= seq![("content-type"@, "application/json"@)]);
        }
        if self.basic_auth.is_none() {
            let mut bearer = String::from_str("Bearer ");
            bearer.append(self.api_key.as_str());
            let ghost before = headers@;
            headers.insert(String::from_str("authorization"), bearer);
            proof {
                reveal_strlit("content-type");
                reveal_strlit("authorization");
                assert("content-type"@.len() != "authorization"@.len());
                assert(!has_key(before, "authorization"@)) by {
                    if has_key(before, "authorization"@) {
                        let i = choose|i: int|
                            0 <= i < before.len() && (#[trigger] before[i]).0 == "authorization"@;
                        assert(before[i].0 == "content-type"@);
                    }
                }
                assert(headers@ =~= header_pairs(self.key(), true));
            }
        }
        headers
    }

    /// The request that addresses `endpoint` with `payload` as the query
    /// string and without body.
    pub fn query_request(&self, method: RequestMethod, endpoint: &str, payload: &Params) -> (r:
        Request)
        ensures
            r.method == method,
            r.url@ == url_text(domain_of(self.datacenter()), version_text(), endpoint@, payload@),
            r.headers@ == header_pairs(self.key(), self.basic_user().is_none()),
            r.body is None,
            reads_as_written(payload@),
    {
        Request {
            method,
            url: self.build_url(endpoint, payload),
            headers: self.build_headers(),
            body: None,
        }
    }

    /// The request that addresses `endpoint` without query string and with
    /// the JSON text of `payload` as the body.
    pub fn body_request<P: ToJson>(&self, method: RequestMethod, endpoint: &str, payload: &P) -> (r:
        Request)
        ensures
            r.method == method,
            r.url@ == url_text(
                domain_of(self.datacenter()),
                version_text(),
                endpoint@,
                ParamSeq::empty(),
            ),
            r.headers@ == header_pairs(self.key(), self.basic_user().is_none()),
            r.body.deep_view() == Some(json_text(payload.encoding())),
    {
        Request {
            method,
            url: self.build_url(endpoint, &Params::new()),
            headers: self.build_headers(),
            body: Some(payload.to_json().print()),
        }
    }

    /// Hands a request to the transport, with the credentials for basic
    /// authentication where these are in use, and returns what the transport
    /// returns: the answer of the transport's method for the method of the
    /// request, to the URL, the headers and the body of the request.
    pub fn send(&self, request: Request) -> (r: MailchimpResult<String>)
        ensures
            self.transport().answers(
                request.method,
                request.url@,
                request.headers@,
                body_sent(request.method, request.body.deep_view()),
                self.basic_credentials(),
                r,
            ),
    {
        let Request { method, url, headers, body } = request;
        let payload = match body {
            Some(text) => text,
            None => String::new(),
        };
        match method {
            RequestMethod::Get => self.req.get(url, headers, &self.basic_auth),
            RequestMethod::Delete => self.req.delete(url, headers, &self.basic_auth),
            RequestMethod::Post => self.req.post(url, headers, payload, &self.basic_auth),
            RequestMethod::Put => self.req.put(url, headers, payload, &self.basic_auth),
            RequestMethod::Patch => self.req.patch(url, headers, payload, &self.basic_auth),
        }
    }

    /// Sends [`Api::query_request`] for `endpoint` and decodes what came
    /// back as a `T`.
    pub fn query<T: FromJson>(&self, method: RequestMethod, endpoint: &str, payload: &Params) -> (r:
        MailchimpResult<T>)
        ensures
            exists|reply: MailchimpResult<String>| #[trigger]
                is_decoding_of::<T>(reply, r) && self.answers_query(
                    method,
                    endpoint@,
                    payload@,
                    reply,
                ),
            reads_as_written(payload@),
    {
        let reply = self.send(self.query_request(method, endpoint, payload));
        let ghost seen = reply;
        let r = decode_reply::<T>(reply);
        assert(is_decoding_of::<T>(seen, r) && self.answers_query(
            method,
            endpoint@,
            payload@,
            seen,
        ));
        r
    }

    /// Sends [`Api::body_request`] for `endpoint` and decodes what came
    /// back as a `T`.
    pub fn submit<T: FromJson, P: ToJson>(
        &self,
        method: RequestMethod,
        endpoint: &str,
        payload: &P,
    ) -> (r: MailchimpResult<T>)
        ensures
            exists|reply: MailchimpResult<String>| #[trigger]
                is_decoding_of::<T>(reply, r) && self.answers_body(
                    method,
                    endpoint@,
                    json_text(payload.encoding()),
                    reply,
                ),
    {
        let reply = self.send(self.body_request(method, endpoint, payload));
        let ghost seen = reply;
        let r = decode_reply::<T>(reply);
        assert(is_decoding_of::<T>(seen, r) && self.answers_body(
            method,
            endpoint@,
            json_text(payload.encoding()),
            seen,
        ));
        r
    }

    /// `GET` on `endpoint` with `payload` as the query string; the body of
    /// the response is decoded as a `T`.
    pub fn get_edge<T: FromJson>(&self, endpoint: &str, payload: Params) -> (r: MailchimpResult<T>)
        ensures
            exists|reply: MailchimpResult<String>| #[trigger]
                is_decoding_of::<T>(reply, r) && self.answers_query(
                    RequestMethod::Get,
                    endpoint@,
                    payload@,
                    reply,
                ),
            reads_as_written(payload@),
    {
        self.query(RequestMethod::Get, endpoint, &payload)
    }

    /// `DELETE` on `endpoint` with `payload` as the query string.
    pub fn delete_edge<T: FromJson>(&self, endpoint: &str, payload: Params) -> (r: MailchimpResult<
        T,
    >)
        ensures
            exists|reply: MailchimpResult<String>| #[trigger]
                is_decoding_of::<T>(reply, r) && self.answers_query(
                    RequestMethod::Delete,
                    endpoint@,
                    payload@,
                    reply,
                ),
            reads_as_written(payload@),
    {
        self.query(RequestMethod::Delete, endpoint, &payload)
    }

    /// `POST` on `endpoint` with the JSON text of `payload` as the body.
    pub fn post_edge<T: FromJson, P: ToJson>(&self, endpoint: &str, payload: P) -> (r:
        MailchimpResult<T>)
        ensures
            exists|reply: MailchimpResult<String>| #[trigger]
                is_decoding_of::<T>(reply, r) && self.answers_body(
                    RequestMethod::Post,
                    endpoint@,
                    json_text(payload.encoding()),
                    reply,
                ),
    {
        self.submit(RequestMethod::Post, endpoint, &payload)
    }

    /// `PUT` on `endpoint` with the JSON text of `payload` as the body.
    pub fn put_edge<T: FromJson, P: ToJson>(&self, endpoint: &str, payload: P) -> (r:
        MailchimpResult<T>)
        ensures
            exists|reply: MailchimpResult<String>| #[trigger]
                is_decoding_of::<T>(reply, r) && self.answers_body(
                    RequestMethod::Put,
                    endpoint@,
                    json_text(payload.encoding()),
                    reply,
                ),
    {
        self.submit(RequestMethod::Put, endpoint, &payload)
    }

    /// `PATCH` on `endpoint` with the JSON text of `payload` as the body.
    pub fn patch_edge<T: FromJson, P: ToJson>(&self, endpoint: &str, payload: P) -> (r:
        MailchimpResult<T>)
        ensures
            exists|reply: MailchimpResult<String>| #[trigger]
                is_decoding_of::<T>(reply, r) && self.answers_body(
                    RequestMethod::Patch,
                    endpoint@,
                    json_text(payload.encoding()),
                    reply,
                ),
    {
        self.submit(RequestMethod::Patch, endpoint, &payload)
    }
}

/// The client for one account: the API core behind the operations that
/// resources and callers use.
#[derive(Debug)]
pub struct MailchimpApi<R: HttpReq> {
    i_api: Box<Api<R>>,
}

impl<R: HttpReq> MailchimpApi<R> {
    /// The datacenter of the account.
    pub closed spec fn datacenter(&self) -> Seq<char> {
        self.i_api.datacenter()
    }

    /// The API key of the account.
    pub closed spec fn key(&self) -> Seq<char> {
        self.i_api.key()
    }

    /// The user name for basic authentication, where that is the way the
    /// key is sent; `None` where the key is sent as a bearer token.
    pub closed spec fn basic_user(&self) -> Option<Seq<char>> {
        self.i_api.basic_user()
    }

    /// The transport that requests go through.
    pub closed spec fn transport(&self) -> R {
        self.i_api.transport()
    }

    /// The user name and the key for basic authentication, where that is
    /// the way the key is sent.
    pub closed spec fn basic_credentials(&self) -> Option<(Seq<char>, Seq<char>)> {
        self.i_api.basic_credentials()
    }

    /// Whether `reply` is an answer of the transport to the request that
    /// addresses `endpoint` with `params` as the query string: the URL and
    /// the headers are those that the client builds, the credentials are the
    /// client's, and there is no body but the empty one that a writing
    /// method carries.
    pub open spec fn answers_query(
        &self,
        method: RequestMethod,
        endpoint: Seq<char>,
        params: ParamSeq,
        reply: MailchimpResult<String>,
    ) -> bool {
        self.transport().answers(
            method,
            url_text(domain_of(self.datacenter()), version_text(), endpoint, params),
            header_pairs(self.key(), self.basic_user().is_none()),
            body_sent(method, None),
            self.basic_credentials(),
            reply,
        )
    }

    /// Whether `reply` is an answer of the transport to the request that
    /// addresses `endpoint` without query string and carries `body`.
    pub open spec fn answers_body(
        &self,
        method: RequestMethod,
        endpoint: Seq<char>,
        body: Seq<char>,
        reply: MailchimpResult<String>,
    ) -> bool {
        self.transport().answers(
            method,
            url_text(domain_of(self.datacenter()), version_text(), endpoint, ParamSeq::empty()),
            header_pairs(self.key(), self.basic_user().is_none()),
            body_sent(method, Some(body)),
            self.basic_credentials(),
            reply,
        )
    }

    /// Whether `reply` is an answer of the transport to the one request of
    /// a call: with `Get` and `Delete` the parameters are the query string;
    /// with the other methods they are the body, written as an object of
    /// strings.
    pub open spec fn answers_call(
        &self,
        method: RequestMethod,
        endpoint: Seq<char>,
        params: ParamSeq,
        reply: MailchimpResult<String>,
    ) -> bool {
        match method {
            RequestMethod::Get => self.answers_query(method, endpoint, params, reply),
            RequestMethod::Delete => self.answers_query(method, endpoint, params, reply),
            _ => self.answers_body(
                method,
                endpoint,
                json_text(JsonTree::Object(text_members(params))),
                reply,
            ),
        }
    }

    /// The API core of the client.
    pub fn inner(&self) -> (r: &Api<R>)
        ensures
            r.datacenter() == self.datacenter(),
            r.key() == self.key(),
            r.basic_user() == self.basic_user(),
            r.basic_credentials() == self.basic_credentials(),
            r.transport() == self.transport(),
    {
        &self.i_api
    }

    /// A client for the account with the given datacenter and API key, which
    /// sends its requests through `http_transport`.
    pub fn new(dc: &str, api_key: &str, http_transport: R) -> (r: Self)
        ensures
            r.datacenter() == dc@,
            r.key() == api_key@,
            r.basic_user().is_none(),
            r.basic_credentials().is_none(),
            r.transport() == http_transport,
    {
        MailchimpApi { i_api: Box::new(Api::new(dc, api_key, Box::new(http_transport))) }
    }

    /// A client that sends the key by HTTP basic authentication.
    pub fn with_basic_auth(dc: &str, username: &str, api_key: &str, http_transport: R) -> (r:
        Self)
        ensures
            r.datacenter() == dc@,
            r.key() == api_key@,
            r.basic_user() == Some(username@),
            r.basic_credentials() == Some((username@, api_key@)),
            r.transport() == http_transport,
    {
        MailchimpApi {
            i_api: Box::new(Api::with_basic_auth(dc, username, api_key, Box::new(http_transport))),
        }
    }

    /// The address of the service for this account's datacenter.
    pub fn domain(&self) -> (r: String)
        ensures
            r@ == domain_of(self.datacenter()),
    {
        self.i_api.domain()
    }

    /// The version of the API.
    pub fn version(&self) -> (r: String)
        ensures
            r@ == version_text(),
    {
        self.i_api.api_version()
    }

    /// One request to `endpoint`. With `Get` and `Delete` the payload is the
    /// query string; with the other methods it is the JSON body. The body of
    /// the response is decoded as a `T`.
    pub fn call<T: FromJson>(&self, method: RequestMethod, endpoint: &str, payload: Params) -> (r:
        MailchimpResult<T>)
        ensures
            exists|reply: MailchimpResult<String>| #[trigger]
                is_decoding_of::<T>(reply, r) && self.answers_call(
                    method,
                    endpoint@,
                    payload@,
                    reply,
                ),
            method == RequestMethod::Get || method == RequestMethod::Delete ==> reads_as_written(
                payload@,
            ),
    {
        match method {
            RequestMethod::Get => self.i_api.get_edge(endpoint, payload),
            RequestMethod::Post => self.i_api.post_edge(endpoint, payload),
            RequestMethod::Put => self.i_api.put_edge(endpoint, payload),
            RequestMethod::Patch => self.i_api.patch_edge(endpoint, payload),
            RequestMethod::Delete => self.i_api.delete_edge(endpoint, payload),
        }
    }

    /// An action: one request to `endpoint` without payload, of which only
    /// success or the error is of interest. The request is the one that a
    /// call with no parameters makes; what it reports is what the answer of
    /// the transport to that request stands for.
    pub fn action(&self, method: RequestMethod, endpoint: &str) -> (r: Option<MailchimpErrorType>)
        ensures
            exists|reply: MailchimpResult<String>| #[trigger]
                is_action_outcome(reply, r) && self.answers_call(
                    method,
                    endpoint@,
                    ParamSeq::empty(),
                    reply,
                ),
    {
        let done = self.call::<EmptyType>(method, endpoint, Params::new());
        proof {
            let reply = choose|reply: MailchimpResult<String>| #[trigger]
                is_decoding_of::<EmptyType>(reply, done) && self.answers_call(
                    method,
                    endpoint@,
                    ParamSeq::empty(),
                    reply,
                );
            assert(is_action_outcome(reply, reduce_spec(done)) && self.answers_call(
                method,
                endpoint@,
                ParamSeq::empty(),
                reply,
            ));
        }
        reduce(done)
    }

    /// `GET` on `endpoint` with `payload` as the query string.
    pub fn get<T: FromJson>(&self, endpoint: &str, payload: Params) -> (r: MailchimpResult<T>)
        ensures
            exists|reply: MailchimpResult<String>| #[trigger]
                is_decoding_of::<T>(reply, r) && self.answers_query(
                    RequestMethod::Get,
                    endpoint@,
                    payload@,
                    reply,
                ),
            reads_as_written(payload@),
    {
        self.i_api.get_edge(endpoint, payload)
    }

    /// `POST` on `endpoint` with the JSON text of `payload` as the body.
    pub fn post<T: FromJson, P: ToJson>(&self, endpoint: &str, payload: P) -> (r: MailchimpResult<
        T,
    >)
        ensures
            exists|reply: MailchimpResult<String>| #[trigger]
                is_decoding_of::<T>(reply, r) && self.answers_body(
                    RequestMethod::Post,
                    endpoint@,
                    json_text(payload.encoding()),
                    reply,
                ),
    {
        self.i_api.post_edge(endpoint, payload)
    }

    /// `PUT` on `endpoint` with the JSON text of `payload` as the body.
    pub fn put<T: FromJson, P: ToJson>(&self, endpoint: &str, payload: P) -> (r: MailchimpResult<
        T,
    >)
        ensures
            exists|reply: MailchimpResult<String>| #[trigger]
                is_decoding_of::<T>(reply, r) && self.answers_body(
                    RequestMethod::Put,
                    endpoint@,
                    json_text(payload.encoding()),
                    reply,
                ),
    {
        self.i_api.put_edge(endpoint, payload)
    }

    /// `PATCH` on `endpoint` with the JSON text of `payload` as the body.
    pub fn patch<T: FromJson, P: ToJson>(&self, endpoint: &str, payload: P) -> (r:
        MailchimpResult<T>)
        ensures
            exists|reply: MailchimpResult<String>| #[trigger]
                is_decoding_of::<T>(reply, r) && self.answers_body(
                    RequestMethod::Patch,
                    endpoint@,
                    json_text(payload.encoding()),
                    reply,
                ),
    {
        self.i_api.patch_edge(endpoint, payload)
    }

    /// `DELETE` on `endpoint` with `payload` as the query string.
    pub fn delete<T: FromJson>(&self, endpoint: &str, payload: Params) -> (r: MailchimpResult<T>)
        ensures
            exists|reply: MailchimpResult<String>| #[trigger]
                is_decoding_of::<T>(reply, r) && self.answers_query(
                    RequestMethod::Delete,
                    endpoint@,
                    payload@,
                    reply,
                ),
            reads_as_written(payload@),
    {
        self.i_api.delete_edge(endpoint, payload)
    }
}

} // verus!
