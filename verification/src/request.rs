//! The transport boundary: what a transport is asked to do, what it hands
//! back, and how a raw HTTP response becomes a result.

use crate::api::RequestMethod;
use crate::codec::FromJson;
use crate::error_type::MailchimpErrorType;
use crate::json::{json_parse, Json};
use crate::params::{ParamSeq, Params};
use vstd::prelude::*;

verus! {

/// The result of a call: a value, or the error that is reported for it.
pub type MailchimpResult<T> = Result<T, MailchimpErrorType>;

/// The headers of a request: header names, in lower case, with their values.
pub type HeaderSet = Params;

/// Credentials for HTTP basic authentication.
#[derive(Debug, Clone)]
pub struct BasicAuth {
    /// The user name; the service accepts any.
    pub username: String,
    /// The API key, sent as the password.
    pub api_token: String,
}

/// The user name and the key of credentials, where there are any.
pub open spec fn credentials(basic_auth: Option<BasicAuth>) -> Option<(Seq<char>, Seq<char>)> {
    match basic_auth {
        Some(auth) => Some((auth.username@, auth.api_token@)),
        None => None,
    }
}

/// A transport: something that can carry one HTTP request to the service
/// and bring back what [`MailchimpRequest::process_response`] makes of the
/// response. Nothing is promised of what a transport returns; a transport
/// that answers from canned text is as good as one that uses the network.
pub trait HttpReq {
    /// Whether `reply` is an answer of this transport to the request with
    /// the given method, URL, headers, body and credentials. A transport
    /// that says nothing of its answers admits every reply.
    open spec fn answers(
        &self,
        method: RequestMethod,
        url: Seq<char>,
        headers: ParamSeq,
        payload: Option<Seq<char>>,
        user: Option<(Seq<char>, Seq<char>)>,
        reply: MailchimpResult<String>,
    ) -> bool {
        true
    }

    /// Sends a `GET` request.
    fn get(&self, url: String, headers: HeaderSet, basic_auth: &Option<BasicAuth>) -> (r:
        MailchimpResult<String>)
        ensures
            self.answers(RequestMethod::Get, url@, headers@, None, credentials(*basic_auth), r),
    ;

    /// Sends a `POST` request with `payload` as its JSON body.
    fn post(
        &self,
        url: String,
        headers: HeaderSet,
        payload: String,
        basic_auth: &Option<BasicAuth>,
    ) -> (r: MailchimpResult<String>)
        ensures
            self.answers(
                RequestMethod::Post,
                url@,
                headers@,
                Some(payload@),
                credentials(*basic_auth),
                r,
            ),
    ;

    /// Sends a `PATCH` request with `payload` as its JSON body.
    fn patch(
        &self,
        url: String,
        headers: HeaderSet,
        payload: String,
        basic_auth: &Option<BasicAuth>,
    ) -> (r: MailchimpResult<String>)
        ensures
            self.answers(
                RequestMethod::Patch,
                url@,
                headers@,
                Some(payload@),
                credentials(*basic_auth),
                r,
            ),
    ;

    /// Sends a `PUT` request with `payload` as its JSON body.
    fn put(
        &self,
        url: String,
        headers: HeaderSet,
        payload: String,
        basic_auth: &Option<BasicAuth>,
    ) -> (r: MailchimpResult<String>)
        ensures
            self.answers(
                RequestMethod::Put,
                url@,
                headers@,
                Some(payload@),
                credentials(*basic_auth),
                r,
            ),
    ;

    /// Sends a `DELETE` request.
    fn delete(
        &self,
        url: String,
        headers: HeaderSet,
        basic_auth: &Option<BasicAuth>,
    ) -> (r: MailchimpResult<String>)
        ensures
            self.answers(RequestMethod::Delete, url@, headers@, None, credentials(*basic_auth), r),
    ;
}

/// What came back for one request.
#[derive(Debug, Clone)]
pub enum Reply {
    /// No response: the request could not be sent, or no answer arrived.
    Failed,
    /// A response, with its status code and its body where the body could
    /// be read as text.
    Answered { status: u16, body: Option<String> },
}

/// The status code of a response without content.
pub const NO_CONTENT: u16 = 204;

/// Whether `status` reports success: any code from 200 to 299.
pub open spec fn is_success(status: u16) -> bool {
    200 <= status <= 299
}

/// Whether `e` is the error that the body of a failed response stands for:
/// the record that the body decodes to, or, where the body is empty, is not
/// JSON or is no error document, the fallback error.
pub open spec fn is_error_of_body(body: Seq<char>, e: MailchimpErrorType) -> bool {
    if body.len() == 0 {
        e.is_fallback()
    } else {
        match json_parse(body) {
            Some(tree) => if MailchimpErrorType::decodable(tree) {
                MailchimpErrorType::decodes_to(tree, e)
            } else {
                e.is_fallback()
            },
            None => e.is_fallback(),
        }
    }
}

/// Whether `r` is the result that `reply` gives:
/// - no response: the fallback error;
/// - status 204: success with an empty text;
/// - another status from 200 to 299: the body, or the fallback error where
///   the body could not be read;
/// - any other status: the error that the body stands for, or the fallback
///   error where the body could not be read.
pub open spec fn is_outcome_of(reply: Reply, r: MailchimpResult<String>) -> bool {
    match reply {
        Reply::Failed => r matches Err(e) && e.is_fallback(),
        Reply::Answered { status, body } => if status == NO_CONTENT {
            r matches Ok(s) && s@.len() == 0
        } else if is_success(status) {
            match body {
                Some(t) => r matches Ok(s) && s@ == t@,
                None => r matches Err(e) && e.is_fallback(),
            }
        } else {
            match body {
                Some(t) => r matches Err(e) && is_error_of_body(t@, e),
                None => r matches Err(e) && e.is_fallback(),
            }
        },
    }
}

/// Decodes the body of a failed response.
pub fn decode_error(body: &str) -> (e: MailchimpErrorType)
    ensures
        is_error_of_body(body@, e),
{
    if body.is_empty() {
        return MailchimpErrorType::default();
    }
    match Json::parse(body) {
        Some(json) => match MailchimpErrorType::from_json(&json) {
            Some(e) => e,
            None => MailchimpErrorType::default(),
        },
        None => MailchimpErrorType::default(),
    }
}

/// The part of the default transport that decides: it turns what came back
/// for a request into the result of the call.
#[derive(Debug, Clone)]
pub struct MailchimpRequest {}

impl MailchimpRequest {
    /// A new instance.
    pub fn new() -> (r: Self) {
        MailchimpRequest {  }
    }

    /// The result that a reply gives. A failed call is reported once, as an
    /// error; nothing is retried.
    pub fn process_response(&self, response: Reply) -> (r: MailchimpResult<String>)
        ensures
            is_outcome_of(response, r),
    {
        match response {
            Reply::Failed => Err(MailchimpErrorType::default()),
            Reply::Answered { status, body } => {
                if status == NO_CONTENT {
                    Ok(String::new())
                } else if 200 <= status && status <= 299 {
                    match body {
                        Some(text) => Ok(text),
                        None => Err(MailchimpErrorType::default()),
                    }
                } else {
                    match body {
                        Some(text) => Err(decode_error(text.as_str())),
                        None => Err(MailchimpErrorType::default()),
                    }
                }
            },
        }
    }
}

} // verus!
