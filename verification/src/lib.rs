//! A typed client core for the Mailchimp marketing REST service: URL and
//! header building, the request/response pipeline with structured error
//! decoding, JSON record decoding, and cursor-based pagination.

pub mod api;
pub mod automation_workflow_resource;
pub mod codec;
pub mod decimal;
pub mod encode;
pub mod error_type;
pub mod iter;
pub mod json;
pub mod laws;
pub mod params;
pub mod request;
pub mod round_trip;
pub mod text;
pub mod types;

pub use crate::api::{Api, MailchimpApi, Request, RequestMethod};
pub use crate::automation_workflow_resource::{
    AutomationWorkflowResource, AutomationWorkflowResources,
};
pub use crate::error_type::MailchimpErrorType;
pub use crate::params::Params;
pub use crate::request::{BasicAuth, HeaderSet, HttpReq, MailchimpRequest, MailchimpResult, Reply};
