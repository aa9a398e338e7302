//! The device profile that points client devices at the responder, and the
//! custom-resource protocol under which it is published.
//!
//! A deployment asks for the profile to be created, updated or deleted. The
//! profile is a template in which two markers are filled in, and it is stored
//! under a fixed name. The deployment is told whether that went well.

use crate::text::{replace_all, spec_replace};
use vstd::prelude::*;
use vstd::string::*;

verus! {

/// What a deployment asks for.
#[derive(Debug, Clone, Copy, PartialEq, Eq, Structural)]
pub enum RequestType {
    Create,
    Update,
    Delete,
}

/// What is done with the stored profile.
#[derive(Debug, Clone, Copy, PartialEq, Eq, Structural)]
pub enum Action {
    /// Render the profile and store it.
    Put,
    /// Remove the stored profile.
    Delete,
}

/// A request of the deployment.
#[derive(Debug, Clone)]
pub struct CloudFormationRequest {
    pub request_id: String,
    pub request_type: RequestType,
    /// Where the response is to be sent.
    pub response_url: String,
    pub resource_type: String,
    pub logical_resource_id: String,
    pub stack_id: String,
    pub physical_resource_id: Option<String>,
    /// The version to write into the profile.
    pub version: String,
}

/// Whether a request was carried out.
#[derive(Debug, Clone, Copy, PartialEq, Eq, Structural)]
pub enum ResponseStatus {
    Success,
    Failed,
}

/// The response to a request of the deployment.
#[derive(Debug, Clone)]
pub struct CloudFormationResponse {
    pub status: ResponseStatus,
    /// Why the request failed; `None` where it did not.
    pub reason: Option<String>,
    pub physical_resource_id: String,
    pub stack_id: String,
    pub request_id: String,
    pub logical_resource_id: String,
    pub no_echo: Option<bool>,
}

/// What a [`CloudFormationResponse`] is to a contract.
pub ghost struct CloudFormationResponseView {
    pub status: ResponseStatus,
    pub reason: Option<Seq<char>>,
    pub physical_resource_id: Seq<char>,
    pub stack_id: Seq<char>,
    pub request_id: Seq<char>,
    pub logical_resource_id: Seq<char>,
    pub no_echo: Option<bool>,
}

impl View for CloudFormationResponse {
    type V = CloudFormationResponseView;

    open spec fn view(&self) -> CloudFormationResponseView {
        CloudFormationResponseView {
            status: self.status,
            reason: match self.reason {
                Some(text) => Some(text@),
                None => None,
            },
            physical_resource_id: self.physical_resource_id@,
            stack_id: self.stack_id@,
            request_id: self.request_id@,
            logical_resource_id: self.logical_resource_id@,
            no_echo: self.no_echo,
        }
    }
}

/// The name under which the profile is stored, which is also the physical id
/// of the resource.
pub fn mobile_config_filename() -> (name: &'static str)
    ensures
        name@ == "dns.mobileconfig"@,
{
    "dns.mobileconfig"
}

/// The content type under which the profile is stored.
pub fn mobile_config_content_type() -> (content_type: &'static str)
    ensures
        content_type@ == "application/x-apple-aspen-config"@,
{
    "application/x-apple-aspen-config"
}

/// What is done for a request of the given type: the profile is stored anew
/// when it is created and when it is updated, and removed when it is deleted.
pub open spec fn spec_plan(request_type: RequestType) -> Action {
    match request_type {
        RequestType::Create => Action::Put,
        RequestType::Update => Action::Put,
        RequestType::Delete => Action::Delete,
    }
}

/// What is to be done for a request of the given type.
pub fn plan(request_type: RequestType) -> (action: Action)
    ensures
        action == spec_plan(request_type),
{
    match request_type {
        RequestType::Create => Action::Put,
        RequestType::Update => Action::Put,
        RequestType::Delete => Action::Delete,
    }
}

/// The profile that a template gives: every `##RESOLVER_URL##` replaced by
/// the URL, and then every `##VERSION##` by the version.
pub open spec fn spec_render_profile(template: Seq<char>, resolver_url: Seq<char>, version: Seq<char>) -> Seq<char> {
    spec_replace(spec_replace(template, "##RESOLVER_URL##"@, resolver_url), "##VERSION##"@, version)
}

/// Fills in the template of the profile: the URL of the responder for every
/// `##RESOLVER_URL##`, and then the version for every `##VERSION##`.
pub fn render_profile(template: &str, resolver_url: &str, version: &str) -> (profile: String)
    ensures
        profile@ == spec_render_profile(template@, resolver_url@, version@),
{
    let with_url = replace_all(template, "##RESOLVER_URL##", resolver_url);
    replace_all(with_url.as_str(), "##VERSION##", version)
}

/// The response to `request` with the given status and reason.
pub open spec fn spec_cloudformation_response(
    request: CloudFormationRequest,
    physical_resource_id: Seq<char>,
    status: ResponseStatus,
    reason: Option<Seq<char>>,
) -> CloudFormationResponseView {
    CloudFormationResponseView {
        status,
        reason,
        physical_resource_id,
        stack_id: request.stack_id@,
        request_id: request.request_id@,
        logical_resource_id: request.logical_resource_id@,
        no_echo: None,
    }
}

/// The response that tells the deployment that `request` was carried out.
pub fn success_response(request: &CloudFormationRequest, physical_resource_id: &str) -> (response:
    CloudFormationResponse)
    ensures
        response@ == spec_cloudformation_response(*request, physical_resource_id@, ResponseStatus::Success, None),
{
    CloudFormationResponse {
        status: ResponseStatus::Success,
        reason: None,
        physical_resource_id: String::from_str(physical_resource_id),
        stack_id: request.stack_id.clone(),
        request_id: request.request_id.clone(),
        logical_resource_id: request.logical_resource_id.clone(),
        no_echo: None,
    }
}

/// The response that tells the deployment that `request` failed, and why.
pub fn failure_response(request: &CloudFormationRequest, physical_resource_id: &str, reason: &str) -> (response:
    CloudFormationResponse)
    ensures
        response@ == spec_cloudformation_response(*request, physical_resource_id@, ResponseStatus::Failed, Some(reason@)),
{
    CloudFormationResponse {
        status: ResponseStatus::Failed,
        reason: Some(String::from_str(reason)),
        physical_resource_id: String::from_str(physical_resource_id),
        stack_id: request.stack_id.clone(),
        request_id: request.request_id.clone(),
        logical_resource_id: request.logical_resource_id.clone(),
        no_echo: None,
    }
}

/// The response to `request` once it was handled: success where `failure` is
/// `None`, and else a failure with that reason. The physical id is the name
/// of the stored profile.
pub fn report(request: &CloudFormationRequest, failure: &Option<String>) -> (response: CloudFormationResponse)
    ensures
        response@ == spec_cloudformation_response(
            *request,
            "dns.mobileconfig"@,
            if failure is Some {
                ResponseStatus::Failed
            } else {
                ResponseStatus::Success
            },
            match *failure {
                Some(reason) => Some(reason@),
                None => None,
            },
        ),
{
    match failure {
        None => success_response(request, mobile_config_filename()),
        Some(reason) => failure_response(request, mobile_config_filename(), reason.as_str()),
    }
}

} // verus!
