//! Helpers shared by the commands: uniform answers and the errors and
//! contexts of failed commands.

use vstd::prelude::*;
use crate::commands::ServiceResponse;
use crate::error::{opt_view, MindLinkError, MindLinkResult};
use crate::error_reporter::ErrorContext;
use crate::logging::{new_uuid, uuid_text};
use crate::text::{cat2, cat3, opt_text, owned};

verus! {

broadcast use vstd::string::group_string_axioms;

/// A successful answer with a message and the addresses involved.
pub fn success_response(message: &str, server_url: Option<String>, tunnel_url: Option<String>) -> (res: ServiceResponse)
    ensures
        res.with_urls(true, message@, opt_text(server_url), opt_text(tunnel_url)),
{
    ServiceResponse { success: true, message: Some(owned(message)), server_url, tunnel_url, auth_url: None }
}

/// A failed answer with a message and no addresses.
pub fn error_response(message: &str) -> (res: ServiceResponse)
    ensures
        res.plain(false, message@),
{
    ServiceResponse::with_message(false, owned(message))
}

/// The value of a required field, or the failed answer naming the missing
/// field.
pub fn validate_input<T>(input: Option<T>, field_name: &str) -> (res: Result<T, ServiceResponse>)
    ensures
        match input {
            Some(v) => res matches Ok(w) && w == v,
            None => res matches Err(r) && r.plain(false, "Missing required field: "@ + field_name@),
        },
{
    match input {
        Some(v) => Ok(v),
        None => Err(ServiceResponse::with_message(false, cat2("Missing required field: ", field_name))),
    }
}

/// What a health check of `service_name` gave: healthy, or the failed
/// answer saying it is not, or that the check itself failed.
pub fn check_service_health(service_name: &str, result: MindLinkResult<bool>) -> (res: Result<bool, ServiceResponse>)
    ensures
        match result {
            Ok(true) => res == Ok::<bool, ServiceResponse>(true),
            Ok(false) => res matches Err(r) && r.plain(false, service_name@ + " service is not healthy"@),
            Err(e) => res matches Err(r) && r.plain(false, service_name@ + " health check failed: "@ + e.user_text()),
        },
{
    match result {
        Ok(true) => Ok(true),
        Ok(false) => Err(ServiceResponse::with_message(false, cat2(service_name, " service is not healthy"))),
        Err(e) => {
            let m = e.user_message();
            Err(ServiceResponse::with_message(false, cat3(service_name, " health check failed: ", m.as_str())))
        },
    }
}

/// Builds the errors and contexts of failed commands.
pub struct CommandErrorHandler;

impl CommandErrorHandler {
    /// The context a failed command is reported with.
    pub fn context_with_id(component: &str, operation: &str, user_action: Option<&str>, correlation_id: String) -> (res: ErrorContext)
        ensures
            res.component@ == component@,
            res.operation@ == operation@,
            opt_view(res.user_action) == match user_action { Some(a) => Some(a@), None => None },
            opt_view(res.correlation_id) == Some(correlation_id@),
            res.additional_info@ == Map::<Seq<char>, String>::empty(),
    {
        let action = match user_action {
            Some(a) => Some(owned(a)),
            None => None,
        };
        ErrorContext::new(component, operation, action, Some(correlation_id))
    }

    /// The context a failed command is reported with, under a fresh random
    /// correlation id: `None` when the random source fails.
    pub fn context(component: &str, operation: &str, user_action: Option<&str>) -> (res: Option<ErrorContext>)
        ensures
            res matches Some(c) ==> {
                &&& c.component@ == component@
                &&& c.operation@ == operation@
                &&& opt_view(c.user_action) == match user_action { Some(a) => Some(a@), None => None }
                &&& c.correlation_id matches Some(id) && uuid_text(id@)
                &&& c.additional_info@ == Map::<Seq<char>, String>::empty()
            },
    {
        match new_uuid() {
            Some(id) => Some(Self::context_with_id(component, operation, user_action, id)),
            None => None,
        }
    }

    /// The answer to a failed command: the error's message for the user.
    pub fn failure_response(error: &MindLinkError) -> (res: ServiceResponse)
        ensures
            res.plain(false, error.user_text()),
    {
        ServiceResponse::failure(error)
    }

    /// A failed sign-in, reported under `Authentication` for the `login`
    /// action.
    pub fn auth_error(source: anyhow::Error) -> (res: (MindLinkError, &'static str, &'static str))
        ensures
            res.0.is_auth("Authentication failed"@, Some(source)),
            res.1@ == "Authentication"@,
            res.2@ == "login"@,
    {
        (MindLinkError::Authentication { message: owned("Authentication failed"), source: Some(source) },
            "Authentication", "login")
    }

    /// A failed network operation on `url` if known, reported under `Network`
    /// for the `network_operation` action.
    pub fn network_error(source: anyhow::Error, url: Option<&str>) -> (res: (MindLinkError, &'static str, &'static str))
        ensures
            res.0.is_network("Network connection failed"@, match url { Some(u) => Some(u@), None => None }, Some(source)),
            res.1@ == "Network"@,
            res.2@ == "network_operation"@,
    {
        let u = match url {
            Some(u) => Some(owned(u)),
            None => None,
        };
        (MindLinkError::Network { message: owned("Network connection failed"), url: u, source: Some(source) },
            "Network", "network_operation")
    }

    /// A helper binary that failed to run, reported under its own name for
    /// the `start_service` action.
    pub fn binary_error(source: anyhow::Error, binary_name: &str, binary_path: Option<&str>) -> (res: (MindLinkError, &'static str))
        ensures
            res.0.is_binary("Failed to execute "@ + binary_name@, binary_name@,
                match binary_path { Some(p) => Some(p@), None => None }, Some(source)),
            res.1@ == "start_service"@,
    {
        let p = match binary_path {
            Some(p) => Some(owned(p)),
            None => None,
        };
        (MindLinkError::BinaryExecution {
            message: cat2("Failed to execute ", binary_name),
            binary_name: owned(binary_name),
            binary_path: p,
            source: Some(source),
        }, "start_service")
    }
}

} // verus!
