//! Application error type with user-facing messages and recovery advice.

use vstd::prelude::*;
use crate::text::{cat2, cat3, cat4, cat5, contains, occurs_in, lowercase, owned, to_lowercase, views};

verus! {

/// `anyhow::Error`, carried as the underlying cause of an application error.
#[verifier::external_type_specification]
#[verifier::external_body]
pub struct ExAnyhowError(anyhow::Error);

/// The texts of the errors of a cause chain, from `anyhow::Error::chain`,
/// each written with `to_string`.  The chain begins with the error itself
/// (`Chain::new` starts at the error the object was created from, and
/// `Display` for `anyhow::Error` writes that same error), so the first text
/// is what `to_string` gives for `e`, and there is always one.  The texts of
/// the deeper causes come from their own `Display` impls and are not stated.
#[verifier::external_body]
fn cause_chain(e: &anyhow::Error) -> (res: Vec<String>)
    ensures
        res@.len() >= 1,
        vstd::string::to_string_from_display_ensures::<anyhow::Error>(e, res@[0]),
{
    e.chain().map(|c| c.to_string()).collect()
}

/// Texts joined with `: ` between them, as a cause chain is written.
pub open spec fn colon_joined(parts: Seq<Seq<char>>) -> Seq<char>
    decreases parts.len(),
{
    if parts.len() == 0 {
        Seq::empty()
    } else if parts.len() == 1 {
        parts[0]
    } else {
        colon_joined(parts.drop_last()) + ": "@ + parts.last()
    }
}

fn join_causes(parts: &Vec<String>) -> (res: String)
    ensures
        res@ == colon_joined(views(parts@)),
{
    let mut text = String::new();
    let mut i: usize = 0;
    while i < parts.len()
        invariant
            i <= parts.len(),
            text@ == colon_joined(views(parts@).take(i as int)),
        decreases parts.len() - i,
    {
        proof {
            assert(views(parts@).take(i as int + 1).drop_last() =~= views(parts@).take(i as int));
            assert(views(parts@).take(i as int + 1).last() == parts@[i as int]@);
            if i == 0 {
                assert(views(parts@).take(0) =~= Seq::<Seq<char>>::empty());
            }
        }
        if i > 0 {
            text.append(": ");
        }
        text.append(parts[i].as_str());
        i = i + 1;
    }
    assert(views(parts@).take(parts.len() as int) =~= views(parts@));
    text
}

/// Main application error type: each variant carries a message for the user,
/// the context it arose in, and optionally the underlying cause.
pub enum MindLinkError {
    Authentication { message: String, source: Option<anyhow::Error> },
    Network { message: String, url: Option<String>, source: Option<anyhow::Error> },
    BinaryExecution {
        message: String,
        binary_name: String,
        binary_path: Option<String>,
        source: Option<anyhow::Error>,
    },
    Configuration { message: String, config_key: Option<String>, source: Option<anyhow::Error> },
    FileSystem {
        message: String,
        path: Option<String>,
        operation: String,
        source: Option<anyhow::Error>,
    },
    ProcessMonitoring {
        message: String,
        process_name: String,
        pid: Option<u32>,
        source: Option<anyhow::Error>,
    },
    HealthCheck {
        message: String,
        service_name: String,
        url: Option<String>,
        source: Option<anyhow::Error>,
    },
    Tunnel {
        message: String,
        tunnel_type: Option<String>,
        local_port: Option<u16>,
        source: Option<anyhow::Error>,
    },
    SystemResource { message: String, resource_type: String, source: Option<anyhow::Error> },
    Internal { message: String, component: Option<String>, source: Option<anyhow::Error> },
}

/// Result type of the library's fallible operations.
pub type MindLinkResult<T> = Result<T, MindLinkError>;

/// The view of an optional string.
pub open spec fn opt_view(o: Option<String>) -> Option<Seq<char>> {
    match o {
        Some(s) => Some(s@),
        None => None,
    }
}

impl MindLinkError {
    /// The underlying cause every variant may carry.
    pub open spec fn source_of(self) -> Option<anyhow::Error> {
        match self {
            MindLinkError::Authentication { source, .. } => source,
            MindLinkError::Network { source, .. } => source,
            MindLinkError::BinaryExecution { source, .. } => source,
            MindLinkError::Configuration { source, .. } => source,
            MindLinkError::FileSystem { source, .. } => source,
            MindLinkError::ProcessMonitoring { source, .. } => source,
            MindLinkError::HealthCheck { source, .. } => source,
            MindLinkError::Tunnel { source, .. } => source,
            MindLinkError::SystemResource { source, .. } => source,
            MindLinkError::Internal { source, .. } => source,
        }
    }

    /// The one-line description of the error (its `Display` text).
    pub open spec fn display_text(self) -> Seq<char> {
        match self {
            MindLinkError::Authentication { message, .. } => "Authentication failed: "@ + message@,
            MindLinkError::Network { message, .. } => "Network connection failed: "@ + message@,
            MindLinkError::BinaryExecution { message, .. } =>
                "Binary not found or failed to start: "@ + message@,
            MindLinkError::Configuration { message, .. } => "Configuration error: "@ + message@,
            MindLinkError::FileSystem { message, .. } => "File system operation failed: "@ + message@,
            MindLinkError::ProcessMonitoring { message, .. } => "Process monitoring failed: "@ + message@,
            MindLinkError::HealthCheck { message, .. } => "Service health check failed: "@ + message@,
            MindLinkError::Tunnel { message, .. } => "Tunnel operation failed: "@ + message@,
            MindLinkError::SystemResource { message, .. } => "System resource unavailable: "@ + message@,
            MindLinkError::Internal { message, .. } => "Internal application error: "@ + message@,
        }
    }

    /// `causes` is a cause chain of the error, as `cause_chain` gives it:
    /// with an underlying cause, at least one text, the first being what
    /// `to_string` gives for that cause.
    pub open spec fn causes_of(self, causes: Seq<String>) -> bool {
        match self.source_of() {
            None => true,
            Some(e) => causes.len() >= 1
                && vstd::string::to_string_from_display_ensures::<anyhow::Error>(&e, causes[0]),
        }
    }

    /// The technical description for logs: the one-line description,
    /// followed, when there is an underlying cause, by its chain of causes
    /// `causes`.
    pub open spec fn technical_text(self, causes: Seq<Seq<char>>) -> Seq<char> {
        match self.source_of() {
            None => self.display_text(),
            Some(_) => self.display_text() + " (caused by: "@ + colon_joined(causes) + ")"@,
        }
    }

    /// The user-facing message for the error, as shown in dialogs.
    pub open spec fn user_text(self) -> Seq<char> {
        match self {
            MindLinkError::Authentication { message, .. } => "Authentication Error: "@ + message@,
            MindLinkError::Network { message, url, .. } => match url {
                Some(u) => "Connection failed to "@ + u@ + ": "@ + message@,
                None => "Network Error: "@ + message@,
            },
            MindLinkError::BinaryExecution { message, binary_name, .. } =>
                "Program Error: "@ + binary_name@ + " failed to start - "@ + message@,
            MindLinkError::Configuration { message, config_key, .. } => match config_key {
                Some(k) => "Configuration Error: Issue with '"@ + k@ + "' - "@ + message@,
                None => "Configuration Error: "@ + message@,
            },
            MindLinkError::FileSystem { message, operation, .. } =>
                "File Error: Failed to "@ + operation@ + " - "@ + message@,
            MindLinkError::ProcessMonitoring { message, process_name, .. } =>
                "Service Error: "@ + process_name@ + " monitoring failed - "@ + message@,
            MindLinkError::HealthCheck { message, service_name, .. } =>
                "Service Health: "@ + service_name@ + " is not responding - "@ + message@,
            MindLinkError::Tunnel { message, .. } => "Tunnel Error: "@ + message@,
            MindLinkError::SystemResource { message, resource_type, .. } =>
                "System Error: "@ + resource_type@ + " unavailable - "@ + message@,
            MindLinkError::Internal { message, component, .. } => match component {
                Some(c) => "Internal Error in "@ + c@ + ": "@ + message@,
                None => "Internal Error: "@ + message@,
            },
        }
    }

    /// Whether the user can retry the operation that failed.
    pub open spec fn recoverable(self) -> bool {
        match self {
            MindLinkError::Authentication { .. } => true,
            MindLinkError::Network { .. } => true,
            MindLinkError::BinaryExecution { .. } => false,
            MindLinkError::Configuration { .. } => false,
            MindLinkError::FileSystem { .. } => true,
            MindLinkError::ProcessMonitoring { .. } => true,
            MindLinkError::HealthCheck { .. } => true,
            MindLinkError::Tunnel { .. } => true,
            MindLinkError::SystemResource { .. } => true,
            MindLinkError::Internal { .. } => false,
        }
    }

    /// The action suggested to the user for the error.
    pub open spec fn advice(self) -> Seq<char> {
        match self {
            MindLinkError::Authentication { .. } =>
                "Please try logging in again or check your credentials."@,
            MindLinkError::Network { .. } => "Check your internet connection and try again."@,
            MindLinkError::BinaryExecution { binary_name, .. } =>
                "Please reinstall "@ + binary_name@ + " or contact support."@,
            MindLinkError::Configuration { config_key, .. } => match config_key {
                Some(k) => "Please check your "@ + k@ + " configuration setting."@,
                None => "Please check your application settings."@,
            },
            MindLinkError::FileSystem { operation, .. } =>
                "Please ensure you have permission to "@ + operation@ + " files and try again."@,
            MindLinkError::ProcessMonitoring { process_name, .. } =>
                "Restart "@ + process_name@ + " service or contact support if the problem persists."@,
            MindLinkError::HealthCheck { service_name, .. } =>
                "Restart the "@ + service_name@ + " service and try again."@,
            MindLinkError::Tunnel { .. } =>
                "Check your network connection and try creating the tunnel again."@,
            MindLinkError::SystemResource { resource_type, .. } =>
                "Ensure "@ + resource_type@ + " is available and try again."@,
            MindLinkError::Internal { .. } => "Please restart the application or contact support."@,
        }
    }

    /// Get a user-friendly error message that can be displayed in dialogs.
    pub fn user_message(&self) -> (res: String)
        ensures
            res@ == self.user_text(),
    {
        match self {
            MindLinkError::Authentication { message, .. } => cat2("Authentication Error: ", message.as_str()),
            MindLinkError::Network { message, url, .. } => match url {
                Some(u) => cat4("Connection failed to ", u.as_str(), ": ", message.as_str()),
                None => cat2("Network Error: ", message.as_str()),
            },
            MindLinkError::BinaryExecution { message, binary_name, .. } =>
                cat4("Program Error: ", binary_name.as_str(), " failed to start - ", message.as_str()),
            MindLinkError::Configuration { message, config_key, .. } => match config_key {
                Some(k) => cat4("Configuration Error: Issue with '", k.as_str(), "' - ", message.as_str()),
                None => cat2("Configuration Error: ", message.as_str()),
            },
            MindLinkError::FileSystem { message, operation, .. } =>
                cat4("File Error: Failed to ", operation.as_str(), " - ", message.as_str()),
            MindLinkError::ProcessMonitoring { message, process_name, .. } =>
                cat4("Service Error: ", process_name.as_str(), " monitoring failed - ", message.as_str()),
            MindLinkError::HealthCheck { message, service_name, .. } =>
                cat4("Service Health: ", service_name.as_str(), " is not responding - ", message.as_str()),
            MindLinkError::Tunnel { message, .. } => cat2("Tunnel Error: ", message.as_str()),
            MindLinkError::SystemResource { message, resource_type, .. } =>
                cat4("System Error: ", resource_type.as_str(), " unavailable - ", message.as_str()),
            MindLinkError::Internal { message, component, .. } => match component {
                Some(c) => cat4("Internal Error in ", c.as_str(), ": ", message.as_str()),
                None => cat2("Internal Error: ", message.as_str()),
            },
        }
    }

    /// Get technical details for logging, including the source error chain:
    /// the one-line description, then, when there is an underlying cause,
    /// ` (caused by: ` with the texts of its cause chain joined by `: `, and
    /// `)`.
    pub fn technical_details(&self) -> (res: String)
        ensures
            exists|causes: Seq<String>| #[trigger] self.causes_of(causes)
                && res@ == self.technical_text(views(causes)),
    {
        let base = self.description();
        match self.source() {
            None => {
                assert(self.causes_of(Seq::<String>::empty()));
                base
            },
            Some(src) => {
                let chain = cause_chain(src);
                let joined = join_causes(&chain);
                let mut text = base;
                text.append(" (caused by: ");
                text.append(joined.as_str());
                text.append(")");
                assert(self.causes_of(chain@));
                text
            },
        }
    }

    /// The one-line description of the error (what `Display` writes for it).
    pub fn description(&self) -> (res: String)
        ensures
            res@ == self.display_text(),
    {
        match self {
            MindLinkError::Authentication { message, .. } => cat2("Authentication failed: ", message.as_str()),
            MindLinkError::Network { message, .. } => cat2("Network connection failed: ", message.as_str()),
            MindLinkError::BinaryExecution { message, .. } =>
                cat2("Binary not found or failed to start: ", message.as_str()),
            MindLinkError::Configuration { message, .. } => cat2("Configuration error: ", message.as_str()),
            MindLinkError::FileSystem { message, .. } =>
                cat2("File system operation failed: ", message.as_str()),
            MindLinkError::ProcessMonitoring { message, .. } =>
                cat2("Process monitoring failed: ", message.as_str()),
            MindLinkError::HealthCheck { message, .. } =>
                cat2("Service health check failed: ", message.as_str()),
            MindLinkError::Tunnel { message, .. } => cat2("Tunnel operation failed: ", message.as_str()),
            MindLinkError::SystemResource { message, .. } =>
                cat2("System resource unavailable: ", message.as_str()),
            MindLinkError::Internal { message, .. } => cat2("Internal application error: ", message.as_str()),
        }
    }

    /// Get the source error if available.
    pub fn source(&self) -> (res: Option<&anyhow::Error>)
        ensures
            res is Some <==> self.source_of() is Some,
            res is Some ==> *res->0 == self.source_of()->0,
    {
        match self {
            MindLinkError::Authentication { source, .. } => source.as_ref(),
            MindLinkError::Network { source, .. } => source.as_ref(),
            MindLinkError::BinaryExecution { source, .. } => source.as_ref(),
            MindLinkError::Configuration { source, .. } => source.as_ref(),
            MindLinkError::FileSystem { source, .. } => source.as_ref(),
            MindLinkError::ProcessMonitoring { source, .. } => source.as_ref(),
            MindLinkError::HealthCheck { source, .. } => source.as_ref(),
            MindLinkError::Tunnel { source, .. } => source.as_ref(),
            MindLinkError::SystemResource { source, .. } => source.as_ref(),
            MindLinkError::Internal { source, .. } => source.as_ref(),
        }
    }

    /// Check if this error is recoverable (user can retry).
    pub fn is_recoverable(&self) -> (res: bool)
        ensures
            res == self.recoverable(),
    {
        match self {
            MindLinkError::Authentication { .. } => true,
            MindLinkError::Network { .. } => true,
            MindLinkError::BinaryExecution { .. } => false,
            MindLinkError::Configuration { .. } => false,
            MindLinkError::FileSystem { .. } => true,
            MindLinkError::ProcessMonitoring { .. } => true,
            MindLinkError::HealthCheck { .. } => true,
            MindLinkError::Tunnel { .. } => true,
            MindLinkError::SystemResource { .. } => true,
            MindLinkError::Internal { .. } => false,
        }
    }

    /// Get the suggested action for the user; every error has one.
    pub fn suggested_action(&self) -> (res: Option<String>)
        ensures
            res is Some,
            res->0@ == self.advice(),
    {
        match self {
            MindLinkError::Authentication { .. } =>
                Some(owned("Please try logging in again or check your credentials.")),
            MindLinkError::Network { .. } => Some(owned("Check your internet connection and try again.")),
            MindLinkError::BinaryExecution { binary_name, .. } =>
                Some(cat3("Please reinstall ", binary_name.as_str(), " or contact support.")),
            MindLinkError::Configuration { config_key, .. } => match config_key {
                Some(k) => Some(cat3("Please check your ", k.as_str(), " configuration setting.")),
                None => Some(owned("Please check your application settings.")),
            },
            MindLinkError::FileSystem { operation, .. } =>
                Some(cat3("Please ensure you have permission to ", operation.as_str(), " files and try again.")),
            MindLinkError::ProcessMonitoring { process_name, .. } =>
                Some(cat3("Restart ", process_name.as_str(), " service or contact support if the problem persists.")),
            MindLinkError::HealthCheck { service_name, .. } =>
                Some(cat3("Restart the ", service_name.as_str(), " service and try again.")),
            MindLinkError::Tunnel { .. } =>
                Some(owned("Check your network connection and try creating the tunnel again.")),
            MindLinkError::SystemResource { resource_type, .. } =>
                Some(cat3("Ensure ", resource_type.as_str(), " is available and try again.")),
            MindLinkError::Internal { .. } => Some(owned("Please restart the application or contact support.")),
        }
    }
}


impl MindLinkError {
    /// The same error without its underlying cause (causes cannot be copied).
    pub open spec fn without_source(self) -> MindLinkError {
        match self {
            MindLinkError::Authentication { message, .. } =>
                MindLinkError::Authentication { message, source: None },
            MindLinkError::Network { message, url, .. } =>
                MindLinkError::Network { message, url, source: None },
            MindLinkError::BinaryExecution { message, binary_name, binary_path, .. } =>
                MindLinkError::BinaryExecution { message, binary_name, binary_path, source: None },
            MindLinkError::Configuration { message, config_key, .. } =>
                MindLinkError::Configuration { message, config_key, source: None },
            MindLinkError::FileSystem { message, path, operation, .. } =>
                MindLinkError::FileSystem { message, path, operation, source: None },
            MindLinkError::ProcessMonitoring { message, process_name, pid, .. } =>
                MindLinkError::ProcessMonitoring { message, process_name, pid, source: None },
            MindLinkError::HealthCheck { message, service_name, url, .. } =>
                MindLinkError::HealthCheck { message, service_name, url, source: None },
            MindLinkError::Tunnel { message, tunnel_type, local_port, .. } =>
                MindLinkError::Tunnel { message, tunnel_type, local_port, source: None },
            MindLinkError::SystemResource { message, resource_type, .. } =>
                MindLinkError::SystemResource { message, resource_type, source: None },
            MindLinkError::Internal { message, component, .. } =>
                MindLinkError::Internal { message, component, source: None },
        }
    }
}

impl MindLinkError {
    /// An authentication error with exactly these fields.
    pub open spec fn is_auth(self, message: Seq<char>, source: Option<anyhow::Error>) -> bool {
        self matches MindLinkError::Authentication { message: m, source: s } && m@ == message && s == source
    }

    /// A network error with exactly these fields.
    pub open spec fn is_network(self, message: Seq<char>, url: Option<Seq<char>>, source: Option<anyhow::Error>) -> bool {
        self matches MindLinkError::Network { message: m, url: u, source: s }
            && m@ == message && opt_view(u) == url && s == source
    }

    /// A binary execution error with exactly these fields.
    pub open spec fn is_binary(
        self,
        message: Seq<char>,
        binary_name: Seq<char>,
        binary_path: Option<Seq<char>>,
        source: Option<anyhow::Error>,
    ) -> bool {
        self matches MindLinkError::BinaryExecution { message: m, binary_name: b, binary_path: p, source: s }
            && m@ == message && b@ == binary_name && opt_view(p) == binary_path && s == source
    }

    /// A configuration error with exactly these fields.
    pub open spec fn is_config(self, message: Seq<char>, config_key: Option<Seq<char>>, source: Option<anyhow::Error>) -> bool {
        self matches MindLinkError::Configuration { message: m, config_key: k, source: s }
            && m@ == message && opt_view(k) == config_key && s == source
    }

    /// A file system error with exactly these fields.
    pub open spec fn is_file_system(
        self,
        message: Seq<char>,
        path: Option<Seq<char>>,
        operation: Seq<char>,
        source: Option<anyhow::Error>,
    ) -> bool {
        self matches MindLinkError::FileSystem { message: m, path: p, operation: o, source: s }
            && m@ == message && opt_view(p) == path && o@ == operation && s == source
    }

    /// A process monitoring error with exactly these fields.
    pub open spec fn is_process(
        self,
        message: Seq<char>,
        process_name: Seq<char>,
        pid: Option<u32>,
        source: Option<anyhow::Error>,
    ) -> bool {
        self matches MindLinkError::ProcessMonitoring { message: m, process_name: n, pid: p, source: s }
            && m@ == message && n@ == process_name && p == pid && s == source
    }

    /// A tunnel error with exactly these fields.
    pub open spec fn is_tunnel(
        self,
        message: Seq<char>,
        tunnel_type: Option<Seq<char>>,
        local_port: Option<u16>,
        source: Option<anyhow::Error>,
    ) -> bool {
        self matches MindLinkError::Tunnel { message: m, tunnel_type: t, local_port: p, source: s }
            && m@ == message && opt_view(t) == tunnel_type && p == local_port && s == source
    }

    /// A system resource error with exactly these fields.
    pub open spec fn is_resource(self, message: Seq<char>, resource_type: Seq<char>, source: Option<anyhow::Error>) -> bool {
        self matches MindLinkError::SystemResource { message: m, resource_type: r, source: s }
            && m@ == message && r@ == resource_type && s == source
    }

    /// An internal error with exactly these fields.
    pub open spec fn is_internal(self, message: Seq<char>, component: Option<Seq<char>>, source: Option<anyhow::Error>) -> bool {
        self matches MindLinkError::Internal { message: m, component: c, source: s }
            && m@ == message && opt_view(c) == component && s == source
    }
}

impl Clone for MindLinkError {
    /// Copies every field but the underlying cause, which is left empty.
    fn clone(&self) -> (res: Self)
        ensures
            res == self.without_source(),
    {
        match self {
            MindLinkError::Authentication { message, .. } =>
                MindLinkError::Authentication { message: message.clone(), source: None },
            MindLinkError::Network { message, url, .. } =>
                MindLinkError::Network { message: message.clone(), url: url.clone(), source: None },
            MindLinkError::BinaryExecution { message, binary_name, binary_path, .. } =>
                MindLinkError::BinaryExecution {
                    message: message.clone(),
                    binary_name: binary_name.clone(),
                    binary_path: binary_path.clone(),
                    source: None,
                },
            MindLinkError::Configuration { message, config_key, .. } =>
                MindLinkError::Configuration {
                    message: message.clone(),
                    config_key: config_key.clone(),
                    source: None,
                },
            MindLinkError::FileSystem { message, path, operation, .. } =>
                MindLinkError::FileSystem {
                    message: message.clone(),
                    path: path.clone(),
                    operation: operation.clone(),
                    source: None,
                },
            MindLinkError::ProcessMonitoring { message, process_name, pid, .. } =>
                MindLinkError::ProcessMonitoring {
                    message: message.clone(),
                    process_name: process_name.clone(),
                    pid: *pid,
                    source: None,
                },
            MindLinkError::HealthCheck { message, service_name, url, .. } =>
                MindLinkError::HealthCheck {
                    message: message.clone(),
                    service_name: service_name.clone(),
                    url: url.clone(),
                    source: None,
                },
            MindLinkError::Tunnel { message, tunnel_type, local_port, .. } =>
                MindLinkError::Tunnel {
                    message: message.clone(),
                    tunnel_type: tunnel_type.clone(),
                    local_port: *local_port,
                    source: None,
                },
            MindLinkError::SystemResource { message, resource_type, .. } =>
                MindLinkError::SystemResource {
                    message: message.clone(),
                    resource_type: resource_type.clone(),
                    source: None,
                },
            MindLinkError::Internal { message, component, .. } =>
                MindLinkError::Internal {
                    message: message.clone(),
                    component: component.clone(),
                    source: None,
                },
        }
    }
}

/// Whether any of the keywords occurs in the text.
pub open spec fn mentions_any(text: Seq<char>, a: Seq<char>, b: Seq<char>, c: Seq<char>) -> bool {
    occurs_in(a, text) || occurs_in(b, text) || occurs_in(c, text)
}

/// How an error described by the lowercase text `lower`, caused by `cause`,
/// is classified: the first keyword group that the text mentions decides.
pub open spec fn classified(res: MindLinkError, lower: Seq<char>, cause: Option<anyhow::Error>) -> bool {
    if mentions_any(lower, "auth"@, "login"@, "credential"@) {
        res matches MindLinkError::Authentication { message, source }
            && message@ == "Authentication system error"@ && source == cause
    } else if mentions_any(lower, "network"@, "connection"@, "timeout"@) {
        res matches MindLinkError::Network { message, url, source }
            && message@ == "Network communication error"@ && url is None && source == cause
    } else if mentions_any(lower, "binary"@, "spawn"@, "process"@) {
        res matches MindLinkError::BinaryExecution { message, binary_name, binary_path, source }
            && message@ == "Process execution error"@ && binary_name@ == "unknown"@
            && binary_path is None && source == cause
    } else if occurs_in("config"@, lower) || occurs_in("setting"@, lower) {
        res matches MindLinkError::Configuration { message, config_key, source }
            && message@ == "Configuration system error"@ && config_key is None && source == cause
    } else if mentions_any(lower, "file"@, "directory"@, "path"@) {
        res matches MindLinkError::FileSystem { message, path, operation, source }
            && message@ == "File system operation error"@ && path is None
            && operation@ == "unknown"@ && source == cause
    } else {
        res matches MindLinkError::Internal { message, component, source }
            && message@ == "Unexpected error occurred"@ && component is None && source == cause
    }
}

impl MindLinkError {
    /// Classify an error from its lowercase description `lower`, keeping `cause`
    /// as the underlying error.
    pub fn from_description(lower: &str, cause: Option<anyhow::Error>) -> (res: Self)
        ensures
            classified(res, lower@, cause),
    {
        if contains(lower, "auth") || contains(lower, "login") || contains(lower, "credential") {
            MindLinkError::Authentication { message: owned("Authentication system error"), source: cause }
        } else if contains(lower, "network") || contains(lower, "connection") || contains(lower, "timeout") {
            MindLinkError::Network { message: owned("Network communication error"), url: None, source: cause }
        } else if contains(lower, "binary") || contains(lower, "spawn") || contains(lower, "process") {
            MindLinkError::BinaryExecution {
                message: owned("Process execution error"),
                binary_name: owned("unknown"),
                binary_path: None,
                source: cause,
            }
        } else if contains(lower, "config") || contains(lower, "setting") {
            MindLinkError::Configuration {
                message: owned("Configuration system error"),
                config_key: None,
                source: cause,
            }
        } else if contains(lower, "file") || contains(lower, "directory") || contains(lower, "path") {
            MindLinkError::FileSystem {
                message: owned("File system operation error"),
                path: None,
                operation: owned("unknown"),
                source: cause,
            }
        } else {
            MindLinkError::Internal { message: owned("Unexpected error occurred"), component: None, source: cause }
        }
    }

    /// Convert an `anyhow::Error`, classifying it by the keywords in the lowercase
    /// form of its message.
    pub fn from_anyhow(err: anyhow::Error) -> (res: Self)
        ensures
            exists|text: String|
                vstd::string::to_string_from_display_ensures::<anyhow::Error>(&err, text)
                    && classified(res, lowercase(text@), Some(err)),
    {
        let text = err.to_string();
        let lower = to_lowercase(text.as_str());
        Self::from_description(lower.as_str(), Some(err))
    }
}

} // verus!
