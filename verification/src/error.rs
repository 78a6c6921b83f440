//! The error type shared by every component, with its rendered text.

use vstd::prelude::*;
use vstd::string::StringExecFns;

verus! {

/// Transport failure reported by the HTTP client.
#[verifier::external_type_specification]
#[verifier::external_body]
pub struct ExClientError(reqwest::Error);

/// Protocol failure reported by the HTTP server library.
#[verifier::external_type_specification]
#[verifier::external_body]
pub struct ExProtocolError(hyper::Error);

/// Failure of an operating-system input or output operation.
#[verifier::external_type_specification]
#[verifier::external_body]
pub struct ExIoError(std::io::Error);

/// Failure to read a text as JSON.
#[verifier::external_type_specification]
#[verifier::external_body]
pub struct ExJsonError(serde_json::Error);

/// Everything that can go wrong while configuring, starting or serving.
#[derive(Debug)]
pub enum HeisenbergError {
    /// A route or the whole configuration is not acceptable.
    Config {
        /// What is wrong.
        message: String,
        /// How to put it right.
        hint: String,
    },
    /// A static asset does not exist.
    FileNotFound {
        /// The path that was asked for.
        path: String,
        /// How to put it right.
        hint: String,
    },
    /// No route matched the request.
    NoRouteMatch,
    /// A development server process could not be managed.
    Process {
        /// What is wrong.
        message: String,
        /// How to put it right.
        hint: String,
    },
    /// A development server did not answer a probe.
    HealthCheck {
        /// What is wrong.
        message: String,
        /// How to put it right.
        hint: String,
    },
    /// A request to the development server failed in transport.
    ProxyError(reqwest::Error),
    /// The HTTP layer failed.
    HttpError(hyper::Error),
    /// An input or output operation failed.
    IoError(std::io::Error),
    /// The project manifest is not valid JSON.
    PackageJsonParse(serde_json::Error),
}

/// Text between the message and the hint of a rendered error.
pub const TROUBLESHOOTING_HEADING: &'static str = "\n\nTroubleshooting:\n";

/// Advice that closes a rendered transport failure.
pub const PROXY_ADVICE: &'static str =
    "\n\nTroubleshooting:\n• Check if the frontend dev server is running\n• Verify the proxy URL is correct\n• Ensure the dev server accepts connections from localhost";

/// Advice that closes a rendered manifest failure.
pub const MANIFEST_ADVICE: &'static str =
    "\n\nTroubleshooting:\n• Ensure package.json exists and contains valid JSON\n• Check for syntax errors (missing commas, quotes, etc.)\n• Verify the file is readable";

impl HeisenbergError {
    /// Whether this is a configuration error with the given message and hint.
    pub open spec fn is_config(self, message: Seq<char>, hint: Seq<char>) -> bool {
        self matches HeisenbergError::Config { message: m, hint: h } && m@ == message && h@
            == hint
    }

    /// Whether this is a missing-file error with the given path and hint.
    pub open spec fn is_file_not_found(self, path: Seq<char>, hint: Seq<char>) -> bool {
        self matches HeisenbergError::FileNotFound { path: p, hint: h } && p@ == path && h@
            == hint
    }

    /// Whether this is a process error with the given message and hint.
    pub open spec fn is_process(self, message: Seq<char>, hint: Seq<char>) -> bool {
        self matches HeisenbergError::Process { message: m, hint: h } && m@ == message && h@
            == hint
    }

    /// Whether this is a health-check error with the given message and hint.
    pub open spec fn is_health_check(self, message: Seq<char>, hint: Seq<char>) -> bool {
        self matches HeisenbergError::HealthCheck { message: m, hint: h } && m@ == message && h@
            == hint
    }

    /// True for the variants that carry an error value of another library,
    /// whose own description is not known to the contracts.
    pub open spec fn is_foreign(self) -> bool {
        match self {
            HeisenbergError::ProxyError(_) => true,
            HeisenbergError::HttpError(_) => true,
            HeisenbergError::IoError(_) => true,
            HeisenbergError::PackageJsonParse(_) => true,
            _ => false,
        }
    }

    /// The rendered text of the error, where `detail` stands for the
    /// description that a carried foreign error gives of itself.
    pub open spec fn rendered(self, detail: Seq<char>) -> Seq<char> {
        match self {
            HeisenbergError::Config { message, hint } => "Configuration error: "@ + message@
                + TROUBLESHOOTING_HEADING@ + hint@,
            HeisenbergError::FileNotFound { path, hint } => "File not found: "@ + path@
                + TROUBLESHOOTING_HEADING@ + hint@,
            HeisenbergError::NoRouteMatch => "No route matched the request"@,
            HeisenbergError::Process { message, hint } => "Process error: "@ + message@
                + TROUBLESHOOTING_HEADING@ + hint@,
            HeisenbergError::HealthCheck { message, hint } => "Health check failed: "@ + message@
                + TROUBLESHOOTING_HEADING@ + hint@,
            HeisenbergError::ProxyError(_) => "Proxy request failed: "@ + detail + PROXY_ADVICE@,
            HeisenbergError::HttpError(_) => "HTTP error: "@ + detail,
            HeisenbergError::IoError(_) => "IO error: "@ + detail,
            HeisenbergError::PackageJsonParse(_) => "Package.json parsing failed: "@ + detail
                + MANIFEST_ADVICE@,
        }
    }

    /// A configuration error with its troubleshooting hint.
    pub fn config(message: &str, hint: &str) -> (e: Self)
        ensures
            e.is_config(message@, hint@),
    {
        HeisenbergError::Config { message: message.to_owned(), hint: hint.to_owned() }
    }

    /// A missing-file error with its troubleshooting hint.
    pub fn file_not_found(path: &str, hint: &str) -> (e: Self)
        ensures
            e.is_file_not_found(path@, hint@),
    {
        HeisenbergError::FileNotFound { path: path.to_owned(), hint: hint.to_owned() }
    }

    /// A process error with its troubleshooting hint.
    pub fn process(message: &str, hint: &str) -> (e: Self)
        ensures
            e.is_process(message@, hint@),
    {
        HeisenbergError::Process { message: message.to_owned(), hint: hint.to_owned() }
    }

    /// A health-check error with its troubleshooting hint.
    pub fn health_check(message: &str, hint: &str) -> (e: Self)
        ensures
            e.is_health_check(message@, hint@),
    {
        HeisenbergError::HealthCheck { message: message.to_owned(), hint: hint.to_owned() }
    }

    /// The text shown for this error, where `detail` is the description that
    /// a carried foreign error gives of itself. The other variants do not
    /// look at `detail`.
    pub fn render(&self, detail: &str) -> (text: String)
        ensures
            text@ == self.rendered(detail@),
    {
        match self {
            HeisenbergError::Config { message, hint } => labelled(
                "Configuration error: ",
                message.as_str(),
                hint.as_str(),
            ),
            HeisenbergError::FileNotFound { path, hint } => labelled(
                "File not found: ",
                path.as_str(),
                hint.as_str(),
            ),
            HeisenbergError::NoRouteMatch => String::from_str("No route matched the request"),
            HeisenbergError::Process { message, hint } => labelled(
                "Process error: ",
                message.as_str(),
                hint.as_str(),
            ),
            HeisenbergError::HealthCheck { message, hint } => labelled(
                "Health check failed: ",
                message.as_str(),
                hint.as_str(),
            ),
            HeisenbergError::ProxyError(_) => String::from_str("Proxy request failed: ").concat(
                detail,
            ).concat(PROXY_ADVICE),
            HeisenbergError::HttpError(_) => String::from_str("HTTP error: ").concat(detail),
            HeisenbergError::IoError(_) => String::from_str("IO error: ").concat(detail),
            HeisenbergError::PackageJsonParse(_) => String::from_str(
                "Package.json parsing failed: ",
            ).concat(detail).concat(MANIFEST_ADVICE),
        }
    }

    /// The text shown for this error. A carried foreign error describes
    /// itself; what it says is not known here.
    pub fn to_string(&self) -> (text: String)
        ensures
            !self.is_foreign() ==> text@ == self.rendered(Seq::empty()),
            self.is_foreign() ==> exists|detail: Seq<char>| text@ == self.rendered(detail),
    {
        let detail = match self {
            HeisenbergError::ProxyError(source) => describe_client_error(source),
            HeisenbergError::HttpError(source) => describe_protocol_error(source),
            HeisenbergError::IoError(source) => describe_io_error(source),
            HeisenbergError::PackageJsonParse(source) => describe_json_error(source),
            _ => String::new(),
        };
        self.render(detail.as_str())
    }
}

/// Renders `label`, the subject, the troubleshooting heading and the hint.
fn labelled(label: &str, subject: &str, hint: &str) -> (text: String)
    ensures
        text@ == label@ + subject@ + TROUBLESHOOTING_HEADING@ + hint@,
{
    String::from_str(label).concat(subject).concat(TROUBLESHOOTING_HEADING).concat(hint)
}

/// Calls `reqwest::Error`'s `Display`: whatever text the client library
/// gives for its error. Nothing is claimed of that text.
#[verifier::external_body]
fn describe_client_error(source: &reqwest::Error) -> (detail: String) {
    source.to_string()
}

/// Calls `hyper::Error`'s `Display`: whatever text the HTTP library gives
/// for its error. Nothing is claimed of that text.
#[verifier::external_body]
fn describe_protocol_error(source: &hyper::Error) -> (detail: String) {
    source.to_string()
}

/// Calls `std::io::Error`'s `Display`: whatever text the standard library
/// gives for the failure. Nothing is claimed of that text.
#[verifier::external_body]
fn describe_io_error(source: &std::io::Error) -> (detail: String) {
    source.to_string()
}

/// Calls `serde_json::Error`'s `Display`: whatever text the JSON library
/// gives for its error. Nothing is claimed of that text.
#[verifier::external_body]
fn describe_json_error(source: &serde_json::Error) -> (detail: String) {
    source.to_string()
}

impl From<reqwest::Error> for HeisenbergError {
    fn from(source: reqwest::Error) -> (e: Self) {
        HeisenbergError::ProxyError(source)
    }
}

impl vstd::std_specs::convert::FromSpecImpl<reqwest::Error> for HeisenbergError {
    open spec fn obeys_from_spec() -> bool {
        true
    }

    open spec fn from_spec(source: reqwest::Error) -> Self {
        HeisenbergError::ProxyError(source)
    }
}

impl From<hyper::Error> for HeisenbergError {
    fn from(source: hyper::Error) -> (e: Self) {
        HeisenbergError::HttpError(source)
    }
}

impl vstd::std_specs::convert::FromSpecImpl<hyper::Error> for HeisenbergError {
    open spec fn obeys_from_spec() -> bool {
        true
    }

    open spec fn from_spec(source: hyper::Error) -> Self {
        HeisenbergError::HttpError(source)
    }
}

impl From<std::io::Error> for HeisenbergError {
    fn from(source: std::io::Error) -> (e: Self) {
        HeisenbergError::IoError(source)
    }
}

impl vstd::std_specs::convert::FromSpecImpl<std::io::Error> for HeisenbergError {
    open spec fn obeys_from_spec() -> bool {
        true
    }

    open spec fn from_spec(source: std::io::Error) -> Self {
        HeisenbergError::IoError(source)
    }
}

impl From<serde_json::Error> for HeisenbergError {
    fn from(source: serde_json::Error) -> (e: Self) {
        HeisenbergError::PackageJsonParse(source)
    }
}

impl vstd::std_specs::convert::FromSpecImpl<serde_json::Error> for HeisenbergError {
    open spec fn obeys_from_spec() -> bool {
        true
    }

    open spec fn from_spec(source: serde_json::Error) -> Self {
        HeisenbergError::PackageJsonParse(source)
    }
}

} // verus!
