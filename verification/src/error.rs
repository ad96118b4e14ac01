//! Azure error types.
use vstd::prelude::*;
use vstd::string::*;

verus! {

/// The standard library's I/O error, carried as it is.
#[verifier::external_type_specification]
#[verifier::external_body]
pub struct ExIoError(std::io::Error);

/// Result type for Azure operations.
pub type Result<T> = std::result::Result<T, AzureError>;

/// Azure service errors.
#[derive(Debug)]
pub enum AzureError {
    /// Service not enabled.
    ServiceNotEnabled(&'static str),
    /// Service not configured.
    ServiceNotConfigured(&'static str),
    /// Configuration error.
    Config(String),
    /// Authentication error.
    Auth(String),
    /// Storage account not specified.
    StorageAccountNotSpecified,
    /// Service error.
    Service(String),
    /// An Azure service answered with an unsuccessful HTTP status.
    Http {
        /// HTTP status code.
        status: u16,
        /// Description including the method, path and status.
        message: String,
    },
    /// Network error.
    Network(String),
    /// Serialization error.
    Serialization(String),
    /// I/O error.
    Io(std::io::Error),
}

/// What an [`AzureError`] says, with its texts as character sequences.
pub enum ErrorView {
    ServiceNotEnabled(Seq<char>),
    ServiceNotConfigured(Seq<char>),
    Config(Seq<char>),
    Auth(Seq<char>),
    StorageAccountNotSpecified,
    Service(Seq<char>),
    Http { status: u16, message: Seq<char> },
    Network(Seq<char>),
    Serialization(Seq<char>),
    Io(std::io::Error),
}

impl View for AzureError {
    type V = ErrorView;

    open spec fn view(&self) -> ErrorView {
        match *self {
            AzureError::ServiceNotEnabled(service) => ErrorView::ServiceNotEnabled(service@),
            AzureError::ServiceNotConfigured(service) => ErrorView::ServiceNotConfigured(service@),
            AzureError::Config(text) => ErrorView::Config(text@),
            AzureError::Auth(text) => ErrorView::Auth(text@),
            AzureError::StorageAccountNotSpecified => ErrorView::StorageAccountNotSpecified,
            AzureError::Service(text) => ErrorView::Service(text@),
            AzureError::Http { status, message } => ErrorView::Http { status, message: message@ },
            AzureError::Network(text) => ErrorView::Network(text@),
            AzureError::Serialization(text) => ErrorView::Serialization(text@),
            AzureError::Io(error) => ErrorView::Io(error),
        }
    }
}

/// Whether a result is the one expected: both succeed with the same value, or both fail with the
/// same error.
pub open spec fn agrees<T: View>(
    r: Result<T>,
    expected: std::result::Result<T::V, ErrorView>,
) -> bool {
    match expected {
        Ok(v) => r matches Ok(t) && t@ == v,
        Err(e) => r matches Err(f) && f@ == e,
    }
}

/// Whether `text` is what an error is shown as.
pub open spec fn shows(error: ErrorView, text: Seq<char>) -> bool {
    match error {
        ErrorView::ServiceNotEnabled(service) => text == "Service '"@ + service
            + "' is not enabled. Enable the feature flag in Cargo.toml"@,
        ErrorView::ServiceNotConfigured(service) => text == "Service '"@ + service
            + "' is not configured. Call enable_"@ + service + "() on AzureConfig"@,
        ErrorView::Config(message) => text == "Configuration error: "@ + message,
        ErrorView::Auth(message) => text == "Authentication error: "@ + message,
        ErrorView::StorageAccountNotSpecified => text == "Azure storage account not specified"@,
        ErrorView::Service(message) => text == "Azure service error: "@ + message,
        ErrorView::Http { status, message } => text == "Azure service error: "@ + message,
        ErrorView::Network(message) => text == "Network error: "@ + message,
        ErrorView::Serialization(message) => text == "Serialization error: "@ + message,
        ErrorView::Io(error) => shows_io(error, text),
    }
}

/// Whether `text` is what an I/O error is shown as: its own text behind a fixed start.
pub open spec fn shows_io(error: std::io::Error, text: Seq<char>) -> bool {
    exists|shown: String| #[trigger]
        to_string_from_display_ensures::<std::io::Error>(&error, shown) && text == "I/O error: "@
            + shown@
}

/// The HTTP statuses after which another attempt may succeed.
pub open spec fn retryable_status(status: u16) -> bool {
    status == 408 || status == 429 || status == 500 || status == 502 || status == 503 || status
        == 504
}

/// Whether retrying after `error` may succeed.
pub open spec fn retryable(error: ErrorView) -> bool {
    match error {
        ErrorView::Network(_) => true,
        ErrorView::Http { status, .. } => retryable_status(status),
        _ => false,
    }
}

/// The HTTP status that an error carries.
pub open spec fn status_of(error: ErrorView) -> Option<u16> {
    match error {
        ErrorView::Http { status, .. } => Some(status),
        _ => None,
    }
}

impl AzureError {
    /// Create a service not enabled error.
    pub fn not_enabled(service: &'static str) -> (r: Self)
        ensures
            r == AzureError::ServiceNotEnabled(service),
    {
        AzureError::ServiceNotEnabled(service)
    }

    /// Create a service not configured error.
    pub fn not_configured(service: &'static str) -> (r: Self)
        ensures
            r == AzureError::ServiceNotConfigured(service),
    {
        AzureError::ServiceNotConfigured(service)
    }

    /// The HTTP status of an [`AzureError::Http`] error.
    pub fn status(&self) -> (r: Option<u16>)
        ensures
            r == status_of(self@),
    {
        match self {
            AzureError::Http { status, .. } => Some(*status),
            _ => None,
        }
    }

    /// Whether retrying the operation may succeed: transport failures, request timeouts,
    /// throttling and server-side errors (408, 429, 500, 502, 503, 504).
    pub fn is_retryable(&self) -> (r: bool)
        ensures
            r == retryable(self@),
    {
        match self {
            AzureError::Network(_) => true,
            AzureError::Http { status, .. } => matches!(
                *status,
                408 | 429 | 500 | 502 | 503 | 504
            ),
            _ => false,
        }
    }

    /// The error as text.
    pub fn to_string(&self) -> (r: String)
        ensures
            shows(self@, r@),
    {
        match self {
            AzureError::ServiceNotEnabled(service) => "Service '".to_string().concat(
                *service,
            ).concat("' is not enabled. Enable the feature flag in Cargo.toml"),
            AzureError::ServiceNotConfigured(service) => "Service '".to_string().concat(
                *service,
            ).concat("' is not configured. Call enable_").concat(*service).concat(
                "() on AzureConfig",
            ),
            AzureError::Config(text) => "Configuration error: ".to_string().concat(text.as_str()),
            AzureError::Auth(text) => "Authentication error: ".to_string().concat(text.as_str()),
            AzureError::StorageAccountNotSpecified => {
                "Azure storage account not specified".to_string()
            },
            AzureError::Service(text) => "Azure service error: ".to_string().concat(text.as_str()),
            AzureError::Http { message, .. } => "Azure service error: ".to_string().concat(
                message.as_str(),
            ),
            AzureError::Network(text) => "Network error: ".to_string().concat(text.as_str()),
            AzureError::Serialization(text) => "Serialization error: ".to_string().concat(
                text.as_str(),
            ),
            AzureError::Io(error) => {
                let shown = error.to_string();
                let text = "I/O error: ".to_string().concat(shown.as_str());
                assert(shows_io(*error, text@));
                text
            },
        }
    }
}

impl From<std::io::Error> for AzureError {
    fn from(error: std::io::Error) -> (r: Self) {
        AzureError::Io(error)
    }
}

impl vstd::std_specs::convert::FromSpecImpl<std::io::Error> for AzureError {
    open spec fn obeys_from_spec() -> bool {
        true
    }

    open spec fn from_spec(error: std::io::Error) -> Self {
        AzureError::Io(error)
    }
}

} // verus!
