//! The error type shared by every part of the library.

use crate::json::{json_object_text, member_views, render_object, JsonMember, JsonScalar, ScalarView};
use vstd::prelude::*;
use vstd::string::StringExecFns;

verus! {

/// What can go wrong, by category. A variant that carries text carries the
/// detail of the failure; failures reported by an outside client (the chain
/// client, a number parser) are held by their message.
#[derive(Debug)]
pub enum AppError {
    DatabaseError(String),
    BadRequest(String),
    PostgrestError(String),
    JsonParseError(String),
    RequestError(String),
    ConfigError(String),
    ServerError(String),
    PortParseError(String),
    SurfError(String),
    SolanaRpcError { source: String },
    TokenAccountError(String),
    InsufficientBalanceError(String),
    TransactionError(String),
    PubkeyParseError { source: String },
    ProgramError { source: String },
    WebSocketConnectionError(String),
    WebSocketHealthCheckFailed,
    WebSocketSendError(String),
    WebSocketReceiveError(String),
    WebSocketTimeout(String),
    WebSocketStateError(String),
    WebSocketError(String),
    InitializationError(String),
    MessageProcessingError(String),
    TaskError(String),
    RedisError(String),
    InvalidPrice(String),
    InternalError(String),
    Generic(String),
}

impl AppError {
    /// The detail that the error carries; empty for the one variant without.
    pub open spec fn detail(self) -> Seq<char> {
        match self {
            AppError::DatabaseError(m) => m@,
            AppError::BadRequest(m) => m@,
            AppError::PostgrestError(m) => m@,
            AppError::JsonParseError(m) => m@,
            AppError::RequestError(m) => m@,
            AppError::ConfigError(m) => m@,
            AppError::ServerError(m) => m@,
            AppError::PortParseError(m) => m@,
            AppError::SurfError(m) => m@,
            AppError::SolanaRpcError { source } => source@,
            AppError::TokenAccountError(m) => m@,
            AppError::InsufficientBalanceError(m) => m@,
            AppError::TransactionError(m) => m@,
            AppError::PubkeyParseError { source } => source@,
            AppError::ProgramError { source } => source@,
            AppError::WebSocketConnectionError(m) => m@,
            AppError::WebSocketHealthCheckFailed => Seq::empty(),
            AppError::WebSocketSendError(m) => m@,
            AppError::WebSocketReceiveError(m) => m@,
            AppError::WebSocketTimeout(m) => m@,
            AppError::WebSocketStateError(m) => m@,
            AppError::WebSocketError(m) => m@,
            AppError::InitializationError(m) => m@,
            AppError::MessageProcessingError(m) => m@,
            AppError::TaskError(m) => m@,
            AppError::RedisError(m) => m@,
            AppError::InvalidPrice(m) => m@,
            AppError::InternalError(m) => m@,
            AppError::Generic(m) => m@,
        }
    }

    /// The words that introduce the detail when the error is shown.
    pub open spec fn label(self) -> Seq<char> {
        match self {
            AppError::DatabaseError(_) => "Database error: "@,
            AppError::BadRequest(_) => "Bad request: "@,
            AppError::PostgrestError(_) => "Postgrest error: "@,
            AppError::JsonParseError(_) => "Json parse error: "@,
            AppError::RequestError(_) => "Request error: "@,
            AppError::ConfigError(_) => "Configuration error: "@,
            AppError::ServerError(_) => "Server error: "@,
            AppError::PortParseError(_) => "Port parse error: "@,
            AppError::SurfError(_) => "Surf error: "@,
            AppError::SolanaRpcError { .. } => "Solana RPC error: "@,
            AppError::TokenAccountError(_) => "Token account error: "@,
            AppError::InsufficientBalanceError(_) => "Insufficient balance: "@,
            AppError::TransactionError(_) => "Transaction error: "@,
            AppError::PubkeyParseError { .. } => "Pubkey parse error: "@,
            AppError::ProgramError { .. } => "Program error: "@,
            AppError::WebSocketConnectionError(_) => "WebSocket connection error: "@,
            AppError::WebSocketHealthCheckFailed => "WebSocket health check failed"@,
            AppError::WebSocketSendError(_) => "WebSocket send error: "@,
            AppError::WebSocketReceiveError(_) => "WebSocket receive error: "@,
            AppError::WebSocketTimeout(_) => "WebSocket timeout error: "@,
            AppError::WebSocketStateError(_) => "WebSocket state error: "@,
            AppError::WebSocketError(_) => "WebSocket error: "@,
            AppError::InitializationError(_) => "Failed to initialize monitor: "@,
            AppError::MessageProcessingError(_) => "Message processing error: "@,
            AppError::TaskError(_) => "Task error: "@,
            AppError::RedisError(_) => "Redis error: "@,
            AppError::InvalidPrice(_) => "Invalid price: "@,
            AppError::InternalError(_) => "Internal error: "@,
            AppError::Generic(_) => Seq::empty(),
        }
    }

    /// The error as one line of text: its label, then its detail.
    pub open spec fn text(self) -> Seq<char> {
        self.label() + self.detail()
    }

    /// The HTTP status under which the error is reported to a client.
    pub open spec fn status(self) -> int {
        match self {
            AppError::BadRequest(_)
            | AppError::JsonParseError(_)
            | AppError::RequestError(_)
            | AppError::TokenAccountError(_)
            | AppError::InsufficientBalanceError(_)
            | AppError::TransactionError(_)
            | AppError::PubkeyParseError { .. }
            | AppError::ProgramError { .. }
            | AppError::InitializationError(_)
            | AppError::MessageProcessingError(_)
            | AppError::TaskError(_)
            | AppError::RedisError(_)
            | AppError::InvalidPrice(_) => 400,
            AppError::SurfError(_)
            | AppError::SolanaRpcError { .. }
            | AppError::WebSocketConnectionError(_)
            | AppError::WebSocketHealthCheckFailed
            | AppError::WebSocketSendError(_)
            | AppError::WebSocketReceiveError(_)
            | AppError::WebSocketError(_) => 502,
            AppError::WebSocketTimeout(_) => 504,
            AppError::DatabaseError(_)
            | AppError::PostgrestError(_)
            | AppError::ConfigError(_)
            | AppError::ServerError(_)
            | AppError::PortParseError(_)
            | AppError::WebSocketStateError(_)
            | AppError::InternalError(_)
            | AppError::Generic(_) => 500,
        }
    }

    /// The message that goes to a client with the status: the detail, or for
    /// the one variant without detail its label.
    pub open spec fn client_text(self) -> Seq<char> {
        match self {
            AppError::WebSocketHealthCheckFailed => self.label(),
            _ => self.detail(),
        }
    }

    /// Shows the error as text.
    pub fn to_string(&self) -> (shown: String)
        ensures
            shown@ == self.text(),
    {
        match self {
            AppError::DatabaseError(m) => labelled("Database error: ", m),
            AppError::BadRequest(m) => labelled("Bad request: ", m),
            AppError::PostgrestError(m) => labelled("Postgrest error: ", m),
            AppError::JsonParseError(m) => labelled("Json parse error: ", m),
            AppError::RequestError(m) => labelled("Request error: ", m),
            AppError::ConfigError(m) => labelled("Configuration error: ", m),
            AppError::ServerError(m) => labelled("Server error: ", m),
            AppError::PortParseError(m) => labelled("Port parse error: ", m),
            AppError::SurfError(m) => labelled("Surf error: ", m),
            AppError::SolanaRpcError { source } => labelled("Solana RPC error: ", source),
            AppError::TokenAccountError(m) => labelled("Token account error: ", m),
            AppError::InsufficientBalanceError(m) => labelled("Insufficient balance: ", m),
            AppError::TransactionError(m) => labelled("Transaction error: ", m),
            AppError::PubkeyParseError { source } => labelled("Pubkey parse error: ", source),
            AppError::ProgramError { source } => labelled("Program error: ", source),
            AppError::WebSocketConnectionError(m) => labelled("WebSocket connection error: ", m),
            AppError::WebSocketHealthCheckFailed => {
                let shown = String::from_str("WebSocket health check failed");
                assert(shown@ + Seq::<char>::empty() =~= shown@);
                shown
            },
            AppError::WebSocketSendError(m) => labelled("WebSocket send error: ", m),
            AppError::WebSocketReceiveError(m) => labelled("WebSocket receive error: ", m),
            AppError::WebSocketTimeout(m) => labelled("WebSocket timeout error: ", m),
            AppError::WebSocketStateError(m) => labelled("WebSocket state error: ", m),
            AppError::WebSocketError(m) => labelled("WebSocket error: ", m),
            AppError::InitializationError(m) => labelled("Failed to initialize monitor: ", m),
            AppError::MessageProcessingError(m) => labelled("Message processing error: ", m),
            AppError::TaskError(m) => labelled("Task error: ", m),
            AppError::RedisError(m) => labelled("Redis error: ", m),
            AppError::InvalidPrice(m) => labelled("Invalid price: ", m),
            AppError::InternalError(m) => labelled("Internal error: ", m),
            AppError::Generic(m) => {
                assert(Seq::<char>::empty() + m@ =~= m@);
                m.clone()
            },
        }
    }

    /// The HTTP status under which the error is reported to a client.
    pub fn status_code(&self) -> (code: u16)
        ensures
            code == self.status(),
    {
        match self {
            AppError::BadRequest(_)
            | AppError::JsonParseError(_)
            | AppError::RequestError(_)
            | AppError::TokenAccountError(_)
            | AppError::InsufficientBalanceError(_)
            | AppError::TransactionError(_)
            | AppError::PubkeyParseError { .. }
            | AppError::ProgramError { .. }
            | AppError::InitializationError(_)
            | AppError::MessageProcessingError(_)
            | AppError::TaskError(_)
            | AppError::RedisError(_)
            | AppError::InvalidPrice(_) => 400,
            AppError::SurfError(_)
            | AppError::SolanaRpcError { .. }
            | AppError::WebSocketConnectionError(_)
            | AppError::WebSocketHealthCheckFailed
            | AppError::WebSocketSendError(_)
            | AppError::WebSocketReceiveError(_)
            | AppError::WebSocketError(_) => 502,
            AppError::WebSocketTimeout(_) => 504,
            AppError::DatabaseError(_)
            | AppError::PostgrestError(_)
            | AppError::ConfigError(_)
            | AppError::ServerError(_)
            | AppError::PortParseError(_)
            | AppError::WebSocketStateError(_)
            | AppError::InternalError(_)
            | AppError::Generic(_) => 500,
        }
    }

    /// The message that goes to a client with the status.
    pub fn client_message(&self) -> (message: String)
        ensures
            message@ == self.client_text(),
    {
        match self {
            AppError::DatabaseError(m)
            | AppError::BadRequest(m)
            | AppError::PostgrestError(m)
            | AppError::JsonParseError(m)
            | AppError::RequestError(m)
            | AppError::ConfigError(m)
            | AppError::ServerError(m)
            | AppError::PortParseError(m)
            | AppError::SurfError(m)
            | AppError::TokenAccountError(m)
            | AppError::InsufficientBalanceError(m)
            | AppError::TransactionError(m)
            | AppError::WebSocketConnectionError(m)
            | AppError::WebSocketSendError(m)
            | AppError::WebSocketReceiveError(m)
            | AppError::WebSocketTimeout(m)
            | AppError::WebSocketStateError(m)
            | AppError::WebSocketError(m)
            | AppError::InitializationError(m)
            | AppError::MessageProcessingError(m)
            | AppError::TaskError(m)
            | AppError::RedisError(m)
            | AppError::InvalidPrice(m)
            | AppError::InternalError(m)
            | AppError::Generic(m) => m.clone(),
            AppError::SolanaRpcError { source }
            | AppError::PubkeyParseError { source }
            | AppError::ProgramError { source } => source.clone(),
            AppError::WebSocketHealthCheckFailed => String::from_str(
                "WebSocket health check failed",
            ),
        }
    }
}

impl AppError {
    /// The members of the body under which the error goes to a client: the
    /// message, and the status as a number.
    pub open spec fn response_members(self) -> Seq<(Seq<char>, ScalarView)> {
        seq![
            ("error"@, ScalarView::Text(self.client_text())),
            ("status"@, ScalarView::Number(self.status() as u64)),
        ]
    }

    /// The body under which the error goes to a client, as JSON text.
    pub fn response_body(&self) -> (body: String)
        ensures
            body@ == json_object_text(self.response_members()),
    {
        let mut members: Vec<JsonMember> = Vec::new();
        members.push(
            JsonMember {
                key: String::from_str("error"),
                value: JsonScalar::Text(self.client_message()),
            },
        );
        let code: u16 = self.status_code();
        members.push(
            JsonMember { key: String::from_str("status"), value: JsonScalar::Number(code as u64) },
        );
        assert(member_views(members@) =~= self.response_members());
        render_object(&members)
    }
}

/// What went wrong when JSON was read or written.
#[verifier::external_type_specification]
#[verifier::external_body]
pub struct ExJsonError(serde_json::Error);

/// What went wrong on a WebSocket.
#[verifier::external_type_specification]
#[verifier::external_body]
pub struct ExWebSocketError(tokio_tungstenite::tungstenite::Error);

/// That a deadline passed.
#[verifier::external_type_specification]
#[verifier::external_body]
pub struct ExElapsed(tokio::time::error::Elapsed);

/// The words in which `serde_json` shows an error.
pub uninterp spec fn json_error_text(error: serde_json::Error) -> Seq<char>;

/// The words in which `tungstenite` shows an error.
pub uninterp spec fn websocket_error_text(error: tokio_tungstenite::tungstenite::Error) -> Seq<char>;

/// Shows an error of `serde_json` through its `Display`.
#[verifier::external_body]
pub(crate) fn show_json_error(error: &serde_json::Error) -> (shown: String)
    ensures
        shown@ == json_error_text(*error),
{
    error.to_string()
}

/// Shows an error of `tungstenite` through its `Display`.
#[verifier::external_body]
pub(crate) fn show_websocket_error(error: &tokio_tungstenite::tungstenite::Error) -> (shown: String)
    ensures
        shown@ == websocket_error_text(*error),
{
    error.to_string()
}

/// Shows a passed deadline through the `Display` of `tokio`'s `Elapsed`,
/// which writes the same words every time.
#[verifier::external_body]
pub(crate) fn show_elapsed(error: &tokio::time::error::Elapsed) -> (shown: String)
    ensures
        shown@ == "deadline has elapsed"@,
{
    error.to_string()
}

impl From<serde_json::Error> for AppError {
    /// A failure to read or write JSON, under the words that `serde_json`
    /// has for it.
    fn from(err: serde_json::Error) -> (error: AppError)
        ensures
            error is JsonParseError,
            error.detail() == json_error_text(err),
    {
        AppError::JsonParseError(show_json_error(&err))
    }
}

/// The conversion is described by the contract of `from` itself: two texts
/// that read the same are not known to be one value, so no value can be
/// named here that `from` provably returns.
impl vstd::std_specs::convert::FromSpecImpl<serde_json::Error> for AppError {
    open spec fn obeys_from_spec() -> bool {
        false
    }

    open spec fn from_spec(err: serde_json::Error) -> AppError {
        choose|error: AppError| error is JsonParseError && error.detail() == json_error_text(err)
    }
}

impl From<tokio_tungstenite::tungstenite::Error> for AppError {
    /// A failure on a WebSocket, under the words that `tungstenite` has for
    /// it.
    fn from(err: tokio_tungstenite::tungstenite::Error) -> (error: AppError)
        ensures
            error is WebSocketError,
            error.detail() == websocket_error_text(err),
    {
        AppError::WebSocketError(show_websocket_error(&err))
    }
}

impl vstd::std_specs::convert::FromSpecImpl<tokio_tungstenite::tungstenite::Error> for AppError {
    open spec fn obeys_from_spec() -> bool {
        false
    }

    open spec fn from_spec(err: tokio_tungstenite::tungstenite::Error) -> AppError {
        choose|error: AppError| error is WebSocketError && error.detail() == websocket_error_text(err)
    }
}

impl From<tokio::time::error::Elapsed> for AppError {
    /// A deadline that passed.
    fn from(err: tokio::time::error::Elapsed) -> (error: AppError)
        ensures
            error is WebSocketTimeout,
            error.detail() == "deadline has elapsed"@,
    {
        AppError::WebSocketTimeout(show_elapsed(&err))
    }
}

impl vstd::std_specs::convert::FromSpecImpl<tokio::time::error::Elapsed> for AppError {
    open spec fn obeys_from_spec() -> bool {
        false
    }

    open spec fn from_spec(err: tokio::time::error::Elapsed) -> AppError {
        choose|error: AppError| error is WebSocketTimeout && error.detail() == "deadline has elapsed"@
    }
}

/// `label` followed by `detail`.
pub fn labelled(label: &str, detail: &String) -> (shown: String)
    ensures
        shown@ == label@ + detail@,
{
    String::from_str(label).concat(detail.as_str())
}

} // verus!
