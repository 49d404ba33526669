//! The errors a request can end in, and the text that reports each.

use std::collections::HashMap;
use vstd::prelude::*;
use vstd::string::to_string_from_display_ensures;

verus! {

#[verifier::external_type_specification]
#[verifier::external_body]
pub struct ExRequestError(reqwest::Error);

#[verifier::external_type_specification]
#[verifier::external_body]
pub struct ExJsonError(serde_json::Error);

/// What `{:?}` writes for a string: the text in double quotes, with escapes.
pub uninterp spec fn debug_quoted(s: Seq<char>) -> Seq<char>;

/// Relies on the `Debug` formatting of `str`, which depends on the text alone.
#[verifier::external_body]
fn quoted(s: &str) -> (r: String)
    ensures
        r@ == debug_quoted(s@),
{
    format!("{:?}", s)
}

/// Relies on the `Debug` formatting of `HashMap`. Its entries come in the
/// map's iteration order, which the hasher's seed decides: nothing is stated.
#[verifier::external_body]
fn map_debug_text(m: &HashMap<String, String>) -> String {
    format!("{:?}", m)
}

/// What `{:?}` writes for an optional text.
pub open spec fn debug_optional(o: Option<String>) -> Seq<char> {
    match o {
        None => "None"@,
        Some(s) => "Some("@ + debug_quoted(s@) + ")"@,
    }
}

/// Appends what `{:?}` writes for `o` to `out`.
fn push_debug_optional(out: &mut String, o: &Option<String>)
    ensures
        final(out)@ == old(out)@ + debug_optional(*o),
{
    match o {
        None => out.append("None"),
        Some(s) => {
            out.append("Some(");
            let q = quoted(s.as_str());
            out.append(q.as_str());
            out.append(")");
        },
    }
}

/// The part of an error report that is fixed by the error's fields, up to
/// its detail.
pub open spec fn report_head(
    title: Seq<char>,
    reason: Seq<char>,
    message: Option<String>,
    error_type: Option<String>,
) -> Seq<char> {
    title + ": Reason="@ + reason + ", Message="@ + debug_optional(message) + ", Type="@
        + debug_optional(error_type) + ", Detail="@
}

/// Whether `r` reports an error with the given fields: its head, then `None`
/// or `Some(...)` for the detail.
pub open spec fn is_report(
    r: Seq<char>,
    title: Seq<char>,
    reason: Seq<char>,
    message: Option<String>,
    error_type: Option<String>,
    detail: Option<HashMap<String, String>>,
) -> bool {
    let head = report_head(title, reason, message, error_type);
    &&& detail.is_none() ==> r == head + "None"@
    &&& detail.is_some() ==> exists|t: Seq<char>| r == head + "Some("@ + t + ")"@
}

/// The report of an error body from the API.
fn report(
    title: &str,
    reason: &String,
    message: &Option<String>,
    error_type: &Option<String>,
    detail: &Option<HashMap<String, String>>,
) -> (r: String)
    ensures
        is_report(r@, title@, reason@, *message, *error_type, *detail),
{
    let mut out = String::from_str(title);
    out.append(": Reason=");
    out.append(reason.as_str());
    out.append(", Message=");
    push_debug_optional(&mut out, message);
    out.append(", Type=");
    push_debug_optional(&mut out, error_type);
    out.append(", Detail=");
    let ghost head = out@;
    assert(head =~= report_head(title@, reason@, *message, *error_type));
    match detail {
        None => out.append("None"),
        Some(m) => {
            out.append("Some(");
            let t = map_debug_text(m);
            out.append(t.as_str());
            out.append(")");
            assert(out@ == head + "Some("@ + t@ + ")"@);
        },
    }
    out
}

/// Represents a client-side error in the Clash of Clans client.
#[derive(Debug, PartialEq)]
pub struct ClientError {
    /// A string that describes the reason for the client error.
    pub reason: String,
    /// A string that provides additional information about the client error.
    pub message: Option<String>,
    /// An optional string that specifies the type of the client error.
    pub error_type: Option<String>,
    /// An optional map that contains additional details about the client error.
    pub detail: Option<HashMap<String, String>>,
}

/// Represents a server-side error in the Clash of Clans client.
#[derive(Debug, PartialEq)]
pub struct ServerError {
    /// A string that describes the reason for the server error.
    pub reason: String,
    /// A string that provides additional information about the server error.
    pub message: Option<String>,
    /// An optional string that specifies the type of the server error.
    pub error_type: Option<String>,
    /// An optional map that contains additional details about the server error.
    pub detail: Option<HashMap<String, String>>,
}

/// Represents an unknown error.
#[derive(Debug, PartialEq)]
pub struct UnkownError {}

impl ClientError {
    /// The report of this error:
    /// `Client error: Reason=..., Message=..., Type=..., Detail=...`, with the
    /// optional fields as `{:?}` writes them.
    pub fn display_text(&self) -> (r: String)
        ensures
            is_report(
                r@,
                "Client error"@,
                self.reason@,
                self.message,
                self.error_type,
                self.detail,
            ),
    {
        report("Client error", &self.reason, &self.message, &self.error_type, &self.detail)
    }
}

impl ServerError {
    /// The report of this error:
    /// `Server error: Reason=..., Message=..., Type=..., Detail=...`, with the
    /// optional fields as `{:?}` writes them.
    pub fn display_text(&self) -> (r: String)
        ensures
            is_report(
                r@,
                "Server error"@,
                self.reason@,
                self.message,
                self.error_type,
                self.detail,
            ),
    {
        report("Server error", &self.reason, &self.message, &self.error_type, &self.detail)
    }
}

impl UnkownError {
    /// The report of this error.
    pub fn display_text(&self) -> (r: String)
        ensures
            r@ == "Unkown error"@,
    {
        String::from_str("Unkown error")
    }
}

/// Represents various error types that can occur in the Clash of Clans client.
#[derive(Debug)]
pub enum CoCClientError {
    /// Represents an error that occurred during a request.
    Request(reqwest::Error),
    /// Represents an error that occurred during deserialization.
    Deserlisation(serde_json::Error),
    /// Represents an error that occurred on the client side.
    ClientError(ClientError),
    /// Represents an error that occurred on the server side.
    ServerError(ServerError),
    /// Represents an error where the client is missing in the CoCClient.
    MissingClientError,
    /// Represents an unknown error.
    UnkownError,
}

impl CoCClientError {
    /// The report of this error. An error of the HTTP layer or of the JSON
    /// decoder is reported after a title, as its `Display` writes it.
    pub fn display_text(&self) -> (r: String)
        ensures
            match self {
                CoCClientError::Request(err) => exists|t: String|
                    to_string_from_display_ensures::<reqwest::Error>(err, t) && r@ == "Request error: "@
                        + t@,
                CoCClientError::Deserlisation(err) => exists|t: String|
                    to_string_from_display_ensures::<serde_json::Error>(err, t) && r@
                        == "Deserialization error: "@ + t@,
                CoCClientError::ClientError(e) => is_report(
                    r@,
                    "Client error"@,
                    e.reason@,
                    e.message,
                    e.error_type,
                    e.detail,
                ),
                CoCClientError::ServerError(e) => is_report(
                    r@,
                    "Server error"@,
                    e.reason@,
                    e.message,
                    e.error_type,
                    e.detail,
                ),
                CoCClientError::MissingClientError => r@ == "Client is missing in CoCClient"@,
                CoCClientError::UnkownError => r@ == "unkown error"@,
            },
    {
        match self {
            CoCClientError::Request(err) => {
                let mut out = String::from_str("Request error: ");
                let t = err.to_string();
                out.append(t.as_str());
                out
            },
            CoCClientError::Deserlisation(err) => {
                let mut out = String::from_str("Deserialization error: ");
                let t = err.to_string();
                out.append(t.as_str());
                out
            },
            CoCClientError::ClientError(e) => e.display_text(),
            CoCClientError::ServerError(e) => e.display_text(),
            CoCClientError::MissingClientError => String::from_str("Client is missing in CoCClient"),
            CoCClientError::UnkownError => String::from_str("unkown error"),
        }
    }
}

} // verus!
