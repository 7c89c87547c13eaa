//! The status catalog: the closed set of two-digit status codes of the
//! protocol, their categories, and their human-readable labels.

use vstd::prelude::*;

verus! {

/// The closed set of two-digit status codes the protocol defines, grouped by
/// leading digit: input required (10-11), success (20), redirect (30-31),
/// temporary failure (40-44), permanent failure (50-53, 59), and
/// certificate-related (60-62).
#[derive(Debug, Clone, Copy, PartialEq, Eq, Structural)]
pub enum GeminiStatus {
    Input,
    SensitiveInput,
    Success,
    TemporaryRedirect,
    PermanentRedirect,
    TemporaryFailure,
    ServerUnavailable,
    CGIError,
    ProxyError,
    SlowDown,
    PermanentFailure,
    NotFound,
    Gone,
    ProxyRequestRefused,
    BadRequest,
    ClientCertificateRequired,
    CertificateNotAuthorized,
    CertificateNotValid,
}

/// The status, if any, that a two-digit code denotes.  Codes outside the
/// closed set map to `None`: an unknown code is a decode failure, never a
/// silent default.
pub open spec fn spec_status_of_code(v: u8) -> Option<GeminiStatus> {
    match v {
        10u8 => Some(GeminiStatus::Input),
        11u8 => Some(GeminiStatus::SensitiveInput),
        20u8 => Some(GeminiStatus::Success),
        30u8 => Some(GeminiStatus::TemporaryRedirect),
        31u8 => Some(GeminiStatus::PermanentRedirect),
        40u8 => Some(GeminiStatus::TemporaryFailure),
        41u8 => Some(GeminiStatus::ServerUnavailable),
        42u8 => Some(GeminiStatus::CGIError),
        43u8 => Some(GeminiStatus::ProxyError),
        44u8 => Some(GeminiStatus::SlowDown),
        50u8 => Some(GeminiStatus::PermanentFailure),
        51u8 => Some(GeminiStatus::NotFound),
        52u8 => Some(GeminiStatus::Gone),
        53u8 => Some(GeminiStatus::ProxyRequestRefused),
        59u8 => Some(GeminiStatus::BadRequest),
        60u8 => Some(GeminiStatus::ClientCertificateRequired),
        61u8 => Some(GeminiStatus::CertificateNotAuthorized),
        62u8 => Some(GeminiStatus::CertificateNotValid),
        _ => None,
    }
}

/// The numeric code of a status: the inverse of `spec_status_of_code` on the
/// closed set.
pub open spec fn spec_code_of_status(s: GeminiStatus) -> u8 {
    match s {
        GeminiStatus::Input => 10u8,
        GeminiStatus::SensitiveInput => 11u8,
        GeminiStatus::Success => 20u8,
        GeminiStatus::TemporaryRedirect => 30u8,
        GeminiStatus::PermanentRedirect => 31u8,
        GeminiStatus::TemporaryFailure => 40u8,
        GeminiStatus::ServerUnavailable => 41u8,
        GeminiStatus::CGIError => 42u8,
        GeminiStatus::ProxyError => 43u8,
        GeminiStatus::SlowDown => 44u8,
        GeminiStatus::PermanentFailure => 50u8,
        GeminiStatus::NotFound => 51u8,
        GeminiStatus::Gone => 52u8,
        GeminiStatus::ProxyRequestRefused => 53u8,
        GeminiStatus::BadRequest => 59u8,
        GeminiStatus::ClientCertificateRequired => 60u8,
        GeminiStatus::CertificateNotAuthorized => 61u8,
        GeminiStatus::CertificateNotValid => 62u8,
    }
}

/// The fixed human-readable label of a status.
pub open spec fn spec_label_of_status(s: GeminiStatus) -> Seq<char> {
    match s {
        GeminiStatus::Input => "input"@,
        GeminiStatus::SensitiveInput => "sensitive input"@,
        GeminiStatus::Success => "success"@,
        GeminiStatus::TemporaryRedirect => "temporary redirect"@,
        GeminiStatus::PermanentRedirect => "permanent redirect"@,
        GeminiStatus::TemporaryFailure => "temporary failure"@,
        GeminiStatus::ServerUnavailable => "server unavailable"@,
        GeminiStatus::CGIError => "CGI error"@,
        GeminiStatus::ProxyError => "proxy error"@,
        GeminiStatus::SlowDown => "slow down"@,
        GeminiStatus::PermanentFailure => "permanent failure"@,
        GeminiStatus::NotFound => "not found"@,
        GeminiStatus::Gone => "gone"@,
        GeminiStatus::ProxyRequestRefused => "proxy request refused"@,
        GeminiStatus::BadRequest => "bad request"@,
        GeminiStatus::ClientCertificateRequired => "client certificate required"@,
        GeminiStatus::CertificateNotAuthorized => "certificate not authorized"@,
        GeminiStatus::CertificateNotValid => "certificate not valid"@,
    }
}

impl GeminiStatus {
    /// A redirect status: the meta text names the next address to pursue.
    pub open spec fn spec_is_redirect(self) -> bool {
        self is TemporaryRedirect || self is PermanentRedirect
    }

    /// A terminal status: neither input, success nor redirect, so a fetch
    /// stops here and surfaces the status's label.
    pub open spec fn spec_is_terminal_failure(self) -> bool {
        !(self is Input || self is SensitiveInput || self is Success
            || self.spec_is_redirect())
    }

    /// The fixed human-readable label of this status.
    pub fn to_str(&self) -> (r: &'static str)
        ensures
            r@ == spec_label_of_status(*self),
    {
        match self {
            GeminiStatus::Input => "input",
            GeminiStatus::SensitiveInput => "sensitive input",
            GeminiStatus::Success => "success",
            GeminiStatus::TemporaryRedirect => "temporary redirect",
            GeminiStatus::PermanentRedirect => "permanent redirect",
            GeminiStatus::TemporaryFailure => "temporary failure",
            GeminiStatus::ServerUnavailable => "server unavailable",
            GeminiStatus::CGIError => "CGI error",
            GeminiStatus::ProxyError => "proxy error",
            GeminiStatus::SlowDown => "slow down",
            GeminiStatus::PermanentFailure => "permanent failure",
            GeminiStatus::NotFound => "not found",
            GeminiStatus::Gone => "gone",
            GeminiStatus::ProxyRequestRefused => "proxy request refused",
            GeminiStatus::BadRequest => "bad request",
            GeminiStatus::ClientCertificateRequired => "client certificate required",
            GeminiStatus::CertificateNotAuthorized => "certificate not authorized",
            GeminiStatus::CertificateNotValid => "certificate not valid",
        }
    }

    /// Decode a two-digit code.  Total over the closed set; any other value
    /// yields `None`.
    pub fn from_u8(v: u8) -> (r: Option<GeminiStatus>)
        ensures
            r == spec_status_of_code(v),
    {
        match v {
            10 => Some(GeminiStatus::Input),
            11 => Some(GeminiStatus::SensitiveInput),
            20 => Some(GeminiStatus::Success),
            30 => Some(GeminiStatus::TemporaryRedirect),
            31 => Some(GeminiStatus::PermanentRedirect),
            40 => Some(GeminiStatus::TemporaryFailure),
            41 => Some(GeminiStatus::ServerUnavailable),
            42 => Some(GeminiStatus::CGIError),
            43 => Some(GeminiStatus::ProxyError),
            44 => Some(GeminiStatus::SlowDown),
            50 => Some(GeminiStatus::PermanentFailure),
            51 => Some(GeminiStatus::NotFound),
            52 => Some(GeminiStatus::Gone),
            53 => Some(GeminiStatus::ProxyRequestRefused),
            59 => Some(GeminiStatus::BadRequest),
            60 => Some(GeminiStatus::ClientCertificateRequired),
            61 => Some(GeminiStatus::CertificateNotAuthorized),
            62 => Some(GeminiStatus::CertificateNotValid),
            _ => None,
        }
    }
}

/// Decoding a code and reading its label is stable and total over the closed
/// set: a code resolves exactly when it is one of the eighteen listed codes,
/// the status it resolves to maps back to the same code, and every status in
/// the catalog carries a nonempty label.  A code outside the set never
/// resolves, so no unknown code can reach a label by decoding.
pub proof fn lemma_status_catalog(v: u8)
    ensures
        spec_status_of_code(v) is Some <==> (10 <= v <= 11 || v == 20 || 30 <= v <= 31
            || 40 <= v <= 44 || 50 <= v <= 53 || v == 59 || 60 <= v <= 62),
        spec_status_of_code(v) matches Some(s) ==> spec_code_of_status(s) == v,
        spec_status_of_code(v) matches Some(s) ==> spec_label_of_status(s).len() > 0,
{
    if let Some(s) = spec_status_of_code(v) {
        reveal_strlit("input");
        reveal_strlit("sensitive input");
        reveal_strlit("success");
        reveal_strlit("temporary redirect");
        reveal_strlit("permanent redirect");
        reveal_strlit("temporary failure");
        reveal_strlit("server unavailable");
        reveal_strlit("CGI error");
        reveal_strlit("proxy error");
        reveal_strlit("slow down");
        reveal_strlit("permanent failure");
        reveal_strlit("not found");
        reveal_strlit("gone");
        reveal_strlit("proxy request refused");
        reveal_strlit("bad request");
        reveal_strlit("client certificate required");
        reveal_strlit("certificate not authorized");
        reveal_strlit("certificate not valid");
    }
}

} // verus!
