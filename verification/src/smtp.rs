//! The SMTP transport: construction stores the connection configuration —
//! host, port, certificate-validation policy, credentials and a fixed
//! 30-second timeout — and cannot fail; every send opens a fresh connection
//! from that configuration and runs one transaction over it.
//!
//! The functions here decide what the connection looks like and what each
//! observed connection or transaction outcome means. The embedding
//! application opens the connection and reports a [`SmtpSendEvent`].

use vstd::prelude::*;

use crate::credential::Credential;

verus! {

/// Why an SMTP send failed.
#[derive(Clone, Copy, Debug, PartialEq, Eq, Structural)]
pub enum SmtpMailerError {
    /// Could not connect to or authenticate with the SMTP host.
    Connect,
    /// The connection stood, but the mail transaction did not complete.
    Send,
}

impl SmtpMailerError {
    /// The display text of this error.
    pub open spec fn describe_spec(&self) -> Seq<char> {
        match self {
            SmtpMailerError::Connect => "could not connect to SMTP host"@,
            SmtpMailerError::Send => "could not send SMTP mail"@,
        }
    }

    /// A human-readable description of the error.
    pub fn describe(&self) -> (s: String)
        ensures
            s@ == self.describe_spec(),
    {
        match self {
            SmtpMailerError::Connect => "could not connect to SMTP host".to_owned(),
            SmtpMailerError::Send => "could not send SMTP mail".to_owned(),
        }
    }
}

/// Whether connections to SMTP hosts presenting invalid TLS certificates are
/// allowed or denied. The default denies them; allowing them is only for
/// development against servers with self-signed certificates — never use
/// `Allow` against production endpoints.
#[derive(Clone, Copy, Debug, PartialEq, Eq, Structural)]
pub enum SmtpInvalidCertsPolicy {
    /// Allow connecting despite an invalid TLS certificate.
    Allow,
    /// Deny connecting with an invalid TLS certificate.
    Deny,
}

impl Default for SmtpInvalidCertsPolicy {
    /// The default policy denies invalid certificates.
    fn default() -> (r: Self)
        ensures
            r == SmtpInvalidCertsPolicy::Deny,
    {
        SmtpInvalidCertsPolicy::Deny
    }
}

/// The configuration a send call connects with, fixed at construction:
/// everything the application needs to open the authenticated, optionally
/// certificate-relaxed connection.
#[derive(Clone)]
pub struct SmtpConnectionPlan {
    /// SMTP host name.
    pub host: String,
    /// SMTP port.
    pub port: u16,
    /// Whether invalid TLS certificates are accepted during negotiation.
    pub allow_invalid_certs: bool,
    /// Authentication user name.
    pub user: String,
    /// Authentication password.
    pub password: Credential,
    /// Operation timeout, in seconds.
    pub timeout_secs: u64,
}

/// The observed outcome of one SMTP send attempt.
#[derive(Clone, Copy, Debug, PartialEq, Eq, Structural)]
pub enum SmtpSendEvent {
    /// The connection could not be opened or authenticated.
    ConnectFailed,
    /// The connection stood, but the transaction did not complete.
    SendFailed,
    /// The transaction completed.
    Sent,
}

/// The SMTP mailer: a stored connection plan, reused by every send call.
/// Construction is pure and cannot fail; no network activity happens before
/// the first send.
#[derive(Clone)]
pub struct SmtpMailer {
    inner: SmtpConnectionPlan,
}

impl SmtpMailer {
    /// The stored connection plan.
    pub closed spec fn plan(&self) -> SmtpConnectionPlan {
        self.inner
    }

    /// Create an SMTP mailer. Only stores configuration: the host and port to
    /// connect to, the certificate policy, the credentials, and the fixed
    /// 30-second operation timeout.
    pub fn new(
        host: String,
        port: u16,
        invalid_certs: SmtpInvalidCertsPolicy,
        user: String,
        password: Credential,
    ) -> (r: SmtpMailer)
        ensures
            r.plan().host@ == host@,
            r.plan().port == port,
            r.plan().allow_invalid_certs == (invalid_certs is Allow),
            r.plan().user@ == user@,
            r.plan().password@ == password@,
            r.plan().timeout_secs == 30,
    {
        let allow_invalid_certs = match invalid_certs {
            SmtpInvalidCertsPolicy::Allow => true,
            SmtpInvalidCertsPolicy::Deny => false,
        };
        SmtpMailer {
            inner: SmtpConnectionPlan {
                host,
                port,
                allow_invalid_certs,
                user,
                password,
                timeout_secs: 30,
            },
        }
    }

    /// The connection plan a send call uses. Every send opens a fresh
    /// connection from this same plan: connections are transaction-scoped and
    /// never pooled or reused across calls.
    pub fn connection_plan(&self) -> (r: &SmtpConnectionPlan)
        ensures
            *r == self.plan(),
    {
        &self.inner
    }

    /// A human-readable identification of the mailer. It is a fixed string:
    /// in particular, it is independent of the stored password, so
    /// diagnostics built from it can never leak the credential.
    pub fn debug_text(&self) -> (s: String)
        ensures
            s@ == "Client (SMTP)"@,
    {
        "Client (SMTP)".to_owned()
    }
}

} // verus!
