//! The configuration selector and factory: a tagged union naming which
//! transport to build and with what credentials, consumed exactly once to
//! produce a transport behind the capability interface.
//!
//! SMTP construction is pure, so that branch finishes at once and cannot
//! fail. Cloud-API construction must first fetch an access token: the
//! factory hands the application the exact token request to transmit, and
//! concludes from the observed outcome — failing precisely when token
//! acquisition fails, with that error unchanged.

use vstd::prelude::*;

use crate::credential::Credential;
use crate::outlook::{
    token_form_spec, token_outcome_spec, token_url_spec, HttpFormRequest, OutlookMailer,
    OutlookMailerError, TokenFetchEvent,
};
use crate::smtp::{SmtpInvalidCertsPolicy, SmtpMailer};

verus! {

/// Which transport to build, and with what parameters. Consumed exactly once
/// by the factory.
pub enum MailerConfiguration {
    /// Build a cloud-API mailer for this identity-service tenant and
    /// application.
    Outlook {
        /// Identity-service tenant.
        tenant: String,
        /// OAuth2 application id.
        app_guid: String,
        /// OAuth2 application client secret.
        secret: Credential,
    },
    /// Build an SMTP mailer for this host.
    Smtp {
        /// SMTP host name.
        host: String,
        /// SMTP port.
        port: u16,
        /// Whether invalid TLS certificates are accepted.
        invalid_certs: SmtpInvalidCertsPolicy,
        /// Authentication user name.
        user: String,
        /// Authentication password.
        password: Credential,
    },
}

/// One of the transports, chosen at runtime, behind a single type.
pub enum AnyMailer {
    /// A cloud-API mailer.
    Outlook(OutlookMailer),
    /// An SMTP mailer.
    Smtp(SmtpMailer),
}

/// What the factory concluded from a configuration: either the finished
/// transport, or the token request that must be transmitted first.
pub enum MailerSetup {
    /// Cloud-API construction: transmit this token request, then conclude
    /// with [`finish_outlook_mailer`] on the observed outcome.
    NeedsAccessToken(HttpFormRequest),
    /// The transport is ready; nothing had to be transmitted.
    Ready(AnyMailer),
}

/// Map a configuration to its transport's construction path: an SMTP
/// configuration yields a ready mailer storing exactly the given parameters
/// — that branch is infallible — and a cloud-API configuration yields the
/// client-credentials token request for its tenant and application.
pub fn plan_mailer(configuration: MailerConfiguration) -> (r: MailerSetup)
    ensures
        configuration matches MailerConfiguration::Smtp {
            host,
            port,
            invalid_certs,
            user,
            password,
        } ==> r matches MailerSetup::Ready(AnyMailer::Smtp(m)) && m.plan().host@ == host@
            && m.plan().port == port && m.plan().allow_invalid_certs == (
        invalid_certs is Allow) && m.plan().user@ == user@ && m.plan().password@ == password@
            && m.plan().timeout_secs == 30,
        configuration matches MailerConfiguration::Outlook { tenant, app_guid, secret }
            ==> r matches MailerSetup::NeedsAccessToken(req) && req.url@ == token_url_spec(
            tenant@,
        ) && token_form_spec(app_guid@, secret@, req.form@),
{
    match configuration {
        MailerConfiguration::Outlook { tenant, app_guid, secret } => {
            let request = OutlookMailer::access_token_request(
                tenant.as_str(),
                app_guid.as_str(),
                &secret,
            );
            MailerSetup::NeedsAccessToken(request)
        },
        MailerConfiguration::Smtp { host, port, invalid_certs, user, password } => {
            MailerSetup::Ready(
                AnyMailer::Smtp(SmtpMailer::new(host, port, invalid_certs, user, password)),
            )
        },
    }
}

/// Conclude cloud-API construction from the observed outcome of the token
/// request. Fails exactly when token acquisition fails, propagating that
/// error unchanged.
pub fn finish_outlook_mailer(event: TokenFetchEvent) -> (r: Result<AnyMailer, OutlookMailerError>)
    ensures
        r is Ok <==> token_outcome_spec(event) is Ok,
        r matches Ok(AnyMailer::Outlook(m)) ==> token_outcome_spec(event) == Ok::<
            _,
            crate::outlook::OutlookAccessTokenError,
        >(m.token_view()),
        r is Ok ==> r matches Ok(AnyMailer::Outlook(m)),
        r matches Err(e) ==> token_outcome_spec(event) matches Err(te) && e
            == OutlookMailerError::RetrieveAccessToken(te),
{
    match OutlookMailer::new(event) {
        Ok(mailer) => Ok(AnyMailer::Outlook(mailer)),
        Err(e) => Err(e),
    }
}

} // verus!
