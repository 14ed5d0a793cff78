//! The cloud-API transport: OAuth2 client-credentials token acquisition from
//! the Microsoft Identity service, followed by MIME mail submission to the
//! Microsoft Graph API, authenticated with the acquired bearer token.
//!
//! The functions here decide everything that does not require a network: they
//! build both HTTP requests exactly, interpret the token response, and
//! classify the outcome of the submission. The embedding application performs
//! the two POSTs and reports what it observed as [`TokenFetchEvent`] and
//! [`HttpSendEvent`] values.

use vstd::prelude::*;
use vstd::string::*;

use base64::Engine;

use crate::credential::Credential;
use crate::message::Message;

verus! {

// == Errors ==

/// Why an access token could not be acquired from the identity service.
#[derive(Clone, Copy, Debug, PartialEq, Eq, Structural)]
pub enum OutlookAccessTokenError {
    /// The token request could not be transmitted.
    SendRequest,
    /// The token response body could not be received.
    ReceiveResponse,
    /// The token response did not parse as JSON holding a string field
    /// `access_token`.
    ParseResponse,
}

/// Why constructing the mailer or sending a message through it failed.
#[derive(Clone, Copy, Debug, PartialEq, Eq, Structural)]
pub enum OutlookMailerError {
    /// Construction failed: no access token could be retrieved.
    RetrieveAccessToken(OutlookAccessTokenError),
    /// The mail submission request could not be transmitted.
    SendMailRequest,
    /// The mail API answered with the given non-success HTTP status.
    SendMailResponse(u16),
    /// The mail API response body could not be received while it was being
    /// read for diagnostics.
    SendMailResponseBody,
}

impl OutlookAccessTokenError {
    /// The display text of this error.
    pub open spec fn describe_spec(&self) -> Seq<char> {
        match self {
            OutlookAccessTokenError::SendRequest => "failed sending OAuth2 client credentials grant access token request to Microsoft Identity service"@,
            OutlookAccessTokenError::ReceiveResponse => "failed receiving OAuth2 client credentials grant access token response from Microsoft Identity service"@,
            OutlookAccessTokenError::ParseResponse => "failed to parse OAuth2 client credentials grant access token response from Microsoft Identity service"@,
        }
    }

    /// A human-readable description of the error.
    pub fn describe(&self) -> (s: String)
        ensures
            s@ == self.describe_spec(),
    {
        match self {
            OutlookAccessTokenError::SendRequest => "failed sending OAuth2 client credentials grant access token request to Microsoft Identity service".to_owned(),
            OutlookAccessTokenError::ReceiveResponse => "failed receiving OAuth2 client credentials grant access token response from Microsoft Identity service".to_owned(),
            OutlookAccessTokenError::ParseResponse => "failed to parse OAuth2 client credentials grant access token response from Microsoft Identity service".to_owned(),
        }
    }
}

impl OutlookMailerError {
    /// The display text of this error.
    pub open spec fn describe_spec(&self) -> Seq<char> {
        match self {
            OutlookMailerError::RetrieveAccessToken(_) => "failed to retrieve Microsoft Graph API access token"@,
            OutlookMailerError::SendMailRequest => "failed request attempting to send Outlook MIME mail through Microsoft Graph API"@,
            OutlookMailerError::SendMailResponse(_) => "failed sending Outlook MIME mail through Microsoft Graph API"@,
            OutlookMailerError::SendMailResponseBody => "failed retrieving response body from Microsoft Graph API"@,
        }
    }

    /// A human-readable description of the error.
    pub fn describe(&self) -> (s: String)
        ensures
            s@ == self.describe_spec(),
    {
        match self {
            OutlookMailerError::RetrieveAccessToken(_) => "failed to retrieve Microsoft Graph API access token".to_owned(),
            OutlookMailerError::SendMailRequest => "failed request attempting to send Outlook MIME mail through Microsoft Graph API".to_owned(),
            OutlookMailerError::SendMailResponse(_) => "failed sending Outlook MIME mail through Microsoft Graph API".to_owned(),
            OutlookMailerError::SendMailResponseBody => "failed retrieving response body from Microsoft Graph API".to_owned(),
        }
    }
}

// == Events: what the application observed on the network ==

/// The observed outcome of posting the token request.
#[derive(Debug)]
pub enum TokenFetchEvent {
    /// The request could not be transmitted.
    SendFailed,
    /// The request went out, but the response body could not be received.
    ReceiveFailed,
    /// The full response body was received.
    Received(Vec<u8>),
}

/// The observed outcome of posting the mail submission request.
#[derive(Clone, Copy, Debug, PartialEq, Eq, Structural)]
pub enum HttpSendEvent {
    /// The request could not be transmitted.
    SendFailed,
    /// A response arrived with this status; reading its body for diagnostics
    /// may have failed.
    Response { status: u16, body_read_failed: bool },
}

/// Whether an HTTP status code reports success.
pub open spec fn is_success_status(status: u16) -> bool {
    200 <= status < 300
}

// == Trusted items ==

/// The access token a JSON document carries: the value of its string field
/// `access_token`, or nothing where the bytes are not a JSON object with such
/// a field.
pub uninterp spec fn access_token_of(bytes: Seq<u8>) -> Option<Seq<char>>;

/// Relies on `serde_json::from_slice::<serde_json::Value>`,
/// `serde_json::Value::get` and `serde_json::Value::as_str`: together they
/// return the string field `access_token` of a JSON document, a function of
/// the bytes alone, and nothing for bytes that do not parse as JSON or whose
/// parse has no such string field.
#[verifier::external_body]
fn parse_access_token(bytes: &[u8]) -> (r: Option<String>)
    ensures
        r is Some <==> access_token_of(bytes@) is Some,
        r matches Some(token) ==> access_token_of(bytes@) == Some(token@),
{
    match serde_json::from_slice::<serde_json::Value>(bytes) {
        Ok(value) => match value.get("access_token") {
            Some(field) => match field.as_str() {
                Some(token) => Some(token.to_owned()),
                None => None,
            },
            None => None,
        },
        Err(_) => None,
    }
}

/// The padded, standard-alphabet base64 text of a byte sequence.
pub uninterp spec fn base64_of(bytes: Seq<u8>) -> Seq<char>;

/// Relies on `base64::engine::general_purpose::STANDARD` through
/// `base64::Engine::encode`: the padded standard-alphabet base64 text of the
/// bytes, a function of the bytes alone, four output characters for every
/// three input bytes begun. The length bound keeps the output length
/// representable, which the engine otherwise treats as a panic.
#[verifier::external_body]
fn base64_encode(bytes: &[u8]) -> (r: String)
    requires
        4 * ((bytes@.len() + 2) / 3) <= usize::MAX,
    ensures
        r@ == base64_of(bytes@),
        r@.len() == 4 * ((bytes@.len() + 2) / 3),
{
    base64::engine::general_purpose::STANDARD.encode(bytes)
}

// == Token acquisition ==

/// The token endpoint of the identity service for a tenant.
pub open spec fn token_url_spec(tenant: Seq<char>) -> Seq<char> {
    "https://login.microsoftonline.com/"@ + tenant + "/oauth2/v2.0/token"@
}

/// The form fields of a client-credentials grant request.
pub open spec fn token_form_spec(
    client_id: Seq<char>,
    client_secret: Seq<char>,
    form: Seq<(String, String)>,
) -> bool {
    &&& form.len() == 4
    &&& form[0].0@ == "client_id"@ && form[0].1@ == client_id
    &&& form[1].0@ == "client_secret"@ && form[1].1@ == client_secret
    &&& form[2].0@ == "grant_type"@ && form[2].1@ == "client_credentials"@
    &&& form[3].0@ == "scope"@ && form[3].1@ == "https://graph.microsoft.com/.default"@
}

/// A form-encoded HTTP POST the application is asked to transmit.
pub struct HttpFormRequest {
    /// Target URL.
    pub url: String,
    /// Form fields, in order.
    pub form: Vec<(String, String)>,
}

/// What the token acquisition concludes from the observed event: the token
/// character sequence carried by a received, well-formed response, and the
/// matching error for every other observation.
pub open spec fn token_outcome_spec(event: TokenFetchEvent) -> Result<
    Seq<char>,
    OutlookAccessTokenError,
> {
    match event {
        TokenFetchEvent::SendFailed => Err(OutlookAccessTokenError::SendRequest),
        TokenFetchEvent::ReceiveFailed => Err(OutlookAccessTokenError::ReceiveResponse),
        TokenFetchEvent::Received(bytes) => match access_token_of(bytes@) {
            Some(token) => Ok(token),
            None => Err(OutlookAccessTokenError::ParseResponse),
        },
    }
}

/// Interpret the observed outcome of the token request: extract the access
/// token from a received response, or report exactly which step failed.
pub fn get_access_token(event: TokenFetchEvent) -> (r: Result<Credential, OutlookAccessTokenError>)
    ensures
        r is Ok <==> token_outcome_spec(event) is Ok,
        r matches Ok(c) ==> token_outcome_spec(event) == Ok::<_, OutlookAccessTokenError>(c@),
        r matches Err(e) ==> token_outcome_spec(event) == Err::<Seq<char>, _>(e),
{
    match event {
        TokenFetchEvent::SendFailed => Err(OutlookAccessTokenError::SendRequest),
        TokenFetchEvent::ReceiveFailed => Err(OutlookAccessTokenError::ReceiveResponse),
        TokenFetchEvent::Received(bytes) => match parse_access_token(bytes.as_slice()) {
            Some(token) => Ok(Credential::new(token)),
            None => Err(OutlookAccessTokenError::ParseResponse),
        },
    }
}

// == The mailer ==

/// The mail submission endpoint of the mail API for a sender address.
pub open spec fn send_mail_url_spec(from: Seq<char>) -> Seq<char> {
    "https://graph.microsoft.com/v1.0/users/"@ + from + "/sendMail"@
}

/// The authorization header value carrying a bearer token.
pub open spec fn bearer_spec(token: Seq<char>) -> Seq<char> {
    "Bearer "@ + token
}

/// The mail submission POST the application is asked to transmit: target URL,
/// the two headers, and the base64-encoded MIME body.
pub struct OutlookSendRequest {
    /// Target URL: the per-sender send-mail endpoint.
    pub url: String,
    /// `Authorization` header value.
    pub authorization: String,
    /// `Content-Type` header value.
    pub content_type: String,
    /// Request body: the base64 text of the raw MIME message bytes.
    pub body: String,
}

/// The submission request a mailer with this token builds for a message:
/// posted to the sender's send-mail endpoint, authorized by the bearer token,
/// typed `text/plain`, carrying the base64 of the raw body bytes.
pub open spec fn sends_request_for(
    mailer: OutlookMailer,
    message: Message,
    r: OutlookSendRequest,
) -> bool {
    &&& r.url@ == send_mail_url_spec(message.mail_from@)
    &&& r.authorization@ == bearer_spec(mailer.token_view())
    &&& r.content_type@ == "text/plain"@
    &&& r.body@ == base64_of(message.body@)
}

/// Sending is not idempotent and never deduplicated: a transport keeps no
/// record of what it sent, so any two submission requests it builds for the
/// same message — in particular, for a first and a second send of that
/// message — are the same full submission, and each is dispatched.
pub proof fn lemma_resend_builds_same_request(
    mailer: OutlookMailer,
    message: Message,
    first: OutlookSendRequest,
    second: OutlookSendRequest,
)
    requires
        sends_request_for(mailer, message, first),
        sends_request_for(mailer, message, second),
    ensures
        first.url@ == second.url@,
        first.authorization@ == second.authorization@,
        first.content_type@ == second.content_type@,
        first.body@ == second.body@,
{
}

/// The cloud-API mailer: holds the access token captured at construction.
///
/// The token is never refreshed or invalidated afterwards: once it expires,
/// every later send fails with the submission's rejection error. This is a
/// documented limitation, not an accident.
#[derive(Clone)]
pub struct OutlookMailer {
    access_token: Credential,
}

impl OutlookMailer {
    /// The character sequence of the stored access token.
    pub closed spec fn token_view(&self) -> Seq<char> {
        self.access_token@
    }

    /// The client-credentials grant request that construction must transmit
    /// to the identity service for this tenant and application.
    pub fn access_token_request(
        tenant: &str,
        app_guid: &str,
        secret: &Credential,
    ) -> (r: HttpFormRequest)
        ensures
            r.url@ == token_url_spec(tenant@),
            token_form_spec(app_guid@, secret@, r.form@),
    {
        let mut url = "https://login.microsoftonline.com/".to_owned();
        url.append(tenant);
        url.append("/oauth2/v2.0/token");

        let mut form: Vec<(String, String)> = Vec::new();
        form.push(("client_id".to_owned(), app_guid.to_owned()));
        form.push(("client_secret".to_owned(), secret.expose_secret().to_owned()));
        form.push(("grant_type".to_owned(), "client_credentials".to_owned()));
        form.push(("scope".to_owned(), "https://graph.microsoft.com/.default".to_owned()));

        HttpFormRequest { url, form }
    }

    /// Conclude construction from the observed outcome of the token request:
    /// a mailer holding the received token, or the construction error wrapping
    /// exactly the token-acquisition failure. A single failed attempt is
    /// terminal; there is no retry.
    pub fn new(event: TokenFetchEvent) -> (r: Result<OutlookMailer, OutlookMailerError>)
        ensures
            r is Ok <==> token_outcome_spec(event) is Ok,
            r matches Ok(m) ==> token_outcome_spec(event) == Ok::<_, OutlookAccessTokenError>(
                m.token_view(),
            ),
            r matches Err(e) ==> token_outcome_spec(event) matches Err(te) && e
                == OutlookMailerError::RetrieveAccessToken(te),
    {
        match get_access_token(event) {
            Ok(access_token) => Ok(OutlookMailer { access_token }),
            Err(e) => Err(OutlookMailerError::RetrieveAccessToken(e)),
        }
    }

    /// The stored access token.
    pub fn access_token(&self) -> (c: &Credential)
        ensures
            c@ == self.token_view(),
    {
        &self.access_token
    }

    /// The submission request this mailer builds for a message: the exact
    /// URL, headers and base64 body posted to the mail API. The request is a
    /// pure function of the mailer and the message, so building it neither
    /// changes the mailer nor the message.
    pub fn send_mail_request(&self, message: &Message) -> (r: OutlookSendRequest)
        requires
            4 * ((message.body@.len() + 2) / 3) <= usize::MAX,
        ensures
            sends_request_for(*self, *message, r),
    {
        let mut url = "https://graph.microsoft.com/v1.0/users/".to_owned();
        url.append(message.mail_from.as_str());
        url.append("/sendMail");

        let mut authorization = "Bearer ".to_owned();
        authorization.append(self.access_token.expose_secret());

        let body = base64_encode(message.body.as_slice());

        OutlookSendRequest { url, authorization, content_type: "text/plain".to_owned(), body }
    }

    /// A human-readable identification of the mailer. It is a fixed string:
    /// in particular, it is independent of the stored token, so diagnostics
    /// built from it can never leak the credential.
    pub fn debug_text(&self) -> (s: String)
        ensures
            s@ == "OutlookMailer { access_token: [REDACTED] }"@,
    {
        "OutlookMailer { access_token: [REDACTED] }".to_owned()
    }
}

} // verus!
