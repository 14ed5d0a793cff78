//! A uniform capability interface for sending e-mail through interchangeable
//! transports: a cloud mail API (OAuth2 client-credentials over HTTP) and
//! direct SMTP.
//!
//! The library holds the decision logic of both transports: request
//! construction, token-response interpretation, outcome classification, and
//! the configuration-driven factory. The embedding application performs the
//! network round trips and reports each observed outcome back as a plain
//! event value.

pub mod config;
pub mod credential;
pub mod mailer;
pub mod message;
pub mod outlook;
pub mod smtp;

pub use config::{finish_outlook_mailer, plan_mailer, AnyMailer, MailerConfiguration, MailerSetup};
pub use credential::Credential;
pub use mailer::{DynMailer, DynMailerError, Mailer};
pub use message::{format_recipient_addresses, Message};
pub use outlook::{
    HttpFormRequest, HttpSendEvent, OutlookAccessTokenError, OutlookMailer, OutlookMailerError,
    OutlookSendRequest, TokenFetchEvent,
};
pub use smtp::{
    SmtpConnectionPlan, SmtpInvalidCertsPolicy, SmtpMailer, SmtpMailerError, SmtpSendEvent,
};
