//! The capability interface: a single "send a prepared message" operation in
//! a statically typed form ([`Mailer`], with a per-transport error type) and
//! a dynamically typed form ([`DynMailer`], with one uniform error type).
//!
//! The dynamic form only delegates to the static form and converts the
//! error; its success or failure outcome is provably the same.
//!
//! A send borrows the message immutably (`&Message`) and borrows the
//! transport immutably (`&self`): no implementation can mutate the message,
//! require exclusive access, or record a send in the transport.

use vstd::prelude::*;

use crate::message::Message;
use crate::outlook::{
    is_success_status, HttpSendEvent, OutlookMailer, OutlookMailerError,
};
use crate::smtp::{SmtpMailer, SmtpMailerError, SmtpSendEvent};

verus! {

/// The statically typed capability: one send operation, with the transport's
/// own error type, usable in generic bounds without dynamic dispatch.
///
/// A transport performs its network work through the embedding application
/// and is handed back what was observed as a `Self::Event`; `send_mail`
/// decides the outcome. Its result is fully determined by the transport, the
/// message and the event — implementations keep no send history.
pub trait Mailer: Sized {
    /// What the application observed while transmitting the message.
    type Event;

    /// The transport's error type.
    type Error;

    /// The outcome this transport concludes for a message and an observation.
    spec fn send_outcome_spec(&self, message: Message, event: Self::Event) -> Result<
        (),
        Self::Error,
    >;

    /// Conclude one send of `message` from the observed `event`.
    fn send_mail(&self, message: &Message, event: Self::Event) -> (r: Result<(), Self::Error>)
        ensures
            r == self.send_outcome_spec(*message, event),
    ;
}

/// The uniform error of the dynamically typed capability: the transport's
/// error, converted, with nothing swallowed.
#[derive(Clone, Copy, Debug, PartialEq, Eq, Structural)]
pub enum DynMailerError {
    /// A converted cloud-API transport error.
    Outlook(OutlookMailerError),
    /// A converted SMTP transport error.
    Smtp(SmtpMailerError),
}

impl DynMailerError {
    /// The display text of the underlying transport error, preserved by the
    /// conversion.
    pub open spec fn describe_spec(&self) -> Seq<char> {
        match self {
            DynMailerError::Outlook(e) => e.describe_spec(),
            DynMailerError::Smtp(e) => e.describe_spec(),
        }
    }

    /// A human-readable description: exactly the underlying transport
    /// error's own description.
    pub fn describe(&self) -> (s: String)
        ensures
            s@ == self.describe_spec(),
    {
        match self {
            DynMailerError::Outlook(e) => e.describe(),
            DynMailerError::Smtp(e) => e.describe(),
        }
    }
}

/// The dynamically typed capability: the same send operation as [`Mailer`],
/// with the error type erased to the uniform [`DynMailerError`], so
/// heterogeneous transports can stand behind one handle.
///
/// Implementations must only delegate to [`Mailer::send_mail`] and convert
/// the error; they must not duplicate send logic.
pub trait DynMailer: Sized {
    /// What the application observed while transmitting the message.
    type Event;

    /// The outcome this transport concludes, with the error converted.
    spec fn dyn_send_outcome_spec(&self, message: Message, event: Self::Event) -> Result<
        (),
        DynMailerError,
    >;

    /// Conclude one send of `message` from the observed `event`.
    fn send_mail(&self, message: &Message, event: Self::Event) -> (r: Result<(), DynMailerError>)
        ensures
            r == self.dyn_send_outcome_spec(*message, event),
    ;
}

// == Cloud-API transport ==

impl Mailer for OutlookMailer {
    type Event = HttpSendEvent;

    type Error = OutlookMailerError;

    /// Request transmission failure is reported as such. For a response, a
    /// diagnostic body-read failure is reported first; otherwise any
    /// non-success status rejects the send, and a success status concludes
    /// it. Nothing is retried and no token is refreshed.
    open spec fn send_outcome_spec(&self, message: Message, event: HttpSendEvent) -> Result<
        (),
        OutlookMailerError,
    > {
        match event {
            HttpSendEvent::SendFailed => Err(OutlookMailerError::SendMailRequest),
            HttpSendEvent::Response { status, body_read_failed } => {
                if body_read_failed {
                    Err(OutlookMailerError::SendMailResponseBody)
                } else if is_success_status(status) {
                    Ok(())
                } else {
                    Err(OutlookMailerError::SendMailResponse(status))
                }
            },
        }
    }

    fn send_mail(&self, _message: &Message, event: HttpSendEvent) -> (r: Result<
        (),
        OutlookMailerError,
    >) {
        match event {
            HttpSendEvent::SendFailed => Err(OutlookMailerError::SendMailRequest),
            HttpSendEvent::Response { status, body_read_failed } => {
                if body_read_failed {
                    Err(OutlookMailerError::SendMailResponseBody)
                } else if 200 <= status && status < 300 {
                    Ok(())
                } else {
                    Err(OutlookMailerError::SendMailResponse(status))
                }
            },
        }
    }
}

impl DynMailer for OutlookMailer {
    type Event = HttpSendEvent;

    open spec fn dyn_send_outcome_spec(&self, message: Message, event: HttpSendEvent) -> Result<
        (),
        DynMailerError,
    > {
        match Mailer::send_outcome_spec(self, message, event) {
            Ok(()) => Ok(()),
            Err(e) => Err(DynMailerError::Outlook(e)),
        }
    }

    fn send_mail(&self, message: &Message, event: HttpSendEvent) -> (r: Result<
        (),
        DynMailerError,
    >) {
        match Mailer::send_mail(self, message, event) {
            Ok(()) => Ok(()),
            Err(e) => Err(DynMailerError::Outlook(e)),
        }
    }
}

// == SMTP transport ==

impl Mailer for SmtpMailer {
    type Event = SmtpSendEvent;

    type Error = SmtpMailerError;

    /// A failed connection and a failed transaction are reported apart; a
    /// completed transaction concludes the send. Nothing is retried.
    open spec fn send_outcome_spec(&self, message: Message, event: SmtpSendEvent) -> Result<
        (),
        SmtpMailerError,
    > {
        match event {
            SmtpSendEvent::ConnectFailed => Err(SmtpMailerError::Connect),
            SmtpSendEvent::SendFailed => Err(SmtpMailerError::Send),
            SmtpSendEvent::Sent => Ok(()),
        }
    }

    fn send_mail(&self, _message: &Message, event: SmtpSendEvent) -> (r: Result<
        (),
        SmtpMailerError,
    >) {
        match event {
            SmtpSendEvent::ConnectFailed => Err(SmtpMailerError::Connect),
            SmtpSendEvent::SendFailed => Err(SmtpMailerError::Send),
            SmtpSendEvent::Sent => Ok(()),
        }
    }
}

impl DynMailer for SmtpMailer {
    type Event = SmtpSendEvent;

    open spec fn dyn_send_outcome_spec(&self, message: Message, event: SmtpSendEvent) -> Result<
        (),
        DynMailerError,
    > {
        match Mailer::send_outcome_spec(self, message, event) {
            Ok(()) => Ok(()),
            Err(e) => Err(DynMailerError::Smtp(e)),
        }
    }

    fn send_mail(&self, message: &Message, event: SmtpSendEvent) -> (r: Result<
        (),
        DynMailerError,
    >) {
        match Mailer::send_mail(self, message, event) {
            Ok(()) => Ok(()),
            Err(e) => Err(DynMailerError::Smtp(e)),
        }
    }
}

// == Behavioral parity of the two capability forms ==

/// For the cloud-API transport, the dynamic form succeeds exactly when the
/// static form succeeds on the same message and observation, and on failure
/// carries exactly the static form's error, converted.
pub proof fn lemma_outlook_capability_parity(
    mailer: OutlookMailer,
    message: Message,
    event: HttpSendEvent,
)
    ensures
        DynMailer::dyn_send_outcome_spec(&mailer, message, event) is Ok <==> Mailer::send_outcome_spec(
            &mailer,
            message,
            event,
        ) is Ok,
        Mailer::send_outcome_spec(&mailer, message, event) matches Err(e)
            ==> DynMailer::dyn_send_outcome_spec(&mailer, message, event) == Err::<(), _>(
            DynMailerError::Outlook(e),
        ),
{
}

/// For the SMTP transport, the dynamic form succeeds exactly when the static
/// form succeeds on the same message and observation, and on failure carries
/// exactly the static form's error, converted.
pub proof fn lemma_smtp_capability_parity(
    mailer: SmtpMailer,
    message: Message,
    event: SmtpSendEvent,
)
    ensures
        DynMailer::dyn_send_outcome_spec(&mailer, message, event) is Ok <==> Mailer::send_outcome_spec(
            &mailer,
            message,
            event,
        ) is Ok,
        Mailer::send_outcome_spec(&mailer, message, event) matches Err(e)
            ==> DynMailer::dyn_send_outcome_spec(&mailer, message, event) == Err::<(), _>(
            DynMailerError::Smtp(e),
        ),
{
}

} // verus!
