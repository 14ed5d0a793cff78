//! Send-outcome classification for both transports, parity of the static and
//! dynamic capability forms, the configuration factory, and error texts.

use async_mailer::config::{plan_mailer, AnyMailer, MailerConfiguration, MailerSetup};
use async_mailer::credential::Credential;
use async_mailer::mailer::{DynMailer, DynMailerError, Mailer};
use async_mailer::message::Message;
use async_mailer::outlook::{
    HttpSendEvent, OutlookAccessTokenError, OutlookMailer, OutlookMailerError, TokenFetchEvent,
};
use async_mailer::smtp::{SmtpInvalidCertsPolicy, SmtpMailer, SmtpMailerError, SmtpSendEvent};

fn empty_message() -> Message {
    Message { mail_from: "a@example.com".to_owned(), rcpt_to: Vec::new(), body: Vec::new() }
}

fn outlook_mailer() -> OutlookMailer {
    OutlookMailer::new(TokenFetchEvent::Received(b"{\"access_token\":\"T\"}".to_vec()))
        .expect("a well-formed token response must construct a mailer")
}

fn smtp_mailer(policy: SmtpInvalidCertsPolicy) -> SmtpMailer {
    SmtpMailer::new(
        "smtp.example.com".to_owned(),
        465,
        policy,
        "user".to_owned(),
        Credential::new("password".to_owned()),
    )
}

// == Cloud-API send outcomes ==

#[test]
fn cloud_send_succeeds_on_success_statuses() {
    let mailer = outlook_mailer();
    let message = empty_message();
    for status in [200u16, 202, 204, 299] {
        let event = HttpSendEvent::Response { status, body_read_failed: false };
        assert_eq!(Mailer::send_mail(&mailer, &message, event), Ok(()));
    }
}

#[test]
fn cloud_send_is_rejected_on_unauthorized_status() {
    let mailer = outlook_mailer();
    let message = empty_message();
    let event = HttpSendEvent::Response { status: 401, body_read_failed: false };
    // A 401 must surface as the rejection error, never as silent success.
    assert_eq!(
        Mailer::send_mail(&mailer, &message, event),
        Err(OutlookMailerError::SendMailResponse(401))
    );
}

#[test]
fn cloud_send_is_rejected_on_every_non_success_status() {
    let mailer = outlook_mailer();
    let message = empty_message();
    for status in [100u16, 199, 300, 301, 400, 403, 429, 500, 503] {
        let event = HttpSendEvent::Response { status, body_read_failed: false };
        assert_eq!(
            Mailer::send_mail(&mailer, &message, event),
            Err(OutlookMailerError::SendMailResponse(status))
        );
    }
}

#[test]
fn cloud_send_transmission_failure_is_a_request_error() {
    let mailer = outlook_mailer();
    assert_eq!(
        Mailer::send_mail(&mailer, &empty_message(), HttpSendEvent::SendFailed),
        Err(OutlookMailerError::SendMailRequest)
    );
}

#[test]
fn cloud_send_body_read_failure_is_a_body_error() {
    let mailer = outlook_mailer();
    let event = HttpSendEvent::Response { status: 202, body_read_failed: true };
    assert_eq!(
        Mailer::send_mail(&mailer, &empty_message(), event),
        Err(OutlookMailerError::SendMailResponseBody)
    );
}

// == SMTP construction and send outcomes ==

#[test]
fn smtp_construction_stores_the_configuration() {
    let mailer = smtp_mailer(SmtpInvalidCertsPolicy::Allow);
    let plan = mailer.connection_plan();
    assert_eq!(plan.host, "smtp.example.com");
    assert_eq!(plan.port, 465);
    assert!(plan.allow_invalid_certs);
    assert_eq!(plan.user, "user");
    assert_eq!(plan.password.expose_secret(), "password");
    assert_eq!(plan.timeout_secs, 30);
}

#[test]
fn smtp_certificate_policy_governs_the_connection_plan() {
    // With `Allow`, the connection is opened accepting a self-signed
    // certificate; with `Deny` it is not. The TLS negotiation itself is the
    // delegate SMTP client's: what is decided here is the policy bit the
    // connection is opened with.
    assert!(smtp_mailer(SmtpInvalidCertsPolicy::Allow).connection_plan().allow_invalid_certs);
    assert!(!smtp_mailer(SmtpInvalidCertsPolicy::Deny).connection_plan().allow_invalid_certs);
}

#[test]
fn smtp_certificate_policy_defaults_to_deny() {
    assert_eq!(SmtpInvalidCertsPolicy::default(), SmtpInvalidCertsPolicy::Deny);
}

#[test]
fn smtp_send_outcomes_follow_the_observed_event() {
    let mailer = smtp_mailer(SmtpInvalidCertsPolicy::Deny);
    let message = empty_message();
    assert_eq!(
        Mailer::send_mail(&mailer, &message, SmtpSendEvent::ConnectFailed),
        Err(SmtpMailerError::Connect)
    );
    assert_eq!(
        Mailer::send_mail(&mailer, &message, SmtpSendEvent::SendFailed),
        Err(SmtpMailerError::Send)
    );
    assert_eq!(Mailer::send_mail(&mailer, &message, SmtpSendEvent::Sent), Ok(()));
}

#[test]
fn smtp_debug_text_is_fixed() {
    assert_eq!(smtp_mailer(SmtpInvalidCertsPolicy::Deny).debug_text(), "Client (SMTP)");
}

// == Two sends are two transactions ==

#[test]
fn smtp_sends_the_same_message_twice_as_two_transactions() {
    let mailer = smtp_mailer(SmtpInvalidCertsPolicy::Deny);
    let message = empty_message();
    // Each send opens its own connection from the same stored plan and runs
    // its own transaction: both conclude, neither is suppressed.
    let first = Mailer::send_mail(&mailer, &message, SmtpSendEvent::Sent);
    let second = Mailer::send_mail(&mailer, &message, SmtpSendEvent::Sent);
    assert_eq!(first, Ok(()));
    assert_eq!(second, Ok(()));
    assert_eq!(mailer.connection_plan().host, "smtp.example.com");
}

// == Parity of the static and dynamic capability forms ==

#[test]
fn cloud_dynamic_form_matches_the_static_form() {
    let mailer = outlook_mailer();
    let message = empty_message();
    let events = [
        HttpSendEvent::SendFailed,
        HttpSendEvent::Response { status: 200, body_read_failed: false },
        HttpSendEvent::Response { status: 401, body_read_failed: false },
        HttpSendEvent::Response { status: 500, body_read_failed: true },
    ];
    for event in events {
        let statically = Mailer::send_mail(&mailer, &message, event);
        let dynamically = DynMailer::send_mail(&mailer, &message, event);
        assert_eq!(statically.is_ok(), dynamically.is_ok());
        assert_eq!(dynamically, statically.map_err(DynMailerError::Outlook));
    }
}

#[test]
fn smtp_dynamic_form_matches_the_static_form() {
    let mailer = smtp_mailer(SmtpInvalidCertsPolicy::Deny);
    let message = empty_message();
    for event in [SmtpSendEvent::ConnectFailed, SmtpSendEvent::SendFailed, SmtpSendEvent::Sent] {
        let statically = Mailer::send_mail(&mailer, &message, event);
        let dynamically = DynMailer::send_mail(&mailer, &message, event);
        assert_eq!(statically.is_ok(), dynamically.is_ok());
        assert_eq!(dynamically, statically.map_err(DynMailerError::Smtp));
    }
}

// == Configuration selector and factory ==

#[test]
fn factory_builds_a_ready_smtp_mailer_infallibly() {
    let configuration = MailerConfiguration::Smtp {
        host: "smtp.example.com".to_owned(),
        port: 2525,
        invalid_certs: SmtpInvalidCertsPolicy::Deny,
        user: "user".to_owned(),
        password: Credential::new("password".to_owned()),
    };
    match plan_mailer(configuration) {
        MailerSetup::Ready(AnyMailer::Smtp(mailer)) => {
            let plan = mailer.connection_plan();
            assert_eq!(plan.host, "smtp.example.com");
            assert_eq!(plan.port, 2525);
            assert!(!plan.allow_invalid_certs);
            assert_eq!(plan.timeout_secs, 30);
        }
        _ => panic!("an SMTP configuration must yield a ready SMTP mailer"),
    }
}

#[test]
fn factory_asks_for_a_token_before_building_a_cloud_mailer() {
    let configuration = MailerConfiguration::Outlook {
        tenant: "contoso.example".to_owned(),
        app_guid: "app-guid-1234".to_owned(),
        secret: Credential::new("s3cr3t".to_owned()),
    };
    match plan_mailer(configuration) {
        MailerSetup::NeedsAccessToken(request) => {
            assert_eq!(
                request.url,
                "https://login.microsoftonline.com/contoso.example/oauth2/v2.0/token"
            );
            assert_eq!(request.form.len(), 4);
            assert_eq!(request.form[0], ("client_id".to_owned(), "app-guid-1234".to_owned()));
        }
        _ => panic!("a cloud configuration must first ask for an access token"),
    }
}

#[test]
fn factory_concludes_a_cloud_mailer_from_the_token_outcome() {
    let event = TokenFetchEvent::Received(b"{\"access_token\":\"T\"}".to_vec());
    match async_mailer::finish_outlook_mailer(event) {
        Ok(AnyMailer::Outlook(mailer)) => {
            assert_eq!(mailer.access_token().expose_secret(), "T")
        }
        _ => panic!("a well-formed token response must yield a cloud mailer"),
    }
}

#[test]
fn factory_propagates_token_acquisition_errors_unchanged() {
    match async_mailer::finish_outlook_mailer(TokenFetchEvent::SendFailed) {
        Err(e) => assert_eq!(
            e,
            OutlookMailerError::RetrieveAccessToken(OutlookAccessTokenError::SendRequest)
        ),
        Ok(_) => panic!("a failed token request must fail construction"),
    }
}

// == Error texts ==

#[test]
fn error_descriptions_match_their_causes() {
    assert_eq!(
        OutlookMailerError::SendMailRequest.describe(),
        "failed request attempting to send Outlook MIME mail through Microsoft Graph API"
    );
    assert_eq!(
        OutlookMailerError::RetrieveAccessToken(OutlookAccessTokenError::ParseResponse).describe(),
        "failed to retrieve Microsoft Graph API access token"
    );
    assert_eq!(SmtpMailerError::Connect.describe(), "could not connect to SMTP host");
    assert_eq!(SmtpMailerError::Send.describe(), "could not send SMTP mail");
}

#[test]
fn dynamic_error_keeps_the_underlying_display_text() {
    let converted = DynMailerError::Smtp(SmtpMailerError::Send);
    assert_eq!(converted.describe(), SmtpMailerError::Send.describe());
    let converted = DynMailerError::Outlook(OutlookMailerError::SendMailResponse(401));
    assert_eq!(
        converted.describe(),
        "failed sending Outlook MIME mail through Microsoft Graph API"
    );
}
