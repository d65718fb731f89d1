//! Mail Dispatcher, deterministic part: build the one confirmation e-mail a
//! registration earns and fix the parameters of the SMTP session that is to
//! carry it. The session itself is a network affair and stays outside; it
//! receives a fully pinned-down `MailPlan` and has nothing left to decide.

use vstd::prelude::*;
use vstd::string::StringExecFns;

use crate::addr::{Ipv4Parts, parse_ipv4, spec_parse_ipv4};
use crate::config::Configuration;
use crate::errors::HandleError;
use crate::registration::Registration;

verus! {

/// The mail submission port.
pub const SUBMISSION_PORT: u16 = 587;

/// One e-mail, ready to hand to a transport.
#[derive(Debug, PartialEq, Eq)]
pub struct EmailMessage {
    pub to: String,
    pub from_addr: String,
    pub subject: String,
    pub body: String,
}

/// One SMTP session, fully determined: the message, the server, the
/// credentials, and the fixed session policy — mandatory encryption, UTF-8
/// bodies, CRAM-MD5 authentication, and no connection reuse beyond the one
/// send.
#[derive(Debug)]
pub struct MailPlan {
    pub email: EmailMessage,
    pub server: Ipv4Parts,
    pub port: u16,
    pub hello: String,
    pub username: String,
    pub password: String,
    pub always_encrypt: bool,
    pub smtp_utf8: bool,
    pub auth_cram_md5: bool,
    pub connection_reuse: bool,
}

/// The fixed subject line of the confirmation e-mail.
pub open spec fn spec_mail_subject() -> Seq<char> {
    "Earthshape registration confirmation"@
}

/// The body of the confirmation e-mail, given the registrant's first and
/// last name.
pub open spec fn spec_mail_body_texts(first: Seq<char>, last: Seq<char>) -> Seq<char> {
    "Dear "@ + first + " "@ + last
        + ",\nyou have sucessfully registered for the Earthshape meeting from 28 March to 31 March 2017.\n\nBest regards,\nthe Earthshape organisation team"@
}

/// The body of the confirmation e-mail for `reg`.
pub open spec fn spec_mail_body(reg: Registration) -> Seq<char> {
    spec_mail_body_texts(reg.first_name@, reg.last_name@)
}

/// Build the confirmation e-mail: recipient is the registered contact
/// address, sender the configured origin, subject and body the fixed texts
/// synthesized from the registration. Deterministic in its inputs.
pub fn build_email(registration: &Registration, config: &Configuration) -> (r: EmailMessage)
    ensures
        r.to@ == registration.email_to@,
        r.from_addr@ == config.email_from@,
        r.subject@ == spec_mail_subject(),
        r.body@ == spec_mail_body(*registration),
{
    let mut body = String::from_str("Dear ");
    body.append(registration.first_name.as_str());
    body.append(" ");
    body.append(registration.last_name.as_str());
    body.append(
        ",\nyou have sucessfully registered for the Earthshape meeting from 28 March to 31 March 2017.\n\nBest regards,\nthe Earthshape organisation team",
    );
    EmailMessage {
        to: registration.email_to.clone(),
        from_addr: config.email_from.clone(),
        subject: String::from_str("Earthshape registration confirmation"),
        body,
    }
}

/// Plan the dispatch of the confirmation e-mail: the built message plus the
/// session parameters the configuration dictates. Fails with
/// `HandleError::IP` exactly when the configured mail server is not a
/// dotted-quad address.
pub fn prepare_mail(registration: &Registration, config: &Configuration) -> (r: Result<
    MailPlan,
    HandleError,
>)
    ensures
        r is Ok <==> spec_parse_ipv4(config.email_server@) is Some,
        r matches Ok(plan) ==> {
            &&& plan.email.to@ == registration.email_to@
            &&& plan.email.from_addr@ == config.email_from@
            &&& plan.email.subject@ == spec_mail_subject()
            &&& plan.email.body@ == spec_mail_body(*registration)
            &&& Some(plan.server) == spec_parse_ipv4(config.email_server@)
            &&& plan.port == SUBMISSION_PORT
            &&& plan.hello@ == config.email_hello@
            &&& plan.username@ == config.email_username@
            &&& plan.password@ == config.email_password@
            &&& plan.always_encrypt
            &&& plan.smtp_utf8
            &&& plan.auth_cram_md5
            &&& !plan.connection_reuse
        },
        r matches Err(e) ==> e == HandleError::IP,
{
    let email = build_email(registration, config);
    let server = match parse_ipv4(config.email_server.as_str()) {
        Some(ip) => ip,
        None => {
            return Err(HandleError::IP);
        },
    };
    Ok(
        MailPlan {
            email,
            server,
            port: SUBMISSION_PORT,
            hello: config.email_hello.clone(),
            username: config.email_username.clone(),
            password: config.email_password.clone(),
            always_encrypt: true,
            smtp_utf8: true,
            auth_cram_md5: true,
            connection_reuse: false,
        },
    )
}

} // verus!
