//! Submission Orchestrator: Extract and map, persist, plan the mail — in
//! that order, failing fast — plus the translation of every failure into
//! one outcome and one user-facing message. The HTTP layer around it only
//! moves bytes; every decision it renders is taken here.

use vstd::prelude::*;
use vstd::string::StringExecFns;

use crate::addr::spec_parse_ipv4;
use crate::config::Configuration;
use crate::db::{DBConnection, insert_into_db};
use crate::errors::HandleError;
use crate::form::{FormMap, text_at};
use crate::mail::{MailPlan, SUBMISSION_PORT, prepare_mail, spec_mail_body_texts, spec_mail_subject};
use crate::registration::{
    lemma_row_from_map, map2registration, spec_form_valid, spec_row_from_map,
};

verus! {

/// Which stage a rejected submission failed in.
#[derive(Debug, PartialEq, Eq, Structural, Clone, Copy)]
pub enum RejectReason {
    Validation,
    Persistence,
    Mail,
}

/// The terminal state of one submission.
#[derive(Debug, PartialEq, Eq, Structural, Clone, Copy)]
pub enum SubmissionOutcome {
    Accepted,
    Rejected(RejectReason),
}

/// The stage that each failure belongs to: form errors are validation,
/// store and guard errors are persistence, and everything around the
/// e-mail — building it, resolving the server address, the session itself —
/// is mail.
pub open spec fn spec_reject_reason(e: HandleError) -> RejectReason {
    match e {
        HandleError::FormParameter => RejectReason::Validation,
        HandleError::FormValue => RejectReason::Validation,
        HandleError::Persistent => RejectReason::Persistence,
        HandleError::Mutex => RejectReason::Persistence,
        HandleError::SQL => RejectReason::Persistence,
        HandleError::Mail => RejectReason::Mail,
        HandleError::SMTP => RejectReason::Mail,
        HandleError::IP => RejectReason::Mail,
    }
}

/// Collapse the result of a whole submission into its terminal state.
pub fn submission_outcome(r: &Result<(), HandleError>) -> (o: SubmissionOutcome)
    ensures
        o == (match *r {
            Ok(_) => SubmissionOutcome::Accepted,
            Err(e) => SubmissionOutcome::Rejected(spec_reject_reason(e)),
        }),
{
    match r {
        Ok(_) => SubmissionOutcome::Accepted,
        Err(e) => {
            let reason = match e {
                HandleError::FormParameter => RejectReason::Validation,
                HandleError::FormValue => RejectReason::Validation,
                HandleError::Persistent => RejectReason::Persistence,
                HandleError::Mutex => RejectReason::Persistence,
                HandleError::SQL => RejectReason::Persistence,
                HandleError::Mail => RejectReason::Mail,
                HandleError::SMTP => RejectReason::Mail,
                HandleError::IP => RejectReason::Mail,
            };
            SubmissionOutcome::Rejected(reason)
        },
    }
}

/// The one user-facing message for each terminal state; no internal error
/// detail crosses this boundary.
pub fn outcome_message(outcome: &SubmissionOutcome) -> (r: String)
    ensures
        *outcome is Accepted ==> r@
            == "Your registration was successful. You should receive a confirmation e-mail. (Please also check your spam folder)"@,
        *outcome is Rejected ==> r@ == "An error occured. Please try it again later"@,
{
    match outcome {
        SubmissionOutcome::Accepted => String::from_str(
            "Your registration was successful. You should receive a confirmation e-mail. (Please also check your spam folder)",
        ),
        SubmissionOutcome::Rejected(_) => String::from_str(
            "An error occured. Please try it again later",
        ),
    }
}

/// The submission pipeline up to its one outward step: extract and map the
/// form, persist the registration, and plan the confirmation mail. On
/// success the row is stored and the returned plan carries everything the
/// mail session needs. A validation or store failure leaves the store
/// untouched; a mail-planning failure does not — the row it follows stays
/// persisted.
pub fn handle_form_data(db: &mut DBConnection, config: &Configuration, map: FormMap) -> (r: Result<
    MailPlan,
    HandleError,
>)
    ensures
        r matches Ok(plan) ==> {
            &&& spec_form_valid(map@)
            &&& final(db).rows() == old(db).rows().push(spec_row_from_map(map@))
            &&& final(db).has_table()
            &&& plan.email.to@ == text_at(map@, "email_to"@)->Some_0
            &&& plan.email.from_addr@ == config.email_from@
            &&& plan.email.subject@ == spec_mail_subject()
            &&& plan.email.body@ == spec_mail_body_texts(
                text_at(map@, "first_name"@)->Some_0,
                text_at(map@, "last_name"@)->Some_0,
            )
            &&& Some(plan.server) == spec_parse_ipv4(config.email_server@)
            &&& plan.port == SUBMISSION_PORT
            &&& plan.hello@ == config.email_hello@
            &&& plan.username@ == config.email_username@
            &&& plan.password@ == config.email_password@
            &&& plan.always_encrypt
            &&& plan.smtp_utf8
            &&& plan.auth_cram_md5
            &&& !plan.connection_reuse
        },
        r matches Err(e) ==> match e {
            HandleError::FormValue => !spec_form_valid(map@) && final(db).rows() == old(db).rows()
                && final(db).has_table() == old(db).has_table(),
            HandleError::SQL => spec_form_valid(map@) && final(db).rows() == old(db).rows()
                && final(db).has_table() == old(db).has_table(),
            HandleError::IP => spec_form_valid(map@) && spec_parse_ipv4(config.email_server@)
                is None && final(db).rows() == old(db).rows().push(spec_row_from_map(map@))
                && final(db).has_table(),
            _ => false,
        },
{
    let registration = match map2registration(map) {
        Ok(reg) => reg,
        Err(e) => {
            return Err(e);
        },
    };
    proof {
        lemma_row_from_map(map@, registration);
    }
    match insert_into_db(db, &registration) {
        Ok(_) => (),
        Err(e) => {
            return Err(e);
        },
    }
    match prepare_mail(&registration, config) {
        Ok(plan) => Ok(plan),
        Err(e) => Err(e),
    }
}

/// A failed mail dispatch does not roll back the insert that preceded it:
/// the submission ends `Rejected` for the mail stage, while the appended
/// row still stands, unchanged, at its place after the older rows.
pub proof fn lemma_mail_failure_keeps_row(
    rows: Seq<Seq<Seq<char>>>,
    row: Seq<Seq<char>>,
    e: HandleError,
)
    requires
        e == HandleError::Mail || e == HandleError::SMTP || e == HandleError::IP,
    ensures
        spec_reject_reason(e) == RejectReason::Mail,
        rows.push(row).len() == rows.len() + 1,
        rows.push(row).last() == row,
        forall|i: int| 0 <= i < rows.len() ==> rows.push(row)[i] == rows[i],
{
}

} // verus!
