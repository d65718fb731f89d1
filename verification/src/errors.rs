use vstd::prelude::*;

verus! {

/// The one failure taxonomy of the submission pipeline. Every step reports
/// its failure as one of these variants; nothing else crosses a step
/// boundary.
///
/// - `FormParameter`: the parameter map itself could not be obtained.
/// - `FormValue`: a required form field is missing, is not a scalar string,
///   or (for a strictly binary field) holds an unrecognised literal.
/// - `Persistent`: the shared state of the process could not be reached.
/// - `Mutex`: the exclusive-access guard of the store was poisoned.
/// - `SQL`: the store rejected a statement.
/// - `Mail`: the confirmation e-mail could not be built.
/// - `SMTP`: the mail session failed (authentication, network, transmission).
/// - `IP`: the configured mail-server address is not a dotted-quad address.
#[derive(Debug, PartialEq, Eq, Structural, Clone, Copy)]
pub enum HandleError {
    FormParameter,
    FormValue,
    Persistent,
    Mutex,
    SQL,
    Mail,
    SMTP,
    IP,
}

} // verus!
