//! The `Registration` record and the Registration Mapper: a validated,
//! immutable record assembled from the form-parameter map, or the first
//! extraction failure. A registration is fully populated or does not exist;
//! there is no partial construction.

use vstd::prelude::*;

use crate::categories::{
    Meal, Presentation, Title, spec_meal_of, spec_meal_text, spec_presentation_of,
    spec_presentation_text, spec_title_of, spec_title_text,
};
use crate::errors::HandleError;
use crate::form::{FormMap, FormValue, bool_of_text, extract_bool, extract_string, text_at};

verus! {

broadcast use vstd::std_specs::control_flow::group_control_flow_axioms;

/// One validated submission. Identity fields and free text are kept as
/// submitted; categorical attributes are parsed into their closed
/// enumerations; strictly binary flags are booleans in memory.
#[derive(Debug, PartialEq, Eq)]
pub struct Registration {
    pub title: Title,
    pub last_name: String,
    pub first_name: String,
    pub email_to: String,
    pub institution: String,
    pub special_participant: bool,
    pub project_number: String,
    pub phd_student: bool,
    pub presentation: Presentation,
    pub presentation_title: String,
    pub meal_type: Meal,
    pub pay_cash: bool,
    pub comment: String,
}

/// Whether the map carries every field a registration needs: all thirteen
/// keys bound to scalar strings, the three identity fields — last name,
/// first name, contact e-mail — non-empty, and the three strictly binary
/// flags bound to `"yes"` or `"no"`.
pub open spec fn spec_form_valid(m: Seq<(String, FormValue)>) -> bool {
    &&& text_at(m, "title"@) is Some
    &&& text_at(m, "last_name"@) matches Some(t) && t.len() > 0
    &&& text_at(m, "first_name"@) matches Some(t) && t.len() > 0
    &&& text_at(m, "email_to"@) matches Some(t) && t.len() > 0
    &&& text_at(m, "institution"@) is Some
    &&& text_at(m, "special_participant"@) matches Some(t) && bool_of_text(t) is Some
    &&& text_at(m, "project_number"@) is Some
    &&& text_at(m, "phd_student"@) matches Some(t) && bool_of_text(t) is Some
    &&& text_at(m, "presentation"@) is Some
    &&& text_at(m, "presentation_title"@) is Some
    &&& text_at(m, "meal_type"@) is Some
    &&& text_at(m, "pay_cash"@) matches Some(t) && bool_of_text(t) is Some
    &&& text_at(m, "comment"@) is Some
}

/// Field-for-field: `reg` is exactly the registration that the map `m`
/// describes.
pub open spec fn spec_registration_matches(m: Seq<(String, FormValue)>, reg: Registration) -> bool {
    &&& spec_form_valid(m)
    &&& reg.title == spec_title_of(text_at(m, "title"@)->Some_0)
    &&& reg.last_name@ == text_at(m, "last_name"@)->Some_0
    &&& reg.first_name@ == text_at(m, "first_name"@)->Some_0
    &&& reg.email_to@ == text_at(m, "email_to"@)->Some_0
    &&& reg.institution@ == text_at(m, "institution"@)->Some_0
    &&& Some(reg.special_participant) == bool_of_text(text_at(m, "special_participant"@)->Some_0)
    &&& reg.project_number@ == text_at(m, "project_number"@)->Some_0
    &&& Some(reg.phd_student) == bool_of_text(text_at(m, "phd_student"@)->Some_0)
    &&& reg.presentation == spec_presentation_of(text_at(m, "presentation"@)->Some_0)
    &&& reg.presentation_title@ == text_at(m, "presentation_title"@)->Some_0
    &&& reg.meal_type == spec_meal_of(text_at(m, "meal_type"@)->Some_0)
    &&& Some(reg.pay_cash) == bool_of_text(text_at(m, "pay_cash"@)->Some_0)
    &&& reg.comment@ == text_at(m, "comment"@)->Some_0
}

/// Registration Mapper: the registration the map describes, or the first
/// extraction failure. Pure; fail-fast; an empty identity field — last
/// name, first name, contact e-mail — counts as a validation failure; no
/// partial record exists on failure.
pub fn map2registration(map: FormMap) -> (r: Result<Registration, HandleError>)
    ensures
        r is Ok <==> spec_form_valid(map@),
        r matches Ok(reg) ==> spec_registration_matches(map@, reg),
        r matches Err(e) ==> e == HandleError::FormValue,
{
    let title = Title::from(extract_string(&map, "title")?);
    let last_name = extract_string(&map, "last_name")?;
    if last_name.as_str().is_empty() {
        return Err(HandleError::FormValue);
    }
    let first_name = extract_string(&map, "first_name")?;
    if first_name.as_str().is_empty() {
        return Err(HandleError::FormValue);
    }
    let email_to = extract_string(&map, "email_to")?;
    if email_to.as_str().is_empty() {
        return Err(HandleError::FormValue);
    }
    let result = Registration {
        title,
        last_name,
        first_name,
        email_to,
        institution: extract_string(&map, "institution")?,
        special_participant: extract_bool(&map, "special_participant")?,
        project_number: extract_string(&map, "project_number")?,
        phd_student: extract_bool(&map, "phd_student")?,
        presentation: Presentation::from(extract_string(&map, "presentation")?),
        presentation_title: extract_string(&map, "presentation_title")?,
        meal_type: Meal::from(extract_string(&map, "meal_type")?),
        pay_cash: extract_bool(&map, "pay_cash")?,
        comment: extract_string(&map, "comment")?,
    };

    Ok(result)
}

/// The fixed textual encoding of a strictly binary flag in the store.
pub open spec fn spec_bool_text(b: bool) -> Seq<char> {
    if b {
        "1"@
    } else {
        "0"@
    }
}

/// The textual encoding of a registration as one stored row: the thirteen
/// column values, in column order, each under the table's encoding.
pub open spec fn spec_row_of(reg: Registration) -> Seq<Seq<char>> {
    seq![
        spec_title_text(reg.title),
        reg.last_name@,
        reg.first_name@,
        reg.email_to@,
        reg.institution@,
        spec_bool_text(reg.special_participant),
        reg.project_number@,
        spec_bool_text(reg.phd_student),
        spec_presentation_text(reg.presentation),
        reg.presentation_title@,
        spec_meal_text(reg.meal_type),
        spec_bool_text(reg.pay_cash),
        reg.comment@,
    ]
}

/// The fixed textual encoding of a strictly binary flag in the store.
pub fn bool_text(b: bool) -> (r: String)
    ensures
        r@ == spec_bool_text(b),
{
    if b {
        "1".to_owned()
    } else {
        "0".to_owned()
    }
}

/// The stored row that a valid form map gives rise to, written directly
/// over the map: what each submitted field becomes under the table's
/// textual encoding.
pub open spec fn spec_row_from_map(m: Seq<(String, FormValue)>) -> Seq<Seq<char>> {
    seq![
        spec_title_text(spec_title_of(text_at(m, "title"@)->Some_0)),
        text_at(m, "last_name"@)->Some_0,
        text_at(m, "first_name"@)->Some_0,
        text_at(m, "email_to"@)->Some_0,
        text_at(m, "institution"@)->Some_0,
        spec_bool_text(bool_of_text(text_at(m, "special_participant"@)->Some_0)->Some_0),
        text_at(m, "project_number"@)->Some_0,
        spec_bool_text(bool_of_text(text_at(m, "phd_student"@)->Some_0)->Some_0),
        spec_presentation_text(spec_presentation_of(text_at(m, "presentation"@)->Some_0)),
        text_at(m, "presentation_title"@)->Some_0,
        spec_meal_text(spec_meal_of(text_at(m, "meal_type"@)->Some_0)),
        spec_bool_text(bool_of_text(text_at(m, "pay_cash"@)->Some_0)->Some_0),
        text_at(m, "comment"@)->Some_0,
    ]
}

/// The registration a map describes encodes to exactly the row the map
/// describes: mapping then encoding loses and changes nothing.
pub proof fn lemma_row_from_map(m: Seq<(String, FormValue)>, reg: Registration)
    requires
        spec_registration_matches(m, reg),
    ensures
        spec_row_of(reg) == spec_row_from_map(m),
{
    assert(spec_row_of(reg) =~= spec_row_from_map(m));
}

/// The thirteen column values of `reg`, in column order, under the table's
/// textual encoding.
pub fn encode_row(reg: &Registration) -> (r: Vec<String>)
    ensures
        r.deep_view() == spec_row_of(*reg),
        r@.len() == 13,
{
    let mut v: Vec<String> = Vec::new();
    v.push(reg.title.to_text());
    v.push(reg.last_name.clone());
    v.push(reg.first_name.clone());
    v.push(reg.email_to.clone());
    v.push(reg.institution.clone());
    v.push(bool_text(reg.special_participant));
    v.push(reg.project_number.clone());
    v.push(bool_text(reg.phd_student));
    v.push(reg.presentation.to_text());
    v.push(reg.presentation_title.clone());
    v.push(reg.meal_type.to_text());
    v.push(bool_text(reg.pay_cash));
    v.push(reg.comment.clone());
    proof {
        assert(v.deep_view() =~~= spec_row_of(*reg));
    }
    v
}

} // verus!
