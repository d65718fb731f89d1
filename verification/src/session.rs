//! Login gating and page decisions. The HTTP layer stores one login cookie
//! and renders one template with at most one message; which template, which
//! message and which cookie value is decided here, deterministically, from
//! the login attempt and the stored cookie.

use vstd::prelude::*;
use vstd::string::StringExecFns;

use crate::errors::HandleError;
use crate::form::{FormMap, extract_string, text_at};

verus! {

/// Which template the HTTP layer renders.
#[derive(Debug, PartialEq, Eq, Structural, Clone, Copy)]
pub enum Page {
    Main,
    Login,
    Submit,
}

/// What a handler renders: the template, the message to embed, if any, and
/// the login-cookie value to store, if any.
#[derive(Debug)]
pub struct Render {
    pub page: Page,
    pub message: Option<String>,
    pub set_login_cookie: Option<String>,
}

/// Whether a stored login cookie marks a logged-in session: exactly the
/// value `"success"` does.
pub fn is_logged_in(stored_login_cookie: &Option<String>) -> (r: bool)
    ensures
        r <==> (stored_login_cookie matches Some(c) && c@ == "success"@),
{
    match stored_login_cookie {
        Some(c) => *c == "success".to_owned(),
        None => false,
    }
}

/// Check submitted credentials against the configured ones: `Ok(true)`
/// exactly when both match; a missing field is a validation failure.
pub fn check_login(map: &FormMap, login_user: &str, login_passwd: &str) -> (r: Result<
    bool,
    HandleError,
>)
    ensures
        r matches Ok(b) ==> {
            &&& text_at(map@, "username"@) is Some
            &&& text_at(map@, "password"@) is Some
            &&& b <==> (text_at(map@, "username"@)->Some_0 == login_user@ && text_at(
                map@,
                "password"@,
            )->Some_0 == login_passwd@)
        },
        r matches Err(e) ==> e == HandleError::FormValue && (text_at(map@, "username"@) is None
            || text_at(map@, "password"@) is None),
{
    let username = match extract_string(map, "username") {
        Ok(v) => v,
        Err(e) => {
            return Err(e);
        },
    };
    let password = match extract_string(map, "password") {
        Ok(v) => v,
        Err(e) => {
            return Err(e);
        },
    };
    Ok(username == login_user.to_owned() && password == login_passwd.to_owned())
}

/// What the landing handler renders for a login attempt: a successful login
/// opens the main page and stores `"success"`; wrong credentials re-open
/// the login page and store `"fail"`; a request without credentials falls
/// back to the stored cookie; any other failure shows the generic message.
pub fn main_view(login: &Result<bool, HandleError>, stored_login_cookie: &Option<String>) -> (r:
    Render)
    ensures
        *login matches Ok(b) && b ==> r.page is Main && r.message is None && (
        r.set_login_cookie matches Some(c) && c@ == "success"@),
        *login matches Ok(b) && !b ==> r.page is Login && (r.message matches Some(m) && m@
            == "Wrong user name or password!"@) && (r.set_login_cookie matches Some(c) && c@
            == "fail"@),
        (*login matches Err(e) && e == HandleError::FormValue && (
        stored_login_cookie matches Some(c) && c@ == "success"@)) ==> r.page is Main
            && r.message is None && r.set_login_cookie is None,
        (*login matches Err(e) && e == HandleError::FormValue && !(
        stored_login_cookie matches Some(c) && c@ == "success"@)) ==> r.page is Login && (
        r.message matches Some(m) && m@ == "Please log in first!"@) && r.set_login_cookie is None,
        (*login matches Err(e) && e != HandleError::FormValue) ==> r.page is Login && (
        r.message matches Some(m) && m@ == "An error occured. Please try it again later"@)
            && r.set_login_cookie is None,
{
    match login {
        Ok(true) => Render {
            page: Page::Main,
            message: None,
            set_login_cookie: Some("success".to_owned()),
        },
        Ok(false) => Render {
            page: Page::Login,
            message: Some(String::from_str("Wrong user name or password!")),
            set_login_cookie: Some("fail".to_owned()),
        },
        Err(e) => {
            if *e == HandleError::FormValue {
                if is_logged_in(stored_login_cookie) {
                    Render { page: Page::Main, message: None, set_login_cookie: None }
                } else {
                    Render {
                        page: Page::Login,
                        message: Some(String::from_str("Please log in first!")),
                        set_login_cookie: None,
                    }
                }
            } else {
                Render {
                    page: Page::Login,
                    message: Some(String::from_str("An error occured. Please try it again later")),
                    set_login_cookie: None,
                }
            }
        },
    }
}

/// What the login handler renders: the main page for a logged-in session,
/// the login page with its prompt otherwise.
pub fn login_view(stored_login_cookie: &Option<String>) -> (r: Render)
    ensures
        (stored_login_cookie matches Some(c) && c@ == "success"@) ==> r.page is Main
            && r.message is None && r.set_login_cookie is None,
        !(stored_login_cookie matches Some(c) && c@ == "success"@) ==> r.page is Login && (
        r.message matches Some(m) && m@ == "Please log in first!"@) && r.set_login_cookie is None,
{
    if is_logged_in(stored_login_cookie) {
        Render { page: Page::Main, message: None, set_login_cookie: None }
    } else {
        Render {
            page: Page::Login,
            message: Some(String::from_str("Please log in first!")),
            set_login_cookie: None,
        }
    }
}

} // verus!
