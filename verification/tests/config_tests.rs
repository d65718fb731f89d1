use registration::addr::{Ipv4Parts, SocketAddr4, parse_ipv4};
use registration::categories::{Meal, Presentation, Title};
use registration::config::{ConfigError, Configuration, IniSection, configuration_from_sections};
use registration::errors::HandleError;
use registration::form::{FormMap, FormValue, extract_bool, extract_string};
use registration::mail::{SUBMISSION_PORT, build_email, prepare_mail};
use registration::numbers::parse_u16;
use registration::registration::{Registration, map2registration};
use registration::session::{Page, check_login, is_logged_in, login_view, main_view};

fn sections() -> (IniSection, IniSection) {
    let mut basic = IniSection::new();
    basic.push("host", "127.0.0.1");
    basic.push("port", "1234");
    basic.push("db_filename", "my_db.sql");
    basic.push("template_folder", "template");
    let mut email = IniSection::new();
    email.push("from", "bob@smith.com");
    email.push("server", "some.smtp.com");
    email.push("hello", "my.server.org");
    email.push("username", "bob");
    email.push("password", "secret");
    email.push("course1", "1. Jan 2000");
    email.push("course2", "12. August 2010");
    (basic, email)
}

#[test]
fn test_configuration_from_sections() {
    let (basic, email) = sections();
    let config = configuration_from_sections(&basic, &email).unwrap();

    let expected = Configuration {
        host: "127.0.0.1".to_string(),
        port: 1234,
        socket_addr: SocketAddr4 { ip: Ipv4Parts { a: 127, b: 0, c: 0, d: 1 }, port: 1234 },
        db_filename: "my_db.sql".to_string(),
        template_folder: "template".to_string(),
        email_from: "bob@smith.com".to_string(),
        email_server: "some.smtp.com".to_string(),
        email_hello: "my.server.org".to_string(),
        email_username: "bob".to_string(),
        email_password: "secret".to_string(),
        course1: "1. Jan 2000".to_string(),
        course2: "12. August 2010".to_string(),
    };

    assert_eq!(config, expected);
}

#[test]
fn test_configuration_errors() {
    let (basic, email) = sections();
    let empty = IniSection::new();
    assert_eq!(
        configuration_from_sections(&empty, &email),
        Err(ConfigError::Ini)
    );
    assert_eq!(
        configuration_from_sections(&basic, &empty),
        Err(ConfigError::Ini)
    );

    let mut bad_port = IniSection::new();
    bad_port.push("host", "127.0.0.1");
    bad_port.push("port", "70000");
    bad_port.push("db_filename", "my_db.sql");
    bad_port.push("template_folder", "template");
    assert_eq!(
        configuration_from_sections(&bad_port, &email),
        Err(ConfigError::Value)
    );

    let mut bad_host = IniSection::new();
    bad_host.push("host", "localhost");
    bad_host.push("port", "1234");
    bad_host.push("db_filename", "my_db.sql");
    bad_host.push("template_folder", "template");
    assert_eq!(
        configuration_from_sections(&bad_host, &email),
        Err(ConfigError::IP)
    );
}

#[test]
fn test_parse_u16_values() {
    assert_eq!(parse_u16("1234"), Some(1234));
    assert_eq!(parse_u16("0"), Some(0));
    assert_eq!(parse_u16("007"), Some(7));
    assert_eq!(parse_u16("65535"), Some(65535));
    assert_eq!(parse_u16("65536"), None);
    assert_eq!(parse_u16(""), None);
    assert_eq!(parse_u16("12a"), None);
    assert_eq!(parse_u16("-1"), None);
}

#[test]
fn test_parse_ipv4_values() {
    assert_eq!(
        parse_ipv4("127.0.0.1"),
        Some(Ipv4Parts { a: 127, b: 0, c: 0, d: 1 })
    );
    assert_eq!(
        parse_ipv4("255.255.255.255"),
        Some(Ipv4Parts { a: 255, b: 255, c: 255, d: 255 })
    );
    assert_eq!(parse_ipv4("256.0.0.1"), None);
    assert_eq!(parse_ipv4("1.2.3"), None);
    assert_eq!(parse_ipv4("1.2.3.4.5"), None);
    assert_eq!(parse_ipv4("01.2.3.4"), None);
    assert_eq!(parse_ipv4("some.smtp.com"), None);
    assert_eq!(parse_ipv4(""), None);
    assert_eq!(parse_ipv4("1.2.3."), None);
}

#[test]
fn test_extract_bool_literals() {
    let mut map = FormMap::new();
    map.assign("student", FormValue::Text("yes".into()));
    assert_eq!(extract_bool(&map, "student"), Ok(true));

    map.assign("student", FormValue::Text("no".into()));
    assert_eq!(extract_bool(&map, "student"), Ok(false));

    map.assign("student", FormValue::Text("Yes".into()));
    assert_eq!(extract_bool(&map, "student"), Err(HandleError::FormValue));

    assert_eq!(extract_bool(&map, "absent"), Err(HandleError::FormValue));
}

#[test]
fn test_extract_string_rejects_composite() {
    let mut map = FormMap::new();
    map.assign("blob", FormValue::Composite);
    assert_eq!(extract_string(&map, "blob"), Err(HandleError::FormValue));
    assert_eq!(extract_string(&map, "absent"), Err(HandleError::FormValue));
}

#[test]
fn test_assign_overwrites() {
    let mut map = FormMap::new();
    map.assign("name", FormValue::Text("Alice".into()));
    map.assign("name", FormValue::Text("Bob".into()));
    assert_eq!(extract_string(&map, "name"), Ok("Bob".to_string()));
}

#[test]
fn test_unknown_categoricals_default() {
    assert_eq!(Title::from("unknown".to_string()), Title::Other);
    assert_eq!(
        Presentation::from("interpretive dance".to_string()),
        Presentation::NotPresenting
    );
    assert_eq!(Meal::from("stone soup".to_string()), Meal::NoMeal);

    let mut map = FormMap::new();
    map.assign("title", FormValue::Text("unknown".into()));
    map.assign("last_name", FormValue::Text("Smith".into()));
    map.assign("first_name", FormValue::Text("Bob".into()));
    map.assign("email_to", FormValue::Text("bob@smith.com".into()));
    map.assign("institution", FormValue::Text("Some university".into()));
    map.assign("special_participant", FormValue::Text("yes".into()));
    map.assign("project_number", FormValue::Text("3b".into()));
    map.assign("phd_student", FormValue::Text("no".into()));
    map.assign("presentation", FormValue::Text("mime".into()));
    map.assign("presentation_title", FormValue::Text("how to get rich".into()));
    map.assign("meal_type", FormValue::Text("gravel".into()));
    map.assign("pay_cash", FormValue::Text("yes".into()));
    map.assign("comment", FormValue::Text("pure awsomeness".into()));

    let reg = map2registration(map).unwrap();
    assert_eq!(reg.title, Title::Other);
    assert_eq!(reg.presentation, Presentation::NotPresenting);
    assert_eq!(reg.meal_type, Meal::NoMeal);
}

#[test]
fn test_empty_identity_field_rejected() {
    let mut map = FormMap::new();
    map.assign("title", FormValue::Text("other".into()));
    map.assign("last_name", FormValue::Text("".into()));
    map.assign("first_name", FormValue::Text("Bob".into()));
    map.assign("email_to", FormValue::Text("bob@smith.com".into()));
    map.assign("institution", FormValue::Text("Some university".into()));
    map.assign("special_participant", FormValue::Text("yes".into()));
    map.assign("project_number", FormValue::Text("3b".into()));
    map.assign("phd_student", FormValue::Text("no".into()));
    map.assign("presentation", FormValue::Text("talk".into()));
    map.assign("presentation_title", FormValue::Text("how to get rich".into()));
    map.assign("meal_type", FormValue::Text("vegetarian".into()));
    map.assign("pay_cash", FormValue::Text("yes".into()));
    map.assign("comment", FormValue::Text("pure awsomeness".into()));

    assert_eq!(map2registration(map), Err(HandleError::FormValue));
}

#[test]
fn test_canonical_encodings() {
    assert_eq!(Title::Msc.to_text(), "msc");
    assert_eq!(Title::Other.to_text(), "other");
    assert_eq!(Presentation::Poster.to_text(), "poster");
    assert_eq!(Presentation::NotPresenting.to_text(), "not_presenting");
    assert_eq!(Meal::MeatEater.to_text(), "meat_eater");
    assert_eq!(Meal::NoMeal.to_text(), "no_meal");
}

fn sample_registration() -> Registration {
    Registration {
        title: Title::Other,
        last_name: "Smith".to_string(),
        first_name: "Bob".to_string(),
        email_to: "bob@smith.com".to_string(),
        institution: "Some university".to_string(),
        special_participant: true,
        project_number: "3b".to_string(),
        phd_student: false,
        presentation: Presentation::Talk,
        presentation_title: "how to get rich".to_string(),
        meal_type: Meal::Vegetarian,
        pay_cash: true,
        comment: "pure awsomeness".to_string(),
    }
}

fn sample_config(server: &str) -> Configuration {
    Configuration {
        host: "127.0.0.1".to_string(),
        port: 1234,
        socket_addr: SocketAddr4 { ip: Ipv4Parts { a: 127, b: 0, c: 0, d: 1 }, port: 1234 },
        db_filename: "my_db.sql".to_string(),
        template_folder: "template".to_string(),
        email_from: "alice@example.org".to_string(),
        email_server: server.to_string(),
        email_hello: "my.server.org".to_string(),
        email_username: "bob".to_string(),
        email_password: "secret".to_string(),
        course1: "1. Jan 2000".to_string(),
        course2: "12. August 2010".to_string(),
    }
}

#[test]
fn test_build_email_texts() {
    let reg = sample_registration();
    let config = sample_config("10.0.0.7");
    let email = build_email(&reg, &config);
    assert_eq!(email.to, "bob@smith.com");
    assert_eq!(email.from_addr, "alice@example.org");
    assert_eq!(email.subject, "Earthshape registration confirmation");
    assert_eq!(
        email.body,
        "Dear Bob Smith,\nyou have sucessfully registered for the Earthshape meeting from 28 March to 31 March 2017.\n\nBest regards,\nthe Earthshape organisation team"
    );
}

#[test]
fn test_prepare_mail_plan() {
    let reg = sample_registration();
    let config = sample_config("10.0.0.7");
    let plan = prepare_mail(&reg, &config).unwrap();
    assert_eq!(plan.server, Ipv4Parts { a: 10, b: 0, c: 0, d: 7 });
    assert_eq!(plan.port, SUBMISSION_PORT);
    assert_eq!(plan.port, 587);
    assert_eq!(plan.hello, "my.server.org");
    assert_eq!(plan.username, "bob");
    assert_eq!(plan.password, "secret");
    assert!(plan.always_encrypt);
    assert!(plan.smtp_utf8);
    assert!(plan.auth_cram_md5);
    assert!(!plan.connection_reuse);
    assert_eq!(plan.email.to, "bob@smith.com");
}

#[test]
fn test_prepare_mail_bad_server() {
    let reg = sample_registration();
    let config = sample_config("some.smtp.com");
    assert!(matches!(
        prepare_mail(&reg, &config),
        Err(HandleError::IP)
    ));
}

#[test]
fn test_session_views() {
    assert!(is_logged_in(&Some("success".to_string())));
    assert!(!is_logged_in(&Some("fail".to_string())));
    assert!(!is_logged_in(&None));

    let r = main_view(&Ok(true), &None);
    assert_eq!(r.page, Page::Main);
    assert_eq!(r.message, None);
    assert_eq!(r.set_login_cookie, Some("success".to_string()));

    let r = main_view(&Ok(false), &None);
    assert_eq!(r.page, Page::Login);
    assert_eq!(r.message, Some("Wrong user name or password!".to_string()));
    assert_eq!(r.set_login_cookie, Some("fail".to_string()));

    let r = main_view(&Err(HandleError::FormValue), &Some("success".to_string()));
    assert_eq!(r.page, Page::Main);
    assert_eq!(r.message, None);
    assert_eq!(r.set_login_cookie, None);

    let r = main_view(&Err(HandleError::FormValue), &None);
    assert_eq!(r.page, Page::Login);
    assert_eq!(r.message, Some("Please log in first!".to_string()));

    let r = main_view(&Err(HandleError::SQL), &Some("success".to_string()));
    assert_eq!(r.page, Page::Login);
    assert_eq!(
        r.message,
        Some("An error occured. Please try it again later".to_string())
    );

    let r = login_view(&Some("success".to_string()));
    assert_eq!(r.page, Page::Main);
    let r = login_view(&Some("fail".to_string()));
    assert_eq!(r.page, Page::Login);
    assert_eq!(r.message, Some("Please log in first!".to_string()));
}

#[test]
fn test_check_login() {
    let mut map = FormMap::new();
    map.assign("username", FormValue::Text("bob".into()));
    map.assign("password", FormValue::Text("secret".into()));
    assert_eq!(check_login(&map, "bob", "secret"), Ok(true));
    assert_eq!(check_login(&map, "bob", "hunter2"), Ok(false));

    let mut partial = FormMap::new();
    partial.assign("username", FormValue::Text("bob".into()));
    assert_eq!(
        check_login(&partial, "bob", "secret"),
        Err(HandleError::FormValue)
    );
}
