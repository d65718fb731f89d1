use registration::addr::{Ipv4Parts, SocketAddr4};
use registration::categories::{Meal, Presentation, Title};
use registration::config::Configuration;
use registration::db::{
    DBConnection, create_db_table, insert_all, insert_and_read_back, insert_into_db,
    read_all_rows, read_row_ids,
};
use registration::errors::HandleError;
use registration::form::{FormMap, FormValue};
use registration::handler::{
    RejectReason, SubmissionOutcome, handle_form_data, outcome_message, submission_outcome,
};
use registration::registration::Registration;

fn sample_registration() -> Registration {
    Registration {
        title: Title::Other,
        last_name: "Smith".to_string(),
        first_name: "Bob".to_string(),
        email_to: "bob@smith.com".to_string(),
        institution: "Some university".to_string(),
        special_participant: true,
        project_number: "3b".to_string(),
        phd_student: false,
        presentation: Presentation::Talk,
        presentation_title: "how to get rich".to_string(),
        meal_type: Meal::Vegetarian,
        pay_cash: true,
        comment: "pure awsomeness".to_string(),
    }
}

fn sample_map() -> FormMap {
    let mut map = FormMap::new();
    map.assign("title", FormValue::Text("other".into()));
    map.assign("last_name", FormValue::Text("Smith".into()));
    map.assign("first_name", FormValue::Text("Bob".into()));
    map.assign("email_to", FormValue::Text("bob@smith.com".into()));
    map.assign("institution", FormValue::Text("Some university".into()));
    map.assign("special_participant", FormValue::Text("yes".into()));
    map.assign("project_number", FormValue::Text("3b".into()));
    map.assign("phd_student", FormValue::Text("no".into()));
    map.assign("presentation", FormValue::Text("talk".into()));
    map.assign("presentation_title", FormValue::Text("how to get rich".into()));
    map.assign("meal_type", FormValue::Text("vegetarian".into()));
    map.assign("pay_cash", FormValue::Text("yes".into()));
    map.assign("comment", FormValue::Text("pure awsomeness".into()));
    map
}

fn sample_config() -> Configuration {
    Configuration {
        host: "127.0.0.1".to_string(),
        port: 1234,
        socket_addr: SocketAddr4 { ip: Ipv4Parts { a: 127, b: 0, c: 0, d: 1 }, port: 1234 },
        db_filename: "my_db.sql".to_string(),
        template_folder: "template".to_string(),
        email_from: "bob@smith.com".to_string(),
        email_server: "127.0.0.1".to_string(),
        email_hello: "my.server.org".to_string(),
        email_username: "bob".to_string(),
        email_password: "secret".to_string(),
        course1: "1. Jan 2000".to_string(),
        course2: "12. August 2010".to_string(),
    }
}

fn fresh_db() -> DBConnection {
    let mut db = DBConnection::open_in_memory().unwrap();
    create_db_table(&mut db).unwrap();
    db
}

#[test]
fn test_insert_select_round_trip() {
    let mut db = fresh_db();
    let reg = sample_registration();
    let row = insert_and_read_back(&mut db, &reg).unwrap();
    assert_eq!(
        row,
        vec![
            "other".to_string(),
            "Smith".to_string(),
            "Bob".to_string(),
            "bob@smith.com".to_string(),
            "Some university".to_string(),
            "1".to_string(),
            "3b".to_string(),
            "0".to_string(),
            "talk".to_string(),
            "how to get rich".to_string(),
            "vegetarian".to_string(),
            "1".to_string(),
            "pure awsomeness".to_string(),
        ]
    );
}

#[test]
fn test_many_inserts_distinct_ids() {
    let mut db = fresh_db();
    let reg = sample_registration();
    let n = 5;
    for _ in 0..n {
        insert_into_db(&mut db, &reg).unwrap();
    }
    let rows = read_all_rows(&db).unwrap();
    assert_eq!(rows.len(), n);
    for row in &rows {
        assert_eq!(row.len(), 13);
        assert_eq!(row[1], "Smith");
    }
    let ids = read_row_ids(&db).unwrap();
    assert_eq!(ids.len(), n);
    for i in 1..ids.len() {
        assert!(ids[i - 1] < ids[i]);
    }
}

#[test]
fn test_insert_all_in_order() {
    let mut db = fresh_db();
    let mut batch = Vec::new();
    for name in ["Ada", "Grace", "Edsger"] {
        let mut reg = sample_registration();
        reg.first_name = name.to_string();
        batch.push(reg);
    }
    insert_all(&mut db, &batch).unwrap();
    let rows = read_all_rows(&db).unwrap();
    assert_eq!(rows.len(), 3);
    assert_eq!(rows[0][2], "Ada");
    assert_eq!(rows[1][2], "Grace");
    assert_eq!(rows[2][2], "Edsger");
    let ids = read_row_ids(&db).unwrap();
    assert_eq!(ids, vec![1, 2, 3]);
}

#[test]
fn test_mail_failure_keeps_row() {
    let mut db = fresh_db();
    let config = sample_config();
    let plan = handle_form_data(&mut db, &config, sample_map()).unwrap();
    assert_eq!(plan.email.to, "bob@smith.com");

    // the SMTP session is unreachable: the transport reports a failure
    let outcome = submission_outcome(&Err(HandleError::SMTP));
    assert_eq!(outcome, SubmissionOutcome::Rejected(RejectReason::Mail));

    // the row from the successful insert is still there
    let rows = read_all_rows(&db).unwrap();
    assert_eq!(rows.len(), 1);
    assert_eq!(rows[0][1], "Smith");
    assert_eq!(rows[0][0], "other");
}

#[test]
fn test_schema_creation_idempotent() {
    let mut db = DBConnection::open_in_memory().unwrap();
    assert!(create_db_table(&mut db).is_ok());
    assert!(create_db_table(&mut db).is_ok());
    let reg = sample_registration();
    insert_into_db(&mut db, &reg).unwrap();
    // creating the schema again neither errors nor drops the stored row
    assert!(create_db_table(&mut db).is_ok());
    let rows = read_all_rows(&db).unwrap();
    assert_eq!(rows.len(), 1);
}

#[test]
fn test_insert_without_schema_fails_cleanly() {
    let mut db = DBConnection::open_in_memory().unwrap();
    let reg = sample_registration();
    assert_eq!(insert_into_db(&mut db, &reg), Err(HandleError::SQL));
    assert!(create_db_table(&mut db).is_ok());
    let rows = read_all_rows(&db).unwrap();
    assert_eq!(rows.len(), 0);
}

#[test]
fn test_handle_form_data_validation_failure() {
    let mut db = fresh_db();
    let config = sample_config();
    let mut map = sample_map();
    map.assign("special_participant", FormValue::Text("maybe".into()));
    let r = handle_form_data(&mut db, &config, map);
    assert!(matches!(r, Err(HandleError::FormValue)));
    // nothing was persisted
    assert_eq!(read_all_rows(&db).unwrap().len(), 0);
}

#[test]
fn test_handle_form_data_bad_mail_server_keeps_row() {
    let mut db = fresh_db();
    let mut config = sample_config();
    config.email_server = "some.smtp.com".to_string();
    let r = handle_form_data(&mut db, &config, sample_map());
    assert!(matches!(r, Err(HandleError::IP)));
    // the insert preceded the mail step and is not rolled back
    assert_eq!(read_all_rows(&db).unwrap().len(), 1);
    let outcome = submission_outcome(&Err(HandleError::IP));
    assert_eq!(outcome, SubmissionOutcome::Rejected(RejectReason::Mail));
}

#[test]
fn test_submission_outcome_per_error() {
    assert_eq!(submission_outcome(&Ok(())), SubmissionOutcome::Accepted);
    let cases = [
        (HandleError::FormParameter, RejectReason::Validation),
        (HandleError::FormValue, RejectReason::Validation),
        (HandleError::Persistent, RejectReason::Persistence),
        (HandleError::Mutex, RejectReason::Persistence),
        (HandleError::SQL, RejectReason::Persistence),
        (HandleError::Mail, RejectReason::Mail),
        (HandleError::SMTP, RejectReason::Mail),
        (HandleError::IP, RejectReason::Mail),
    ];
    for (e, reason) in cases {
        assert_eq!(
            submission_outcome(&Err(e)),
            SubmissionOutcome::Rejected(reason)
        );
    }
}

#[test]
fn test_outcome_messages() {
    assert_eq!(
        outcome_message(&SubmissionOutcome::Accepted),
        "Your registration was successful. You should receive a confirmation e-mail. (Please also check your spam folder)"
    );
    assert_eq!(
        outcome_message(&SubmissionOutcome::Rejected(RejectReason::Persistence)),
        "An error occured. Please try it again later"
    );
}
