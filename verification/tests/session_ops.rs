use duckex::{build_result, date_string, i64_to_string, prepare_result, u64_to_string, Session, Term, Value};

#[test]
fn close_is_idempotent_on_unknown_handles() {
    let mut session = Session::new(Some(4));
    assert_eq!(session.close(999), "ok");
    assert_eq!(session.close(999), "ok");
}

#[test]
fn prepare_hands_out_reusable_handles() {
    let mut session = Session::new(Some(2));
    let a = session.prepare("SELECT 1".to_string()).unwrap();
    let b = session.prepare("SELECT 2".to_string()).unwrap();
    assert_ne!(a, b);
    assert_eq!(
        session.prepare("SELECT 3".to_string()),
        Err("Exhausted prepared statements cache".to_string())
    );
    assert_eq!(session.get_query(a), Ok(&"SELECT 1".to_string()));
    assert_eq!(session.close(a), "ok");
    assert_eq!(
        session.get_query(a),
        Err("Invalid cache index".to_string())
    );
    let again = session.prepare("SELECT 4".to_string()).unwrap();
    assert_eq!(again, a);
}

#[test]
fn unknown_handles_report_a_stale_index() {
    let session = Session::new(None);
    assert_eq!(
        session.get_query(17),
        Err("Invalid cache index".to_string())
    );
}

#[test]
fn default_capacity_is_1024() {
    let mut session = Session::new(None);
    let mut last: u32 = 0;
    for i in 0..1024u32 {
        last = session.prepare(format!("SELECT {}", i)).unwrap();
    }
    assert_eq!(last, 1023);
    assert!(session.prepare("one more".to_string()).is_err());
}

#[test]
fn status_reports_ok() {
    let session = Session::new(Some(1));
    assert_eq!(session.status(), "ok");
}

#[test]
fn prepare_result_is_a_one_cell_result_set() {
    let r = prepare_result(7);
    assert_eq!(
        r.columns,
        vec![vec!["ref".to_string(), "UInt32".to_string()]]
    );
    assert_eq!(r.rows, vec![vec![Term::Int(7)]]);
    assert_eq!(r.num_rows, 1);
}

#[test]
fn build_result_converts_every_cell() {
    let columns = vec![vec!["x".to_string(), "Int32".to_string()]];
    let rows = vec![vec![Value::Int(7)], vec![Value::Null]];
    let r = build_result(columns.clone(), rows);
    assert_eq!(r.columns, columns);
    assert_eq!(r.num_rows, 2);
    assert_eq!(r.rows, vec![vec![Term::Int(7)], vec![Term::Nil]]);
}

#[test]
fn date_text_is_zero_padded() {
    assert_eq!(date_string(2024, 1, 5), "2024-01-05");
    assert_eq!(date_string(850, 12, 31), "0850-12-31");
    assert_eq!(date_string(-5, 1, 2), format!("{:04}-{:02}-{:02}", -5, 1, 2));
    assert_eq!(date_string(123456, 113, 205), "123456-113-205");
}

#[test]
fn decimal_rendering_handles_the_extremes() {
    assert_eq!(u64_to_string(0), "0");
    assert_eq!(u64_to_string(u64::MAX), "18446744073709551615");
    assert_eq!(i64_to_string(i64::MIN), "-9223372036854775808");
    assert_eq!(i64_to_string(-1), "-1");
    assert_eq!(i64_to_string(1234567890), "1234567890");
}
