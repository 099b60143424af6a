use rbdc_oracle::connection::{classify, finish_run, native_outcome, Control, ExecResult, ExecStep, OracleConnection};
use rbdc_oracle::options::OracleConnectOptions;
use rbdc_oracle::value::{Error, Value};
use rbdc_oracle::{Fetch, NativeType, OracleColumn, OracleData, OracleMetaData, OracleRow};
use std::sync::Arc;

fn idle() -> OracleConnection {
    OracleConnection::establish(Ok(())).unwrap()
}

#[test]
fn establish_starts_without_transaction() {
    assert!(!idle().is_trans);
    match OracleConnection::establish(Err("ORA-01017".to_string())) {
        Err(Error::Native(text)) => assert_eq!(text, "ORA-01017"),
        other => panic!("{:?}", other),
    }
}

#[test]
fn only_the_three_literals_are_controls() {
    assert_eq!(classify("begin"), Some(Control::Begin));
    assert_eq!(classify("commit"), Some(Control::Commit));
    assert_eq!(classify("rollback"), Some(Control::Rollback));
    for sql in ["", "BEGIN", "begin ", " begin", "begin;", "Commit", "roll back", "select 1 from dual"] {
        assert_eq!(classify(sql), None);
    }
}

#[test]
fn statement_without_transaction_is_committed_at_once() {
    let mut c = idle();
    match c.begin_exec("update t set a = ? where b = ?") {
        ExecStep::Run { sql, autocommit } => {
            assert_eq!(sql, "update t set a = :1 where b = :2");
            assert!(autocommit);
        }
        other => panic!("{:?}", other),
    }
    assert!(!c.is_trans);
}

#[test]
fn statement_within_transaction_is_not_committed() {
    let mut c = idle();
    match c.begin_exec("begin") {
        ExecStep::Done(ExecResult { rows_affected: 0, last_insert_id: None }) => {}
        other => panic!("{:?}", other),
    }
    assert!(c.is_trans);
    match c.begin_exec("delete from t where a = ?") {
        ExecStep::Run { sql, autocommit } => {
            assert_eq!(sql, "delete from t where a = :1");
            assert!(!autocommit);
        }
        other => panic!("{:?}", other),
    }
    assert!(c.is_trans);
    assert!(matches!(c.begin_exec("rollback"), ExecStep::Rollback));
    assert!(c.is_trans);
    assert!(matches!(c.finish_control(Ok(())), Ok(ExecResult { rows_affected: 0, last_insert_id: None })));
    assert!(!c.is_trans);
    assert!(matches!(c.begin_exec("insert into t values (?)"), ExecStep::Run { autocommit: true, .. }));
}

#[test]
fn commit_closes_the_transaction() {
    let mut c = idle();
    c.begin_exec("begin");
    assert!(matches!(c.begin_exec("commit"), ExecStep::Commit));
    assert!(c.finish_control(Ok(())).is_ok());
    assert!(!c.is_trans);
}

#[test]
fn failed_control_keeps_the_state() {
    let mut c = idle();
    c.begin_exec("begin");
    assert!(matches!(c.begin_exec("commit"), ExecStep::Commit));
    match c.finish_control(Err("ORA-03113".to_string())) {
        Err(Error::Native(text)) => assert_eq!(text, "ORA-03113"),
        other => panic!("{:?}", other),
    }
    assert!(c.is_trans);
}

#[test]
fn begin_twice_stays_open() {
    let mut c = idle();
    c.begin_exec("begin");
    c.begin_exec("begin");
    assert!(c.is_trans);
}

#[test]
fn result_of_a_run() {
    let r = finish_run(3, vec![Some("a".to_string()), None, Some("".to_string())]);
    assert_eq!(r.rows_affected, 3);
    assert_eq!(format!("{:?}", r.last_insert_id), "Some([String(\"a\"), Null, String(\"\")])");
    let r = finish_run(0, vec![]);
    assert_eq!(format!("{:?}", r), "ExecResult { rows_affected: 0, last_insert_id: Some([]) }");
    assert_eq!(format!("{:?}", ExecResult::empty()), "ExecResult { rows_affected: 0, last_insert_id: None }");
}

#[test]
fn native_errors_carry_their_text() {
    assert!(native_outcome(Ok(())).is_ok());
    match native_outcome(Err("DPI-1010: not connected".to_string())) {
        Err(Error::Native(text)) => assert_eq!(text, "DPI-1010: not connected"),
        other => panic!("{:?}", other),
    }
}

#[test]
fn error_messages() {
    assert_eq!(Error::Native("ORA-00942".to_string()).message(), "ORA-00942");
    assert_eq!(Error::Decimal("d".to_string()).message(), "d");
    assert_eq!(Error::Date("t".to_string()).message(), "t");
    assert_eq!(Error::Unimplemented.message(), "unimpl");
    assert_eq!(Error::MissingText.message(), "the cell has no textual rendering");
    for text in ["", "x", "99999999999", "-99999999999"] {
        let expected = text.parse::<i32>().unwrap_err().to_string();
        let fault = rbdc_oracle::text::read_i32(text).unwrap_err();
        assert_eq!(fault.message(), expected);
        assert_eq!(Error::Integer(fault).message(), expected);
    }
}

#[test]
fn default_options() {
    let o = OracleConnectOptions::default();
    assert_eq!(o.username, "scott");
    assert_eq!(o.password, "tiger");
    assert_eq!(o.connect_string, "//localhost/XE");
}

#[test]
fn what_is_fetched_of_a_cell() {
    assert_eq!(OracleData::plan(NativeType::Blob, true), Fetch::Nothing);
    assert_eq!(OracleData::plan(NativeType::Clob, true), Fetch::Nothing);
    assert_eq!(OracleData::plan(NativeType::Blob, false), Fetch::Binary);
    assert_eq!(OracleData::plan(NativeType::Clob, false), Fetch::Text);
    assert_eq!(OracleData::plan(NativeType::Number(9, 0), false), Fetch::Text);
    assert_eq!(OracleData::plan(NativeType::Other, false), Fetch::Text);
}

#[test]
fn rows_share_their_columns() {
    let columns = Arc::new(vec![
        OracleColumn::new("ID_CARD", NativeType::Number(10, 0), "Number(10, 0)"),
        OracleColumn::new("Photo", NativeType::Blob, "BLOB"),
    ]);
    let mut first = OracleRow {
        columns: columns.clone(),
        datas: vec![OracleData::text(NativeType::Number(10, 0), Some("2300000000".to_string())), OracleData::binary(Some(vec![9, 8]))],
    };
    let second = OracleRow { columns: columns.clone(), datas: vec![OracleData::null(NativeType::Number(10, 0)), OracleData::null(NativeType::Blob)] };
    let meta: OracleMetaData = first.meta_data();
    assert!(Arc::ptr_eq(&meta.0, &second.meta_data().0));
    assert_eq!(meta.column_len(), 2);
    assert_eq!(meta.column_name(0), "id_card");
    assert_eq!(meta.column_name(1), "photo");
    assert_eq!(meta.column_type(0), "Number(10, 0)");
    assert_eq!(meta.column_type(1), "BLOB");
    assert!(matches!(first.get(0), Ok(Value::I64(2300000000))));
    assert!(matches!(first.get(1), Ok(Value::Binary(_))));
    assert!(matches!(first.get(0), Ok(Value::I64(2300000000))));
}
