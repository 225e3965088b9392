use water_security::db::{DbConn, DbOpt, Model, ModelNameType};
use water_security::flows::save_record;
use water_security::security_model::{SecurityModel, model_from_values};
use water_security::sqlite::DbError;
use water_security::xfer::{import_records, resolve_import_id};

fn row17(over: &[(usize, &str)]) -> Vec<String> {
    let mut row = vec![
        "1".to_string(),
        "2".to_string(),
        "运河".to_string(),
        "市区".to_string(),
        "甲".to_string(),
        "乙".to_string(),
        "100".to_string(),
        "3".to_string(),
        "0.5".to_string(),
        "2".to_string(),
        "0.5".to_string(),
        "0.5".to_string(),
        "10".to_string(),
        "97.5".to_string(),
        "9429.25".to_string(),
        "不需要清淤.".to_string(),
        "2024-01-02 03:04:05".to_string(),
    ];
    for &(i, v) in over {
        row[i] = v.to_string();
    }
    row
}

#[test]
fn decoding_a_full_row_reads_raw_quantities() {
    let m = model_from_values(&row17(&[])).expect("well-formed row");
    assert_eq!(m.id, 1);
    assert_eq!(m.level, 2);
    assert_eq!(m.name, "运河");
    assert_eq!(m.river_width, 1_000_000);
    assert_eq!(m.ratio, 5_000);
    assert_eq!(m.channel_width, 9_750_000_000);
    assert_eq!(m.threshold, 942_925);
    assert_eq!(m.time, "2024-01-02 03:04:05");
}

#[test]
fn decoding_refuses_bad_rows() {
    // Wrong column count.
    assert_eq!(model_from_values(&vec!["1".to_string()]).err(), Some(DbError::Decode));
    // A quantity that does not parse.
    assert_eq!(model_from_values(&row17(&[(6, "wide")])).err(), Some(DbError::Decode));
    // A negative id.
    assert_eq!(model_from_values(&row17(&[(0, "-1")])).err(), Some(DbError::Decode));
}

#[test]
fn out_of_range_quantities_are_refused_by_the_store() {
    let conn = DbConn::<SecurityModel>::open(":memory:").expect("open");
    conn.create().expect("create");
    let mut m = SecurityModel::default();
    m.name = "超限".to_string();
    m.river_width = 200_000_000;
    let mut conn = conn;
    match save_record(&mut conn, m) {
        Err(DbError::Unsupported) => {}
        other => panic!("expected Unsupported, got {:?}", other.map(|(n, _)| n)),
    }
}

#[test]
fn creating_the_table_twice_fails_with_a_driver_error() {
    let conn = DbConn::<SecurityModel>::open(":memory:").expect("open");
    conn.create().expect("first create");
    match conn.create() {
        Err(DbError::Sqlite) => {}
        other => panic!("expected Sqlite error, got {other:?}"),
    }
}

#[test]
fn an_unparsable_timestamp_cell_reads_as_now() {
    let mut conn = DbConn::<SecurityModel>::open(":memory:").expect("open");
    conn.create().expect("create");
    let mut rows: Vec<Vec<String>> = Vec::new();
    rows.push(SecurityModel::get_names(ModelNameType::Header));
    rows.push(row17(&[(0, "0"), (16, "someday soon")]));
    let now = "2025-06-07 08:09:10".to_string();
    let stats = import_records(&mut conn, &rows, &now);
    assert_eq!(stats.inserted, 1);
    let all = conn.select().expect("select");
    assert_eq!(all[0].time, now);
}

#[test]
fn non_binding_operations_are_refused() {
    let conn = DbConn::<SecurityModel>::open(":memory:").expect("open");
    conn.create().expect("create");
    let m = SecurityModel::default();
    assert_eq!(m.execute(&conn.instance, DbOpt::Create).err(), Some(DbError::Unsupported));
    assert_eq!(m.execute(&conn.instance, DbOpt::Select).err(), Some(DbError::Unsupported));
}

#[test]
fn import_id_resolution_follows_the_store() {
    // A matched row's id wins over anything carried.
    assert_eq!(resolve_import_id(7, Some(3), false), 3);
    assert_eq!(resolve_import_id(0, Some(3), true), 3);
    // An unmatched carried id unknown to the store starts fresh.
    assert_eq!(resolve_import_id(7, None, false), 0);
    // A known carried id stands; so does a record without one.
    assert_eq!(resolve_import_id(7, None, true), 7);
    assert_eq!(resolve_import_id(0, None, false), 0);
}
