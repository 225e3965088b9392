use water_security::db::{DbConn, DbOpt, Model, ModelNameType};
use water_security::flows::{delete_by_id, save_record, view_row};
use water_security::security_model::SecurityModel;
use water_security::sqlite::DbError;
use water_security::xfer::{export_row, import_records};

fn sample(name: &str, area: &str) -> SecurityModel {
    SecurityModel {
        id: 0,
        level: 2,
        name: name.to_string(),
        area: area.to_string(),
        start: "起点桥".to_string(),
        end: "终点闸".to_string(),
        river_width: 1_000_000,
        ratio: 5_000,
        elevation: 30_000,
        line: 20_000,
        allow: 5_000,
        safe: 5_000,
        depth: 100_000,
        channel_width: 9_750_000_000,
        threshold: 942_925,
        dredging: "不需要清淤.".to_string(),
        time: "2024-01-02 03:04:05".to_string(),
    }
}

fn open_store() -> DbConn<SecurityModel> {
    let conn = DbConn::<SecurityModel>::open(":memory:").expect("open in-memory store");
    conn.create().expect("create table");
    conn
}

fn assert_same_but_time(a: &SecurityModel, b: &SecurityModel) {
    assert_eq!(a.level, b.level);
    assert_eq!(a.name, b.name);
    assert_eq!(a.area, b.area);
    assert_eq!(a.start, b.start);
    assert_eq!(a.end, b.end);
    assert_eq!(a.river_width, b.river_width);
    assert_eq!(a.ratio, b.ratio);
    assert_eq!(a.elevation, b.elevation);
    assert_eq!(a.line, b.line);
    assert_eq!(a.allow, b.allow);
    assert_eq!(a.safe, b.safe);
    assert_eq!(a.depth, b.depth);
    assert_eq!(a.channel_width, b.channel_width);
    assert_eq!(a.threshold, b.threshold);
    assert_eq!(a.dredging, b.dredging);
}

#[test]
fn insert_and_read_back_preserves_every_field() {
    let mut conn = open_store();
    let m = sample("运河", "市区");
    let (n, notice) = save_record(&mut conn, m.clone()).expect("insert");
    assert_eq!(n, 1);
    assert_eq!(notice, "保存成功");
    let all = conn.select().expect("select");
    assert_eq!(all.len(), 1);
    assert_eq!(all[0].id, 1, "the store assigns the first id");
    assert_same_but_time(&all[0], &m);
    assert_eq!(all[0].time, m.time, "the stored timestamp text survives");
}

#[test]
fn update_keyed_by_id_changes_the_row() {
    let mut conn = open_store();
    save_record(&mut conn, sample("运河", "市区")).expect("insert");
    let mut stored = conn.select().expect("select").remove(0);
    stored.depth = 123_456;
    stored.dredging = "需要对该河道进行清淤.".to_string();
    let (n, notice) = save_record(&mut conn, stored.clone()).expect("update");
    assert_eq!(n, 1);
    assert_eq!(notice, "保存成功");
    let all = conn.select().expect("select");
    assert_eq!(all.len(), 1);
    assert_eq!(all[0].depth, 123_456);
    assert_eq!(all[0].dredging, "需要对该河道进行清淤.");
}

#[test]
fn deleting_an_unknown_id_reports_failure_not_an_error() {
    let mut conn = open_store();
    let (n, notice) = delete_by_id(&mut conn, 999).expect("delete runs");
    assert_eq!(n, 0);
    assert_eq!(notice, "删除失败");
}

#[test]
fn deleting_a_stored_row_reports_success() {
    let mut conn = open_store();
    save_record(&mut conn, sample("运河", "市区")).expect("insert");
    let (n, notice) = delete_by_id(&mut conn, 1).expect("delete runs");
    assert_eq!(n, 1);
    assert_eq!(notice, "删除成功");
    assert_eq!(conn.select().expect("select").len(), 0);
}

#[test]
fn find_by_id_returns_the_row_or_not_found() {
    let mut conn = open_store();
    save_record(&mut conn, sample("运河", "市区")).expect("insert");
    let found = conn.find_by_id(1).expect("row 1 exists");
    assert_eq!(found.name, "运河");
    match conn.find_by_id(2) {
        Err(DbError::NotFound) => {},
        other => panic!("expected NotFound, got {:?}", other.map(|m| m.id)),
    }
}

#[test]
fn find_with_condition_filters_and_orders() {
    let mut conn = open_store();
    save_record(&mut conn, sample("甲河", "市区")).expect("insert");
    save_record(&mut conn, sample("乙河", "县城")).expect("insert");
    let params = vec!["市区".to_string()];
    let hits = conn.find("area=?1", ("id", "ASC"), (0, 0), &params).expect("find");
    assert_eq!(hits.len(), 1);
    assert_eq!(hits[0].name, "甲河");
    let none: Vec<String> = Vec::new();
    let all_desc = conn.find("", ("id", "DESC"), (0, 0), &none).expect("find all");
    assert_eq!(all_desc.len(), 2);
    assert_eq!(all_desc[0].id, 2);
    let limited = conn.find("", ("id", "ASC"), (1, 1), &none).expect("find limited");
    assert_eq!(limited.len(), 1);
    assert_eq!(limited[0].id, 2);
}

#[test]
fn condition_sql_takes_the_documented_shape() {
    let sel = SecurityModel::get_sql(DbOpt::Select);
    // A short condition becomes WHERE 1=1.
    let sql = SecurityModel::get_sql_with_condition("", ("id", "DESC"), (0, 0));
    assert_eq!(sql, format!("{} {}", sel, "  WHERE 1=1  ORDER BY id DESC "));
    // A bare condition is wrapped in WHERE; a non-DESC order reads ASC.
    let sql = SecurityModel::get_sql_with_condition("area=?1", ("id", "up"), (0, 0));
    assert_eq!(sql, format!("{} {}", sel, "  WHERE area=?1  ORDER BY id ASC "));
    // An existing WHERE survives in any case; unknown order fields drop the
    // ordering; limits append.
    let sql = SecurityModel::get_sql_with_condition("where id>?1", ("bogus", "DESC"), (10, 5));
    assert_eq!(sql, format!("{} {}", sel, " where id>?1 LIMIT 10 OFFSET 5 "));
}

#[test]
fn table_sql_is_fixed() {
    assert!(SecurityModel::get_sql(DbOpt::Create).starts_with("CREATE TABLE water_security"));
    assert_eq!(SecurityModel::get_sql(DbOpt::Delete), "DELETE FROM water_security WHERE id=?");
    let cols = SecurityModel::get_names(ModelNameType::Column);
    assert_eq!(cols.len(), 17);
    assert_eq!(cols[0], "id");
    assert_eq!(cols[16], "time");
    let headers = SecurityModel::get_names(ModelNameType::Header);
    assert_eq!(headers.len(), 17);
    assert_eq!(headers[0], "编号");
    assert_eq!(headers[8], "边坡比");
}

#[test]
fn export_then_import_updates_instead_of_duplicating() {
    let mut conn = open_store();
    save_record(&mut conn, sample("甲河", "市区")).expect("insert");
    save_record(&mut conn, sample("乙河", "县城")).expect("insert");
    let stored = conn.select().expect("select");
    assert_eq!(stored.len(), 2);

    // Export: the fixed header row, then one row per record.
    let mut rows: Vec<Vec<String>> = Vec::new();
    rows.push(SecurityModel::get_names(ModelNameType::Header));
    for m in &stored {
        rows.push(export_row(m));
    }

    // Re-import the unchanged sheet: every row updates its own record.
    let now = "2025-06-07 08:09:10".to_string();
    let stats = import_records(&mut conn, &rows, &now);
    assert_eq!(stats.inserted, 0);
    assert_eq!(stats.updated, 2);
    assert_eq!(stats.failed, 0);

    let after = conn.select().expect("select");
    assert_eq!(after.len(), 2, "no duplicates");
    for (a, b) in stored.iter().zip(after.iter()) {
        assert_eq!(a.id, b.id);
        assert_same_but_time(a, b);
        assert_eq!(a.time, b.time, "a parseable timestamp survives the trip");
    }
}

#[test]
fn import_inserts_fresh_rows_and_resets_unknown_ids() {
    let mut conn = open_store();
    let mut rows: Vec<Vec<String>> = Vec::new();
    rows.push(SecurityModel::get_names(ModelNameType::Header));
    // A record carrying an id the store does not know becomes an insert.
    let mut m = sample("丙河", "乡里");
    m.id = 77;
    rows.push(export_row(&m));
    let now = "2025-06-07 08:09:10".to_string();
    let stats = import_records(&mut conn, &rows, &now);
    assert_eq!(stats.inserted, 1);
    assert_eq!(stats.updated, 0);
    assert_eq!(stats.failed, 0);
    let all = conn.select().expect("select");
    assert_eq!(all.len(), 1);
    assert_eq!(all[0].id, 1, "the carried id was reset, the store assigned its own");
}

#[test]
fn import_leaves_unparsable_cells_at_defaults() {
    let mut conn = open_store();
    let mut rows: Vec<Vec<String>> = Vec::new();
    rows.push(vec!["河道名称".to_string(), "河道所属辖区".to_string(), "河道宽度(m)".to_string()]);
    rows.push(vec!["丁河".to_string(), "一般镇".to_string(), "wide".to_string()]);
    let now = "2025-06-07 08:09:10".to_string();
    let stats = import_records(&mut conn, &rows, &now);
    assert_eq!(stats.inserted, 1);
    let all = conn.select().expect("select");
    assert_eq!(all[0].name, "丁河");
    assert_eq!(all[0].river_width, 0, "an unparsable width stays at its default");
    assert_eq!(all[0].time, now, "a missing timestamp column reads as now");
}

#[test]
fn list_view_row_renders_display_texts() {
    let m = sample("运河", "市区");
    let row = view_row(&m);
    assert_eq!(row.len(), 17);
    assert_eq!(row[0], "0");
    assert_eq!(row[1], "第二级");
    assert_eq!(row[6], "100");
    assert_eq!(row[8], "0.5");
    assert_eq!(row[10], "自定义");
    assert_eq!(row[13], "97.5");
    assert_eq!(row[14], "9429.25");
}

#[test]
fn import_merges_rows_sharing_name_and_district() {
    let mut conn = open_store();
    let mut rows: Vec<Vec<String>> = Vec::new();
    rows.push(SecurityModel::get_names(ModelNameType::Header));
    let mut first = sample("戊河", "市区");
    first.depth = 10_000;
    let mut second = sample("戊河", "市区");
    second.depth = 20_000;
    rows.push(export_row(&first));
    rows.push(export_row(&second));
    let now = "2025-06-07 08:09:10".to_string();
    let stats = import_records(&mut conn, &rows, &now);
    assert_eq!(stats.inserted, 1);
    assert_eq!(stats.updated, 1, "the second row updates the first");
    let all = conn.select().expect("select");
    assert_eq!(all.len(), 1);
    assert_eq!(all[0].depth, 20_000, "the later row wins");
}
