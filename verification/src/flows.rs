//! The decision logic behind the form's save button, the delete action, and
//! the list view's rows.

use vstd::prelude::*;

use vstd::string::StringExecFns;

use crate::calc::CalcResult;
use crate::calc::verdict_text;
use crate::db::DbConn;
use crate::fixed::FRAC_CW;
use crate::fixed::FRAC_IN;
use crate::fixed::FRAC_TH;
use crate::fixed::RAW_IN_MAX;
use crate::fixed::parse_scaled;
use crate::fixed::spec_parse_scaled;
use crate::form::FormInput;
use crate::form::parsed;
use crate::form::spec_check;
use crate::form::spec_form_ratio;
use crate::form::spec_level_text;
use crate::form::level_text;
use crate::render::dec_digits;
use crate::render::u64_to_dec;
use crate::security_model::SecurityModel;
use crate::security_model::dec_qty;
use crate::security_model::model_in_bounds;
use crate::sqlite::DbError;

verus! {

/// The notice a save reports: success exactly when one row changed.
pub open spec fn spec_save_notice(n: int) -> Seq<char> {
    if n == 1 {
        "保存成功"@
    } else {
        "保存失败"@
    }
}

/// The notice a save reports for an affected-row count.
pub fn save_notice(n: usize) -> (r: String)
    ensures
        r@ == spec_save_notice(n as int),
{
    if n == 1 {
        String::from_str("保存成功")
    } else {
        String::from_str("保存失败")
    }
}

/// The notice a delete reports: success exactly when one row went away; a
/// count of zero (no row had the id) reads as failure, not as an error.
pub open spec fn spec_delete_notice(n: int) -> Seq<char> {
    if n == 1 {
        "删除成功"@
    } else {
        "删除失败"@
    }
}

/// The notice a delete reports for an affected-row count.
pub fn delete_notice(n: usize) -> (r: String)
    ensures
        r@ == spec_delete_notice(n as int),
{
    if n == 1 {
        String::from_str("删除成功")
    } else {
        String::from_str("删除失败")
    }
}

/// Assembles the record a validated form saves: the entered fields parsed
/// to raw quantities, the stored freeboard doubling as the policy value, the
/// derived results from the calculation, and the given save timestamp.
pub fn build_model(f: &FormInput, id: u32, calc: &CalcResult, now: String) -> (m: SecurityModel)
    requires
        spec_check(f) is None,
    ensures
        m.id == id,
        m.level == f.level,
        m@.name == f.name@,
        m@.area == f.area@,
        m@.start == f.start@,
        m@.end == f.end@,
        Some(m.river_width as int) == parsed(f.river_width@),
        m.ratio as int == spec_form_ratio(f),
        Some(m.elevation as int) == parsed(f.elevation@),
        Some(m.line as int) == parsed(f.line@),
        Some(m.allow as int) == parsed(f.safe@),
        Some(m.safe as int) == parsed(f.safe@),
        Some(m.depth as int) == parsed(f.depth@),
        m.channel_width == calc.channel_width,
        m.threshold == calc.threshold,
        m@.dredging == verdict_text(calc.verdict),
        m@.time == now@,
{
    let river_width = match parse_scaled(f.river_width.as_str(), FRAC_IN, RAW_IN_MAX) {
        Some(v) => v,
        None => 0,  // unreachable: the form was validated
    };
    let ratio: i64 = if f.ratio_choice == Some(true) {
        match parse_scaled(f.ratio.as_str(), FRAC_IN, RAW_IN_MAX) {
            Some(v) => v,
            None => 0,  // unreachable: the form was validated
        }
    } else {
        0
    };
    let elevation = match parse_scaled(f.elevation.as_str(), FRAC_IN, RAW_IN_MAX) {
        Some(v) => v,
        None => 0,  // unreachable: the form was validated
    };
    let line = match parse_scaled(f.line.as_str(), FRAC_IN, RAW_IN_MAX) {
        Some(v) => v,
        None => 0,  // unreachable: the form was validated
    };
    let safe = match parse_scaled(f.safe.as_str(), FRAC_IN, RAW_IN_MAX) {
        Some(v) => v,
        None => 0,  // unreachable: the form was validated
    };
    let depth = match parse_scaled(f.depth.as_str(), FRAC_IN, RAW_IN_MAX) {
        Some(v) => v,
        None => 0,  // unreachable: the form was validated
    };
    SecurityModel {
        id,
        level: f.level,
        name: f.name.clone(),
        area: f.area.clone(),
        start: f.start.clone(),
        end: f.end.clone(),
        river_width,
        ratio,
        elevation,
        line,
        allow: safe,
        safe,
        depth,
        channel_width: calc.channel_width,
        threshold: calc.threshold,
        dredging: calc.verdict.text(),
        time: now,
    }
}

/// Saves a record: an existing id updates its row, a zero id inserts a new
/// one; the reported notice reads success exactly when one row changed. A
/// record the store's encoding cannot carry is refused before the driver is
/// reached; every other failure is the driver's.
pub fn save_record(conn: &mut DbConn<SecurityModel>, m: SecurityModel) -> (r: Result<
    (usize, String),
    DbError,
>)
    ensures
        r matches Ok((n, s)) ==> s@ == spec_save_notice(n as int),
        r == Err::<(usize, String), DbError>(DbError::Unsupported) <==> !model_in_bounds(m@),
        r is Err ==> r == Err::<(usize, String), DbError>(DbError::Unsupported) || r == Err::<
            (usize, String),
            DbError,
        >(DbError::Sqlite),
{
    let id = m.id;
    conn.set_model(m);
    let res = if id > 0 {
        conn.update()
    } else {
        conn.insert()
    };
    match res {
        Ok(n) => Ok((n, save_notice(n))),
        Err(e) => Err(e),
    }
}

/// Deletes the row with the given id; the reported notice reads success
/// exactly when one row went away, so an id no row carries reads as a
/// failure notice, not an error. Every failure is the driver's.
pub fn delete_by_id(conn: &mut DbConn<SecurityModel>, id: u32) -> (r: Result<
    (usize, String),
    DbError,
>)
    ensures
        r matches Ok((n, s)) ==> s@ == spec_delete_notice(n as int),
        r is Err ==> r == Err::<(usize, String), DbError>(DbError::Sqlite),
{
    let mut m = SecurityModel::default();
    m.id = id;
    conn.set_model(m);
    match conn.delete() {
        Ok(n) => Ok((n, delete_notice(n))),
        Err(e) => Err(e),
    }
}

/// The display text of the stored freeboard policy value.
pub open spec fn spec_allow_text(a: int) -> Seq<char> {
    if a == 8_000 {
        "是"@
    } else if a == 4_000 {
        "否"@
    } else {
        "自定义"@
    }
}

/// Display text of the stored freeboard policy value.
pub fn allow_text(a: i64) -> (r: String)
    ensures
        r@ == spec_allow_text(a as int),
{
    if a == 8_000 {
        String::from_str("是")
    } else if a == 4_000 {
        String::from_str("否")
    } else {
        String::from_str("自定义")
    }
}

/// Renders one record as the seventeen texts of a list-view row: the id and
/// quantities in decimal, the grade and freeboard policy as display text.
pub fn view_row(m: &SecurityModel) -> (r: Vec<String>)
    requires
        model_in_bounds(m@),
    ensures
        r.deep_view().len() == 17,
        r.deep_view()[0] == dec_digits(m.id as nat),
        r.deep_view()[1] == spec_level_text(m.level as int),
        r.deep_view()[2] == m@.name,
        r.deep_view()[3] == m@.area,
        r.deep_view()[4] == m@.start,
        r.deep_view()[5] == m@.end,
        dec_qty(r.deep_view()[6]) == Some(m@.river_width),
        dec_qty(r.deep_view()[7]) == Some(m@.elevation),
        dec_qty(r.deep_view()[8]) == Some(m@.ratio),
        dec_qty(r.deep_view()[9]) == Some(m@.line),
        r.deep_view()[10] == spec_allow_text(m@.allow),
        dec_qty(r.deep_view()[11]) == Some(m@.safe),
        dec_qty(r.deep_view()[12]) == Some(m@.depth),
        spec_parse_scaled(r.deep_view()[13], 8, 50_000_000_000_000_000) == Some(m@.channel_width),
        spec_parse_scaled(r.deep_view()[14], 2, 1_000_000_000_000_000_000) == Some(m@.threshold),
        r.deep_view()[15] == m@.dredging,
        r.deep_view()[16] == m@.time,
{
    let mut out: Vec<String> = Vec::new();
    out.push(u64_to_dec(m.id as u64));
    out.push(level_text(m.level));
    out.push(m.name.clone());
    out.push(m.area.clone());
    out.push(m.start.clone());
    out.push(m.end.clone());
    let rw = crate::fixed::format_scaled(m.river_width, FRAC_IN);
    proof {
        crate::fixed::lemma_format_parse_round_trip(rw@, m.river_width as int, 4, 100_000_000);
    }
    out.push(rw);
    let elev = crate::fixed::format_scaled(m.elevation, FRAC_IN);
    proof {
        crate::fixed::lemma_format_parse_round_trip(elev@, m.elevation as int, 4, 100_000_000);
    }
    out.push(elev);
    let ratio = crate::fixed::format_scaled(m.ratio, FRAC_IN);
    proof {
        crate::fixed::lemma_format_parse_round_trip(ratio@, m.ratio as int, 4, 100_000_000);
    }
    out.push(ratio);
    let line = crate::fixed::format_scaled(m.line, FRAC_IN);
    proof {
        crate::fixed::lemma_format_parse_round_trip(line@, m.line as int, 4, 100_000_000);
    }
    out.push(line);
    out.push(allow_text(m.allow));
    let safe = crate::fixed::format_scaled(m.safe, FRAC_IN);
    proof {
        crate::fixed::lemma_format_parse_round_trip(safe@, m.safe as int, 4, 100_000_000);
    }
    out.push(safe);
    let depth = crate::fixed::format_scaled(m.depth, FRAC_IN);
    proof {
        crate::fixed::lemma_format_parse_round_trip(depth@, m.depth as int, 4, 100_000_000);
    }
    out.push(depth);
    let cw = crate::fixed::format_scaled(m.channel_width, FRAC_CW);
    proof {
        crate::fixed::lemma_format_parse_round_trip(cw@, m.channel_width as int, 8,
            50_000_000_000_000_000);
    }
    out.push(cw);
    let th = crate::fixed::format_scaled(m.threshold, FRAC_TH);
    proof {
        crate::fixed::lemma_format_parse_round_trip(th@, m.threshold as int, 2,
            1_000_000_000_000_000_000);
    }
    out.push(th);
    out.push(m.dredging.clone());
    out.push(m.time.clone());
    out
}

} // verus!
