//! Spreadsheet export and import of survey records.
//!
//! Export renders every record as one row of seventeen texts under a fixed
//! header row. Import reads a header row that maps labels to fields, then
//! decodes each following row cell by cell: a cell that fails to parse for
//! its field leaves the field at its default. Imported records are matched
//! against stored rows by name and district; a match adopts the stored id
//! (the update path), while an unmatched record whose carried id is unknown
//! to the store starts fresh (the insert path).

use vstd::prelude::*;

use crate::clock::is_datetime_text;
use crate::clock::parses_as_datetime;
use crate::db::DbConn;
use crate::db::Model;
use crate::db::ModelNameType;
use crate::fixed::FRAC_CW;
use crate::fixed::FRAC_IN;
use crate::fixed::FRAC_TH;
use crate::fixed::RAW_CW_MAX;
use crate::fixed::RAW_IN_MAX;
use crate::fixed::RAW_TH_MAX;
use crate::fixed::format_scaled;
use crate::fixed::lemma_format_parse_round_trip;
use crate::fixed::parse_scaled;
use crate::fixed::spec_parse_scaled;
use crate::render::dec_digits;
use crate::render::u64_to_dec;
use crate::security_model::SecurityModel;
use crate::security_model::SecurityModelV;
use crate::security_model::dec_qty;
use crate::security_model::model_in_bounds;
use crate::sqlite::DbError;
use crate::sqlite::query_strings;
use crate::text::str_eq;

verus! {

/// The field a spreadsheet column feeds, or `Unknown` for an unrecognized
/// header.
#[derive(Clone, Copy, PartialEq, Eq, Structural, Debug)]
pub enum FieldKey {
    Id,
    Level,
    Name,
    Area,
    Start,
    End,
    RiverWidth,
    Elevation,
    Ratio,
    Line,
    Allow,
    Safe,
    Depth,
    ChannelWidth,
    Threshold,
    Dredging,
    Time,
    Unknown,
}

/// The field a header label names.
pub open spec fn spec_field_of_header(h: Seq<char>) -> FieldKey {
    if h == "编号"@ {
        FieldKey::Id
    } else if h == "河道防洪排涝等级"@ {
        FieldKey::Level
    } else if h == "河道名称"@ {
        FieldKey::Name
    } else if h == "河道所属辖区"@ {
        FieldKey::Area
    } else if h == "河道起点"@ {
        FieldKey::Start
    } else if h == "河道终点"@ {
        FieldKey::End
    } else if h == "河道宽度(m)"@ {
        FieldKey::RiverWidth
    } else if h == "设计河底高程(m)"@ {
        FieldKey::Elevation
    } else if h == "边坡比"@ {
        FieldKey::Ratio
    } else if h == "设计洪水水位(m)"@ {
        FieldKey::Line
    } else if h == "是否允许浪爬高"@ {
        FieldKey::Allow
    } else if h == "安全超高(m)"@ {
        FieldKey::Safe
    } else if h == "淤积深度(m)"@ {
        FieldKey::Depth
    } else if h == "河槽宽度(m)"@ {
        FieldKey::ChannelWidth
    } else if h == "淤积阈值(m)"@ {
        FieldKey::Threshold
    } else if h == "清淤判断"@ {
        FieldKey::Dredging
    } else if h == "录入时间"@ {
        FieldKey::Time
    } else {
        FieldKey::Unknown
    }
}

/// The field a header label names.
pub fn field_of_header(h: &str) -> (k: FieldKey)
    ensures
        k == spec_field_of_header(h@),
{
    if str_eq(h, "编号") {
        FieldKey::Id
    } else if str_eq(h, "河道防洪排涝等级") {
        FieldKey::Level
    } else if str_eq(h, "河道名称") {
        FieldKey::Name
    } else if str_eq(h, "河道所属辖区") {
        FieldKey::Area
    } else if str_eq(h, "河道起点") {
        FieldKey::Start
    } else if str_eq(h, "河道终点") {
        FieldKey::End
    } else if str_eq(h, "河道宽度(m)") {
        FieldKey::RiverWidth
    } else if str_eq(h, "设计河底高程(m)") {
        FieldKey::Elevation
    } else if str_eq(h, "边坡比") {
        FieldKey::Ratio
    } else if str_eq(h, "设计洪水水位(m)") {
        FieldKey::Line
    } else if str_eq(h, "是否允许浪爬高") {
        FieldKey::Allow
    } else if str_eq(h, "安全超高(m)") {
        FieldKey::Safe
    } else if str_eq(h, "淤积深度(m)") {
        FieldKey::Depth
    } else if str_eq(h, "河槽宽度(m)") {
        FieldKey::ChannelWidth
    } else if str_eq(h, "淤积阈值(m)") {
        FieldKey::Threshold
    } else if str_eq(h, "清淤判断") {
        FieldKey::Dredging
    } else if str_eq(h, "录入时间") {
        FieldKey::Time
    } else {
        FieldKey::Unknown
    }
}

/// The fields the header row's labels name, one per column.
pub fn header_map(row: &Vec<String>) -> (r: Vec<FieldKey>)
    ensures
        r@.len() == row@.len(),
        forall|i: int|
            0 <= i < row@.len() ==> r@[i] == spec_field_of_header(#[trigger] row.deep_view()[i]),
{
    let mut out: Vec<FieldKey> = Vec::new();
    let mut i: usize = 0;
    while i < row.len()
        invariant
            i <= row@.len(),
            out@.len() == i,
            forall|j: int|
                0 <= j < i ==> out@[j] == spec_field_of_header(#[trigger] row.deep_view()[j]),
        decreases row@.len() - i,
    {
        let k = field_of_header(row[i].as_str());
        out.push(k);
        i = i + 1;
    }
    out
}

/// A fresh record shape stamped `now`.
pub open spec fn default_record(now: Seq<char>) -> SecurityModelV {
    SecurityModelV {
        id: 0,
        level: 0,
        name: Seq::empty(),
        area: Seq::empty(),
        start: Seq::empty(),
        end: Seq::empty(),
        river_width: 0,
        ratio: 0,
        elevation: 0,
        line: 0,
        allow: 0,
        safe: 0,
        depth: 0,
        channel_width: 0,
        threshold: 0,
        dredging: Seq::empty(),
        time: now,
    }
}

/// One imported cell applied to a record under construction: a cell that
/// parses for its field replaces the field, any other leaves it unchanged;
/// text fields take the cell as it stands; a timestamp cell that does not
/// parse back stamps the record `now`.
pub open spec fn apply_cell(m: SecurityModelV, k: FieldKey, cell: Seq<char>, now: Seq<char>)
    -> SecurityModelV {
    match k {
        FieldKey::Id => if spec_parse_scaled(cell, 0, 4_294_967_295) matches Some(v) && v >= 0 {
            SecurityModelV { id: spec_parse_scaled(cell, 0, 4_294_967_295)->0, ..m }
        } else {
            m
        },
        FieldKey::Level => if spec_parse_scaled(cell, 0, 4_294_967_295) matches Some(v) && v >= 0 {
            SecurityModelV { level: spec_parse_scaled(cell, 0, 4_294_967_295)->0, ..m }
        } else {
            m
        },
        FieldKey::Name => SecurityModelV { name: cell, ..m },
        FieldKey::Area => SecurityModelV { area: cell, ..m },
        FieldKey::Start => SecurityModelV { start: cell, ..m },
        FieldKey::End => SecurityModelV { end: cell, ..m },
        FieldKey::RiverWidth => if dec_qty(cell) is Some {
            SecurityModelV { river_width: dec_qty(cell)->0, ..m }
        } else {
            m
        },
        FieldKey::Elevation => if dec_qty(cell) is Some {
            SecurityModelV { elevation: dec_qty(cell)->0, ..m }
        } else {
            m
        },
        FieldKey::Ratio => if dec_qty(cell) is Some {
            SecurityModelV { ratio: dec_qty(cell)->0, ..m }
        } else {
            m
        },
        FieldKey::Line => if dec_qty(cell) is Some {
            SecurityModelV { line: dec_qty(cell)->0, ..m }
        } else {
            m
        },
        FieldKey::Allow => if dec_qty(cell) is Some {
            SecurityModelV { allow: dec_qty(cell)->0, ..m }
        } else {
            m
        },
        FieldKey::Safe => if dec_qty(cell) is Some {
            SecurityModelV { safe: dec_qty(cell)->0, ..m }
        } else {
            m
        },
        FieldKey::Depth => if dec_qty(cell) is Some {
            SecurityModelV { depth: dec_qty(cell)->0, ..m }
        } else {
            m
        },
        FieldKey::ChannelWidth => if spec_parse_scaled(cell, 8, 50_000_000_000_000_000) is Some {
            SecurityModelV {
                channel_width: spec_parse_scaled(cell, 8, 50_000_000_000_000_000)->0,
                ..m
            }
        } else {
            m
        },
        FieldKey::Threshold => if spec_parse_scaled(cell, 2, 1_000_000_000_000_000_000) is Some {
            SecurityModelV {
                threshold: spec_parse_scaled(cell, 2, 1_000_000_000_000_000_000)->0,
                ..m
            }
        } else {
            m
        },
        FieldKey::Dredging => SecurityModelV { dredging: cell, ..m },
        FieldKey::Time => if parses_as_datetime(cell) {
            SecurityModelV { time: cell, ..m }
        } else {
            SecurityModelV { time: now, ..m }
        },
        FieldKey::Unknown => m,
    }
}

/// The record the cells from `i` on build on top of `m`; cells beyond the
/// mapped columns are ignored.
pub open spec fn import_from(
    m: SecurityModelV,
    cols: Seq<FieldKey>,
    cells: Seq<Seq<char>>,
    i: int,
) -> SecurityModelV
    decreases cells.len() - i,
{
    if i < 0 || i >= cells.len() {
        m
    } else if i >= cols.len() {
        m
    } else {
        import_from(apply_cell(m, cols[i], cells[i], m.time), cols, cells, i + 1)
    }
}

/// The record one imported row yields under the given column mapping.
pub open spec fn spec_import_row(cols: Seq<FieldKey>, cells: Seq<Seq<char>>, now: Seq<char>)
    -> SecurityModelV {
    import_from(default_record(now), cols, cells, 0)
}

/// Builds the record one imported row yields: defaults stamped `now`, then
/// each cell applied under the column mapping.
pub fn import_row(cols: &Vec<FieldKey>, cells: &Vec<String>, now: &String) -> (r: SecurityModel)
    ensures
        r@ == spec_import_row(cols@, cells.deep_view(), now@),
{
    let mut m = SecurityModel {
        id: 0,
        level: 0,
        name: String::new(),
        area: String::new(),
        start: String::new(),
        end: String::new(),
        river_width: 0,
        ratio: 0,
        elevation: 0,
        line: 0,
        allow: 0,
        safe: 0,
        depth: 0,
        channel_width: 0,
        threshold: 0,
        dredging: String::new(),
        time: now.clone(),
    };
    proof {
        assert(m@.name =~= default_record(now@).name);
        assert(m@ == default_record(now@));
        assert(import_from(m@, cols@, cells.deep_view(), cells.deep_view().len() as int) == m@);
    }
    let n = if cells.len() <= cols.len() {
        cells.len()
    } else {
        cols.len()
    };
    let ghost cellsv = cells.deep_view();
    let mut i: usize = 0;
    while i < n
        invariant
            n <= cells@.len(),
            n == (if cells@.len() <= cols@.len() {
                cells@.len()
            } else {
                cols@.len()
            }),
            i <= n,
            cellsv == cells.deep_view(),
            spec_import_row(cols@, cellsv, now@) == import_from(m@, cols@, cellsv, i as int),
        decreases n - i,
    {
        let k = cols[i];
        let cell = &cells[i];
        let ghost before = m@;
        match k {
            FieldKey::Id => {
                match parse_scaled(cell.as_str(), 0, 4_294_967_295) {
                    Some(v) => {
                        if v >= 0 {
                            m.id = v as u32;
                        }
                    },
                    None => {
                    },
                }
            },
            FieldKey::Level => {
                match parse_scaled(cell.as_str(), 0, 4_294_967_295) {
                    Some(v) => {
                        if v >= 0 {
                            m.level = v as u32;
                        }
                    },
                    None => {
                    },
                }
            },
            FieldKey::Name => {
                m.name = cell.clone();
            },
            FieldKey::Area => {
                m.area = cell.clone();
            },
            FieldKey::Start => {
                m.start = cell.clone();
            },
            FieldKey::End => {
                m.end = cell.clone();
            },
            FieldKey::RiverWidth => {
                match parse_scaled(cell.as_str(), FRAC_IN, RAW_IN_MAX) {
                    Some(v) => {
                        m.river_width = v;
                    },
                    None => {
                    },
                }
            },
            FieldKey::Elevation => {
                match parse_scaled(cell.as_str(), FRAC_IN, RAW_IN_MAX) {
                    Some(v) => {
                        m.elevation = v;
                    },
                    None => {
                    },
                }
            },
            FieldKey::Ratio => {
                match parse_scaled(cell.as_str(), FRAC_IN, RAW_IN_MAX) {
                    Some(v) => {
                        m.ratio = v;
                    },
                    None => {
                    },
                }
            },
            FieldKey::Line => {
                match parse_scaled(cell.as_str(), FRAC_IN, RAW_IN_MAX) {
                    Some(v) => {
                        m.line = v;
                    },
                    None => {
                    },
                }
            },
            FieldKey::Allow => {
                match parse_scaled(cell.as_str(), FRAC_IN, RAW_IN_MAX) {
                    Some(v) => {
                        m.allow = v;
                    },
                    None => {
                    },
                }
            },
            FieldKey::Safe => {
                match parse_scaled(cell.as_str(), FRAC_IN, RAW_IN_MAX) {
                    Some(v) => {
                        m.safe = v;
                    },
                    None => {
                    },
                }
            },
            FieldKey::Depth => {
                match parse_scaled(cell.as_str(), FRAC_IN, RAW_IN_MAX) {
                    Some(v) => {
                        m.depth = v;
                    },
                    None => {
                    },
                }
            },
            FieldKey::ChannelWidth => {
                match parse_scaled(cell.as_str(), FRAC_CW, RAW_CW_MAX) {
                    Some(v) => {
                        m.channel_width = v;
                    },
                    None => {
                    },
                }
            },
            FieldKey::Threshold => {
                match parse_scaled(cell.as_str(), FRAC_TH, RAW_TH_MAX) {
                    Some(v) => {
                        m.threshold = v;
                    },
                    None => {
                    },
                }
            },
            FieldKey::Dredging => {
                m.dredging = cell.clone();
            },
            FieldKey::Time => {
                // A cell that does not parse back leaves the stamp the
                // record already carries, which is what the fold passes for
                // `now`.
                if is_datetime_text(cell.as_str()) {
                    m.time = cell.clone();
                }
            },
            FieldKey::Unknown => {
            },
        }
        proof {
            assert(m@ == apply_cell(before, cols@[i as int], cellsv[i as int], before.time));
        }
        i = i + 1;
    }
    proof {
        assert(import_from(m@, cols@, cellsv, n as int) == m@) by {
            if (n as int) < cellsv.len() {
                assert(n == cols@.len());
            }
        }
    }
    m
}

/// Renders one record as its seventeen export texts, in header order.
pub fn export_row(m: &SecurityModel) -> (r: Vec<String>)
    requires
        model_in_bounds(m@),
    ensures
        r.deep_view().len() == 17,
        r.deep_view()[0] == dec_digits(m.id as nat),
        r.deep_view()[1] == dec_digits(m.level as nat),
        spec_parse_scaled(r.deep_view()[0], 0, 4_294_967_295) == Some(m@.id),
        spec_parse_scaled(r.deep_view()[1], 0, 4_294_967_295) == Some(m@.level),
        r.deep_view()[2] == m@.name,
        r.deep_view()[3] == m@.area,
        r.deep_view()[4] == m@.start,
        r.deep_view()[5] == m@.end,
        dec_qty(r.deep_view()[6]) == Some(m@.river_width),
        dec_qty(r.deep_view()[7]) == Some(m@.elevation),
        dec_qty(r.deep_view()[8]) == Some(m@.ratio),
        dec_qty(r.deep_view()[9]) == Some(m@.line),
        dec_qty(r.deep_view()[10]) == Some(m@.allow),
        dec_qty(r.deep_view()[11]) == Some(m@.safe),
        dec_qty(r.deep_view()[12]) == Some(m@.depth),
        spec_parse_scaled(r.deep_view()[13], 8, 50_000_000_000_000_000) == Some(m@.channel_width),
        spec_parse_scaled(r.deep_view()[14], 2, 1_000_000_000_000_000_000) == Some(m@.threshold),
        r.deep_view()[15] == m@.dredging,
        r.deep_view()[16] == m@.time,
{
    let mut out: Vec<String> = Vec::new();
    proof {
        crate::render::lemma_dec_digits_parse(m.id as nat, 4_294_967_295);
        crate::render::lemma_dec_digits_parse(m.level as nat, 4_294_967_295);
    }
    out.push(u64_to_dec(m.id as u64));
    out.push(u64_to_dec(m.level as u64));
    out.push(m.name.clone());
    out.push(m.area.clone());
    out.push(m.start.clone());
    out.push(m.end.clone());
    let rw = format_scaled(m.river_width, FRAC_IN);
    proof {
        lemma_format_parse_round_trip(rw@, m.river_width as int, 4, 100_000_000);
    }
    out.push(rw);
    let elev = format_scaled(m.elevation, FRAC_IN);
    proof {
        lemma_format_parse_round_trip(elev@, m.elevation as int, 4, 100_000_000);
    }
    out.push(elev);
    let ratio = format_scaled(m.ratio, FRAC_IN);
    proof {
        lemma_format_parse_round_trip(ratio@, m.ratio as int, 4, 100_000_000);
    }
    out.push(ratio);
    let line = format_scaled(m.line, FRAC_IN);
    proof {
        lemma_format_parse_round_trip(line@, m.line as int, 4, 100_000_000);
    }
    out.push(line);
    let allow = format_scaled(m.allow, FRAC_IN);
    proof {
        lemma_format_parse_round_trip(allow@, m.allow as int, 4, 100_000_000);
    }
    out.push(allow);
    let safe = format_scaled(m.safe, FRAC_IN);
    proof {
        lemma_format_parse_round_trip(safe@, m.safe as int, 4, 100_000_000);
    }
    out.push(safe);
    let depth = format_scaled(m.depth, FRAC_IN);
    proof {
        lemma_format_parse_round_trip(depth@, m.depth as int, 4, 100_000_000);
    }
    out.push(depth);
    let cw = format_scaled(m.channel_width, FRAC_CW);
    proof {
        lemma_format_parse_round_trip(cw@, m.channel_width as int, 8, 50_000_000_000_000_000);
    }
    out.push(cw);
    let th = format_scaled(m.threshold, FRAC_TH);
    proof {
        lemma_format_parse_round_trip(th@, m.threshold as int, 2, 1_000_000_000_000_000_000);
    }
    out.push(th);
    out.push(m.dredging.clone());
    out.push(m.time.clone());
    out
}

/// The outcome counts of one import: rows newly inserted, rows that updated
/// a stored record, and rows whose store operation failed.
pub struct ImportStats {
    pub inserted: usize,
    pub updated: usize,
    pub failed: usize,
}

/// The id an imported record runs with, given the store's answers: a stored
/// row matching its name and district wins its id; otherwise a carried id
/// the store does not know resets to zero, and any other carried id stands.
/// A positive resolved id then updates; a zero one inserts.
pub open spec fn spec_resolve_id(carried: u32, matched: Option<u32>, id_known: bool) -> u32 {
    if matched is Some {
        matched->0
    } else if carried > 0 && !id_known {
        0
    } else {
        carried
    }
}

/// The id an imported record runs with, given the store's answers.
pub fn resolve_import_id(carried: u32, matched: Option<u32>, id_known: bool) -> (r: u32)
    ensures
        r == spec_resolve_id(carried, matched, id_known),
{
    match matched {
        Some(v) => v,
        None => {
            if carried > 0 && !id_known {
                0
            } else {
                carried
            }
        },
    }
}

/// Whether one import row counts as newly inserted: the store reported
/// exactly one changed row and the record ran without an id.
pub open spec fn row_inserted(id: u32, outcome: Result<usize, DbError>) -> bool {
    outcome == Ok::<usize, DbError>(1usize) && id == 0
}

/// Whether one import row counts as an update: the store reported exactly
/// one changed row under a positive id.
pub open spec fn row_updated(id: u32, outcome: Result<usize, DbError>) -> bool {
    outcome == Ok::<usize, DbError>(1usize) && id > 0
}

/// Whether one import row counts as failed: anything but exactly one
/// changed row.
pub open spec fn row_failed(outcome: Result<usize, DbError>) -> bool {
    outcome != Ok::<usize, DbError>(1usize)
}

/// Adds one import row's outcome to the counts; the row lands in exactly
/// one of the three.
fn tally_row(stats: &mut ImportStats, id: u32, outcome: &Result<usize, DbError>)
    requires
        old(stats).inserted + old(stats).updated + old(stats).failed < usize::MAX,
    ensures
        final(stats).inserted == old(stats).inserted + (if row_inserted(id, *outcome) {
            1int
        } else {
            0int
        }),
        final(stats).updated == old(stats).updated + (if row_updated(id, *outcome) {
            1int
        } else {
            0int
        }),
        final(stats).failed == old(stats).failed + (if row_failed(*outcome) {
            1int
        } else {
            0int
        }),
{
    match outcome {
        Ok(n) => {
            if *n == 1 {
                if id > 0 {
                    stats.updated = stats.updated + 1;
                } else {
                    stats.inserted = stats.inserted + 1;
                }
            } else {
                stats.failed = stats.failed + 1;
            }
        },
        Err(_) => {
            stats.failed = stats.failed + 1;
        },
    }
}

/// Imports spreadsheet rows into the store: the first row maps headers to
/// fields, each later row becomes a record, matched against the store by
/// name and district (adopting the stored id), or kept as an insert when its
/// carried id is unknown. Every data row lands in exactly one of the three
/// counts.
pub fn import_records(conn: &mut DbConn<SecurityModel>, rows: &Vec<Vec<String>>, now: &String) -> (
    r: ImportStats)
    ensures
        rows@.len() == 0 ==> r.inserted == 0 && r.updated == 0 && r.failed == 0,
        rows@.len() > 0 ==> r.inserted + r.updated + r.failed == rows@.len() - 1,
{
    let mut stats = ImportStats { inserted: 0, updated: 0, failed: 0 };
    if rows.len() == 0 {
        return stats;
    }
    let cols = header_map(&rows[0]);
    let mut i: usize = 1;
    while i < rows.len()
        invariant
            1 <= i <= rows@.len(),
            stats.inserted + stats.updated + stats.failed == i - 1,
        decreases rows@.len() - i,
    {
        let mut m = import_row(&cols, &rows[i], now);
        // Ask the store for a row matching the record's name and district;
        // a lookup that fails or matches nothing answers no id.
        let mut lookup_params: Vec<String> = Vec::new();
        lookup_params.push(m.name.clone());
        lookup_params.push(m.area.clone());
        let matched: Option<u32> = match query_strings(
            &conn.instance,
            "SELECT id FROM water_security WHERE name=?1 and area=?2",
            &lookup_params,
            1,
        ) {
            Ok(found) => {
                if found.len() >= 1 {
                    match parse_scaled(found[0][0].as_str(), 0, 4_294_967_295) {
                        Some(v) => {
                            if v >= 0 {
                                Some(v as u32)
                            } else {
                                None
                            }
                        },
                        None => None,
                    }
                } else {
                    None
                }
            },
            Err(_) => None,
        };
        // Where that answers nothing and the record carries an id, ask
        // whether the store knows it; a failed lookup counts as unknown.
        let id_known: bool = if matched.is_none() && m.id > 0 {
            let mut id_params: Vec<String> = Vec::new();
            id_params.push(u64_to_dec(m.id as u64));
            match query_strings(
                &conn.instance,
                "SELECT id FROM water_security WHERE id=?1",
                &id_params,
                1,
            ) {
                Ok(found) => found.len() >= 1,
                Err(_) => false,
            }
        } else {
            false
        };
        m.id = resolve_import_id(m.id, matched, id_known);
        let id = m.id;
        conn.set_model(m);
        let outcome = if id > 0 {
            conn.update()
        } else {
            conn.insert()
        };
        tally_row(&mut stats, id, &outcome);
        i = i + 1;
    }
    stats
}

/// The fields the seventeen export headers feed, in order.
pub open spec fn canonical_columns() -> Seq<FieldKey> {
    seq![
        FieldKey::Id,
        FieldKey::Level,
        FieldKey::Name,
        FieldKey::Area,
        FieldKey::Start,
        FieldKey::End,
        FieldKey::RiverWidth,
        FieldKey::Elevation,
        FieldKey::Ratio,
        FieldKey::Line,
        FieldKey::Allow,
        FieldKey::Safe,
        FieldKey::Depth,
        FieldKey::ChannelWidth,
        FieldKey::Threshold,
        FieldKey::Dredging,
        FieldKey::Time,
    ]
}

/// The export header row maps back to the canonical columns, label by label.
#[verifier::rlimit(100)]
#[verifier::spinoff_prover]
pub proof fn lemma_header_columns()
    ensures
        SecurityModel::spec_names(ModelNameType::Header).len() == 17,
        forall|i: int|
            0 <= i < 17 ==> spec_field_of_header(
                #[trigger] SecurityModel::spec_names(ModelNameType::Header)[i],
            ) == canonical_columns()[i],
{
    broadcast use vstd::string::group_string_axioms;

    reveal_strlit("编号");
    reveal_strlit("河道防洪排涝等级");
    reveal_strlit("河道名称");
    reveal_strlit("河道所属辖区");
    reveal_strlit("河道起点");
    reveal_strlit("河道终点");
    reveal_strlit("河道宽度(m)");
    reveal_strlit("设计河底高程(m)");
    reveal_strlit("边坡比");
    reveal_strlit("设计洪水水位(m)");
    reveal_strlit("是否允许浪爬高");
    reveal_strlit("安全超高(m)");
    reveal_strlit("淤积深度(m)");
    reveal_strlit("河槽宽度(m)");
    reveal_strlit("淤积阈值(m)");
    reveal_strlit("清淤判断");
    reveal_strlit("录入时间");
    assert("编号"@.len() != "河道防洪排涝等级"@.len());
    assert("编号"@ != "河道防洪排涝等级"@);
    assert("编号"@.len() != "河道名称"@.len());
    assert("编号"@ != "河道名称"@);
    assert("河道防洪排涝等级"@.len() != "河道名称"@.len());
    assert("河道防洪排涝等级"@ != "河道名称"@);
    assert("编号"@.len() != "河道所属辖区"@.len());
    assert("编号"@ != "河道所属辖区"@);
    assert("河道防洪排涝等级"@.len() != "河道所属辖区"@.len());
    assert("河道防洪排涝等级"@ != "河道所属辖区"@);
    assert("河道名称"@.len() != "河道所属辖区"@.len());
    assert("河道名称"@ != "河道所属辖区"@);
    assert("编号"@.len() != "河道起点"@.len());
    assert("编号"@ != "河道起点"@);
    assert("河道防洪排涝等级"@.len() != "河道起点"@.len());
    assert("河道防洪排涝等级"@ != "河道起点"@);
    assert("河道名称"@[2] != "河道起点"@[2]);
    assert("河道名称"@ != "河道起点"@);
    assert("河道所属辖区"@.len() != "河道起点"@.len());
    assert("河道所属辖区"@ != "河道起点"@);
    assert("编号"@.len() != "河道终点"@.len());
    assert("编号"@ != "河道终点"@);
    assert("河道防洪排涝等级"@.len() != "河道终点"@.len());
    assert("河道防洪排涝等级"@ != "河道终点"@);
    assert("河道名称"@[2] != "河道终点"@[2]);
    assert("河道名称"@ != "河道终点"@);
    assert("河道所属辖区"@.len() != "河道终点"@.len());
    assert("河道所属辖区"@ != "河道终点"@);
    assert("河道起点"@[2] != "河道终点"@[2]);
    assert("河道起点"@ != "河道终点"@);
    assert("编号"@.len() != "河道宽度(m)"@.len());
    assert("编号"@ != "河道宽度(m)"@);
    assert("河道防洪排涝等级"@.len() != "河道宽度(m)"@.len());
    assert("河道防洪排涝等级"@ != "河道宽度(m)"@);
    assert("河道名称"@.len() != "河道宽度(m)"@.len());
    assert("河道名称"@ != "河道宽度(m)"@);
    assert("河道所属辖区"@.len() != "河道宽度(m)"@.len());
    assert("河道所属辖区"@ != "河道宽度(m)"@);
    assert("河道起点"@.len() != "河道宽度(m)"@.len());
    assert("河道起点"@ != "河道宽度(m)"@);
    assert("河道终点"@.len() != "河道宽度(m)"@.len());
    assert("河道终点"@ != "河道宽度(m)"@);
    assert("编号"@.len() != "设计河底高程(m)"@.len());
    assert("编号"@ != "设计河底高程(m)"@);
    assert("河道防洪排涝等级"@.len() != "设计河底高程(m)"@.len());
    assert("河道防洪排涝等级"@ != "设计河底高程(m)"@);
    assert("河道名称"@.len() != "设计河底高程(m)"@.len());
    assert("河道名称"@ != "设计河底高程(m)"@);
    assert("河道所属辖区"@.len() != "设计河底高程(m)"@.len());
    assert("河道所属辖区"@ != "设计河底高程(m)"@);
    assert("河道起点"@.len() != "设计河底高程(m)"@.len());
    assert("河道起点"@ != "设计河底高程(m)"@);
    assert("河道终点"@.len() != "设计河底高程(m)"@.len());
    assert("河道终点"@ != "设计河底高程(m)"@);
    assert("河道宽度(m)"@.len() != "设计河底高程(m)"@.len());
    assert("河道宽度(m)"@ != "设计河底高程(m)"@);
    assert("编号"@.len() != "边坡比"@.len());
    assert("编号"@ != "边坡比"@);
    assert("河道防洪排涝等级"@.len() != "边坡比"@.len());
    assert("河道防洪排涝等级"@ != "边坡比"@);
    assert("河道名称"@.len() != "边坡比"@.len());
    assert("河道名称"@ != "边坡比"@);
    assert("河道所属辖区"@.len() != "边坡比"@.len());
    assert("河道所属辖区"@ != "边坡比"@);
    assert("河道起点"@.len() != "边坡比"@.len());
    assert("河道起点"@ != "边坡比"@);
    assert("河道终点"@.len() != "边坡比"@.len());
    assert("河道终点"@ != "边坡比"@);
    assert("河道宽度(m)"@.len() != "边坡比"@.len());
    assert("河道宽度(m)"@ != "边坡比"@);
    assert("设计河底高程(m)"@.len() != "边坡比"@.len());
    assert("设计河底高程(m)"@ != "边坡比"@);
    assert("编号"@.len() != "设计洪水水位(m)"@.len());
    assert("编号"@ != "设计洪水水位(m)"@);
    assert("河道防洪排涝等级"@.len() != "设计洪水水位(m)"@.len());
    assert("河道防洪排涝等级"@ != "设计洪水水位(m)"@);
    assert("河道名称"@.len() != "设计洪水水位(m)"@.len());
    assert("河道名称"@ != "设计洪水水位(m)"@);
    assert("河道所属辖区"@.len() != "设计洪水水位(m)"@.len());
    assert("河道所属辖区"@ != "设计洪水水位(m)"@);
    assert("河道起点"@.len() != "设计洪水水位(m)"@.len());
    assert("河道起点"@ != "设计洪水水位(m)"@);
    assert("河道终点"@.len() != "设计洪水水位(m)"@.len());
    assert("河道终点"@ != "设计洪水水位(m)"@);
    assert("河道宽度(m)"@.len() != "设计洪水水位(m)"@.len());
    assert("河道宽度(m)"@ != "设计洪水水位(m)"@);
    assert("设计河底高程(m)"@[2] != "设计洪水水位(m)"@[2]);
    assert("设计河底高程(m)"@ != "设计洪水水位(m)"@);
    assert("边坡比"@.len() != "设计洪水水位(m)"@.len());
    assert("边坡比"@ != "设计洪水水位(m)"@);
    assert("编号"@.len() != "是否允许浪爬高"@.len());
    assert("编号"@ != "是否允许浪爬高"@);
    assert("河道防洪排涝等级"@.len() != "是否允许浪爬高"@.len());
    assert("河道防洪排涝等级"@ != "是否允许浪爬高"@);
    assert("河道名称"@.len() != "是否允许浪爬高"@.len());
    assert("河道名称"@ != "是否允许浪爬高"@);
    assert("河道所属辖区"@.len() != "是否允许浪爬高"@.len());
    assert("河道所属辖区"@ != "是否允许浪爬高"@);
    assert("河道起点"@.len() != "是否允许浪爬高"@.len());
    assert("河道起点"@ != "是否允许浪爬高"@);
    assert("河道终点"@.len() != "是否允许浪爬高"@.len());
    assert("河道终点"@ != "是否允许浪爬高"@);
    assert("河道宽度(m)"@[0] != "是否允许浪爬高"@[0]);
    assert("河道宽度(m)"@ != "是否允许浪爬高"@);
    assert("设计河底高程(m)"@.len() != "是否允许浪爬高"@.len());
    assert("设计河底高程(m)"@ != "是否允许浪爬高"@);
    assert("边坡比"@.len() != "是否允许浪爬高"@.len());
    assert("边坡比"@ != "是否允许浪爬高"@);
    assert("设计洪水水位(m)"@.len() != "是否允许浪爬高"@.len());
    assert("设计洪水水位(m)"@ != "是否允许浪爬高"@);
    assert("编号"@.len() != "安全超高(m)"@.len());
    assert("编号"@ != "安全超高(m)"@);
    assert("河道防洪排涝等级"@.len() != "安全超高(m)"@.len());
    assert("河道防洪排涝等级"@ != "安全超高(m)"@);
    assert("河道名称"@.len() != "安全超高(m)"@.len());
    assert("河道名称"@ != "安全超高(m)"@);
    assert("河道所属辖区"@.len() != "安全超高(m)"@.len());
    assert("河道所属辖区"@ != "安全超高(m)"@);
    assert("河道起点"@.len() != "安全超高(m)"@.len());
    assert("河道起点"@ != "安全超高(m)"@);
    assert("河道终点"@.len() != "安全超高(m)"@.len());
    assert("河道终点"@ != "安全超高(m)"@);
    assert("河道宽度(m)"@[0] != "安全超高(m)"@[0]);
    assert("河道宽度(m)"@ != "安全超高(m)"@);
    assert("设计河底高程(m)"@.len() != "安全超高(m)"@.len());
    assert("设计河底高程(m)"@ != "安全超高(m)"@);
    assert("边坡比"@.len() != "安全超高(m)"@.len());
    assert("边坡比"@ != "安全超高(m)"@);
    assert("设计洪水水位(m)"@.len() != "安全超高(m)"@.len());
    assert("设计洪水水位(m)"@ != "安全超高(m)"@);
    assert("是否允许浪爬高"@[0] != "安全超高(m)"@[0]);
    assert("是否允许浪爬高"@ != "安全超高(m)"@);
    assert("编号"@.len() != "淤积深度(m)"@.len());
    assert("编号"@ != "淤积深度(m)"@);
    assert("河道防洪排涝等级"@.len() != "淤积深度(m)"@.len());
    assert("河道防洪排涝等级"@ != "淤积深度(m)"@);
    assert("河道名称"@.len() != "淤积深度(m)"@.len());
    assert("河道名称"@ != "淤积深度(m)"@);
    assert("河道所属辖区"@.len() != "淤积深度(m)"@.len());
    assert("河道所属辖区"@ != "淤积深度(m)"@);
    assert("河道起点"@.len() != "淤积深度(m)"@.len());
    assert("河道起点"@ != "淤积深度(m)"@);
    assert("河道终点"@.len() != "淤积深度(m)"@.len());
    assert("河道终点"@ != "淤积深度(m)"@);
    assert("河道宽度(m)"@[0] != "淤积深度(m)"@[0]);
    assert("河道宽度(m)"@ != "淤积深度(m)"@);
    assert("设计河底高程(m)"@.len() != "淤积深度(m)"@.len());
    assert("设计河底高程(m)"@ != "淤积深度(m)"@);
    assert("边坡比"@.len() != "淤积深度(m)"@.len());
    assert("边坡比"@ != "淤积深度(m)"@);
    assert("设计洪水水位(m)"@.len() != "淤积深度(m)"@.len());
    assert("设计洪水水位(m)"@ != "淤积深度(m)"@);
    assert("是否允许浪爬高"@[0] != "淤积深度(m)"@[0]);
    assert("是否允许浪爬高"@ != "淤积深度(m)"@);
    assert("安全超高(m)"@[0] != "淤积深度(m)"@[0]);
    assert("安全超高(m)"@ != "淤积深度(m)"@);
    assert("编号"@.len() != "河槽宽度(m)"@.len());
    assert("编号"@ != "河槽宽度(m)"@);
    assert("河道防洪排涝等级"@.len() != "河槽宽度(m)"@.len());
    assert("河道防洪排涝等级"@ != "河槽宽度(m)"@);
    assert("河道名称"@.len() != "河槽宽度(m)"@.len());
    assert("河道名称"@ != "河槽宽度(m)"@);
    assert("河道所属辖区"@.len() != "河槽宽度(m)"@.len());
    assert("河道所属辖区"@ != "河槽宽度(m)"@);
    assert("河道起点"@.len() != "河槽宽度(m)"@.len());
    assert("河道起点"@ != "河槽宽度(m)"@);
    assert("河道终点"@.len() != "河槽宽度(m)"@.len());
    assert("河道终点"@ != "河槽宽度(m)"@);
    assert("河道宽度(m)"@[1] != "河槽宽度(m)"@[1]);
    assert("河道宽度(m)"@ != "河槽宽度(m)"@);
    assert("设计河底高程(m)"@.len() != "河槽宽度(m)"@.len());
    assert("设计河底高程(m)"@ != "河槽宽度(m)"@);
    assert("边坡比"@.len() != "河槽宽度(m)"@.len());
    assert("边坡比"@ != "河槽宽度(m)"@);
    assert("设计洪水水位(m)"@.len() != "河槽宽度(m)"@.len());
    assert("设计洪水水位(m)"@ != "河槽宽度(m)"@);
    assert("是否允许浪爬高"@[0] != "河槽宽度(m)"@[0]);
    assert("是否允许浪爬高"@ != "河槽宽度(m)"@);
    assert("安全超高(m)"@[0] != "河槽宽度(m)"@[0]);
    assert("安全超高(m)"@ != "河槽宽度(m)"@);
    assert("淤积深度(m)"@[0] != "河槽宽度(m)"@[0]);
    assert("淤积深度(m)"@ != "河槽宽度(m)"@);
    assert("编号"@.len() != "淤积阈值(m)"@.len());
    assert("编号"@ != "淤积阈值(m)"@);
    assert("河道防洪排涝等级"@.len() != "淤积阈值(m)"@.len());
    assert("河道防洪排涝等级"@ != "淤积阈值(m)"@);
    assert("河道名称"@.len() != "淤积阈值(m)"@.len());
    assert("河道名称"@ != "淤积阈值(m)"@);
    assert("河道所属辖区"@.len() != "淤积阈值(m)"@.len());
    assert("河道所属辖区"@ != "淤积阈值(m)"@);
    assert("河道起点"@.len() != "淤积阈值(m)"@.len());
    assert("河道起点"@ != "淤积阈值(m)"@);
    assert("河道终点"@.len() != "淤积阈值(m)"@.len());
    assert("河道终点"@ != "淤积阈值(m)"@);
    assert("河道宽度(m)"@[0] != "淤积阈值(m)"@[0]);
    assert("河道宽度(m)"@ != "淤积阈值(m)"@);
    assert("设计河底高程(m)"@.len() != "淤积阈值(m)"@.len());
    assert("设计河底高程(m)"@ != "淤积阈值(m)"@);
    assert("边坡比"@.len() != "淤积阈值(m)"@.len());
    assert("边坡比"@ != "淤积阈值(m)"@);
    assert("设计洪水水位(m)"@.len() != "淤积阈值(m)"@.len());
    assert("设计洪水水位(m)"@ != "淤积阈值(m)"@);
    assert("是否允许浪爬高"@[0] != "淤积阈值(m)"@[0]);
    assert("是否允许浪爬高"@ != "淤积阈值(m)"@);
    assert("安全超高(m)"@[0] != "淤积阈值(m)"@[0]);
    assert("安全超高(m)"@ != "淤积阈值(m)"@);
    assert("淤积深度(m)"@[2] != "淤积阈值(m)"@[2]);
    assert("淤积深度(m)"@ != "淤积阈值(m)"@);
    assert("河槽宽度(m)"@[0] != "淤积阈值(m)"@[0]);
    assert("河槽宽度(m)"@ != "淤积阈值(m)"@);
    assert("编号"@.len() != "清淤判断"@.len());
    assert("编号"@ != "清淤判断"@);
    assert("河道防洪排涝等级"@.len() != "清淤判断"@.len());
    assert("河道防洪排涝等级"@ != "清淤判断"@);
    assert("河道名称"@[0] != "清淤判断"@[0]);
    assert("河道名称"@ != "清淤判断"@);
    assert("河道所属辖区"@.len() != "清淤判断"@.len());
    assert("河道所属辖区"@ != "清淤判断"@);
    assert("河道起点"@[0] != "清淤判断"@[0]);
    assert("河道起点"@ != "清淤判断"@);
    assert("河道终点"@[0] != "清淤判断"@[0]);
    assert("河道终点"@ != "清淤判断"@);
    assert("河道宽度(m)"@.len() != "清淤判断"@.len());
    assert("河道宽度(m)"@ != "清淤判断"@);
    assert("设计河底高程(m)"@.len() != "清淤判断"@.len());
    assert("设计河底高程(m)"@ != "清淤判断"@);
    assert("边坡比"@.len() != "清淤判断"@.len());
    assert("边坡比"@ != "清淤判断"@);
    assert("设计洪水水位(m)"@.len() != "清淤判断"@.len());
    assert("设计洪水水位(m)"@ != "清淤判断"@);
    assert("是否允许浪爬高"@.len() != "清淤判断"@.len());
    assert("是否允许浪爬高"@ != "清淤判断"@);
    assert("安全超高(m)"@.len() != "清淤判断"@.len());
    assert("安全超高(m)"@ != "清淤判断"@);
    assert("淤积深度(m)"@.len() != "清淤判断"@.len());
    assert("淤积深度(m)"@ != "清淤判断"@);
    assert("河槽宽度(m)"@.len() != "清淤判断"@.len());
    assert("河槽宽度(m)"@ != "清淤判断"@);
    assert("淤积阈值(m)"@.len() != "清淤判断"@.len());
    assert("淤积阈值(m)"@ != "清淤判断"@);
    assert("编号"@.len() != "录入时间"@.len());
    assert("编号"@ != "录入时间"@);
    assert("河道防洪排涝等级"@.len() != "录入时间"@.len());
    assert("河道防洪排涝等级"@ != "录入时间"@);
    assert("河道名称"@[0] != "录入时间"@[0]);
    assert("河道名称"@ != "录入时间"@);
    assert("河道所属辖区"@.len() != "录入时间"@.len());
    assert("河道所属辖区"@ != "录入时间"@);
    assert("河道起点"@[0] != "录入时间"@[0]);
    assert("河道起点"@ != "录入时间"@);
    assert("河道终点"@[0] != "录入时间"@[0]);
    assert("河道终点"@ != "录入时间"@);
    assert("河道宽度(m)"@.len() != "录入时间"@.len());
    assert("河道宽度(m)"@ != "录入时间"@);
    assert("设计河底高程(m)"@.len() != "录入时间"@.len());
    assert("设计河底高程(m)"@ != "录入时间"@);
    assert("边坡比"@.len() != "录入时间"@.len());
    assert("边坡比"@ != "录入时间"@);
    assert("设计洪水水位(m)"@.len() != "录入时间"@.len());
    assert("设计洪水水位(m)"@ != "录入时间"@);
    assert("是否允许浪爬高"@.len() != "录入时间"@.len());
    assert("是否允许浪爬高"@ != "录入时间"@);
    assert("安全超高(m)"@.len() != "录入时间"@.len());
    assert("安全超高(m)"@ != "录入时间"@);
    assert("淤积深度(m)"@.len() != "录入时间"@.len());
    assert("淤积深度(m)"@ != "录入时间"@);
    assert("河槽宽度(m)"@.len() != "录入时间"@.len());
    assert("河槽宽度(m)"@ != "录入时间"@);
    assert("淤积阈值(m)"@.len() != "录入时间"@.len());
    assert("淤积阈值(m)"@ != "录入时间"@);
    assert("清淤判断"@[0] != "录入时间"@[0]);
    assert("清淤判断"@ != "录入时间"@);
    let hs = SecurityModel::spec_names(ModelNameType::Header);
    assert(spec_field_of_header(hs[0]) == FieldKey::Id);
    assert(spec_field_of_header(hs[1]) == FieldKey::Level);
    assert(spec_field_of_header(hs[2]) == FieldKey::Name);
    assert(spec_field_of_header(hs[3]) == FieldKey::Area);
    assert(spec_field_of_header(hs[4]) == FieldKey::Start);
    assert(spec_field_of_header(hs[5]) == FieldKey::End);
    assert(spec_field_of_header(hs[6]) == FieldKey::RiverWidth);
    assert(spec_field_of_header(hs[7]) == FieldKey::Elevation);
    assert(spec_field_of_header(hs[8]) == FieldKey::Ratio);
    assert(spec_field_of_header(hs[9]) == FieldKey::Line);
    assert(spec_field_of_header(hs[10]) == FieldKey::Allow);
    assert(spec_field_of_header(hs[11]) == FieldKey::Safe);
    assert(spec_field_of_header(hs[12]) == FieldKey::Depth);
    assert(spec_field_of_header(hs[13]) == FieldKey::ChannelWidth);
    assert(spec_field_of_header(hs[14]) == FieldKey::Threshold);
    assert(spec_field_of_header(hs[15]) == FieldKey::Dredging);
    assert(spec_field_of_header(hs[16]) == FieldKey::Time);
    assert forall|i: int| 0 <= i < 17 implies spec_field_of_header(#[trigger] hs[i])
        == canonical_columns()[i] by {
        if i == 0 {
            assert(spec_field_of_header(hs[0]) == canonical_columns()[0]);
        } else if i == 1 {
            assert(spec_field_of_header(hs[1]) == canonical_columns()[1]);
        } else if i == 2 {
            assert(spec_field_of_header(hs[2]) == canonical_columns()[2]);
        } else if i == 3 {
            assert(spec_field_of_header(hs[3]) == canonical_columns()[3]);
        } else if i == 4 {
            assert(spec_field_of_header(hs[4]) == canonical_columns()[4]);
        } else if i == 5 {
            assert(spec_field_of_header(hs[5]) == canonical_columns()[5]);
        } else if i == 6 {
            assert(spec_field_of_header(hs[6]) == canonical_columns()[6]);
        } else if i == 7 {
            assert(spec_field_of_header(hs[7]) == canonical_columns()[7]);
        } else if i == 8 {
            assert(spec_field_of_header(hs[8]) == canonical_columns()[8]);
        } else if i == 9 {
            assert(spec_field_of_header(hs[9]) == canonical_columns()[9]);
        } else if i == 10 {
            assert(spec_field_of_header(hs[10]) == canonical_columns()[10]);
        } else if i == 11 {
            assert(spec_field_of_header(hs[11]) == canonical_columns()[11]);
        } else if i == 12 {
            assert(spec_field_of_header(hs[12]) == canonical_columns()[12]);
        } else if i == 13 {
            assert(spec_field_of_header(hs[13]) == canonical_columns()[13]);
        } else if i == 14 {
            assert(spec_field_of_header(hs[14]) == canonical_columns()[14]);
        } else if i == 15 {
            assert(spec_field_of_header(hs[15]) == canonical_columns()[15]);
        } else if i == 16 {
            assert(spec_field_of_header(hs[16]) == canonical_columns()[16]);
        }
    }
}

/// Importing a record's own export under the canonical columns gives the
/// record back, except that its timestamp survives only when it parses back
/// as a timestamp, and reads as `now` otherwise. The premises are what
/// `export_row` guarantees of the rendered texts.
pub proof fn lemma_export_import_round_trip(
    m: SecurityModelV,
    cells: Seq<Seq<char>>,
    now: Seq<char>,
)
    requires
        cells.len() == 17,
        0 <= m.id <= 4_294_967_295,
        0 <= m.level <= 4_294_967_295,
        spec_parse_scaled(cells[0], 0, 4_294_967_295) == Some(m.id),
        spec_parse_scaled(cells[1], 0, 4_294_967_295) == Some(m.level),
        cells[2] == m.name,
        cells[3] == m.area,
        cells[4] == m.start,
        cells[5] == m.end,
        dec_qty(cells[6]) == Some(m.river_width),
        dec_qty(cells[7]) == Some(m.elevation),
        dec_qty(cells[8]) == Some(m.ratio),
        dec_qty(cells[9]) == Some(m.line),
        dec_qty(cells[10]) == Some(m.allow),
        dec_qty(cells[11]) == Some(m.safe),
        dec_qty(cells[12]) == Some(m.depth),
        spec_parse_scaled(cells[13], 8, 50_000_000_000_000_000) == Some(m.channel_width),
        spec_parse_scaled(cells[14], 2, 1_000_000_000_000_000_000) == Some(m.threshold),
        cells[15] == m.dredging,
        cells[16] == m.time,
    ensures
        ({
            let got = spec_import_row(canonical_columns(), cells, now);
            &&& got.id == m.id
            &&& got.level == m.level
            &&& got.name == m.name
            &&& got.area == m.area
            &&& got.start == m.start
            &&& got.end == m.end
            &&& got.river_width == m.river_width
            &&& got.elevation == m.elevation
            &&& got.ratio == m.ratio
            &&& got.line == m.line
            &&& got.allow == m.allow
            &&& got.safe == m.safe
            &&& got.depth == m.depth
            &&& got.channel_width == m.channel_width
            &&& got.threshold == m.threshold
            &&& got.dredging == m.dredging
            &&& got.time == (if parses_as_datetime(m.time) {
                m.time
            } else {
                now
            })
        }),
{
    let cols = canonical_columns();
    assert(cols[0] == FieldKey::Id);
    assert(cols[1] == FieldKey::Level);
    assert(cols[2] == FieldKey::Name);
    assert(cols[3] == FieldKey::Area);
    assert(cols[4] == FieldKey::Start);
    assert(cols[5] == FieldKey::End);
    assert(cols[6] == FieldKey::RiverWidth);
    assert(cols[7] == FieldKey::Elevation);
    assert(cols[8] == FieldKey::Ratio);
    assert(cols[9] == FieldKey::Line);
    assert(cols[10] == FieldKey::Allow);
    assert(cols[11] == FieldKey::Safe);
    assert(cols[12] == FieldKey::Depth);
    assert(cols[13] == FieldKey::ChannelWidth);
    assert(cols[14] == FieldKey::Threshold);
    assert(cols[15] == FieldKey::Dredging);
    assert(cols[16] == FieldKey::Time);
    let c0 = default_record(now);
    let c1 = apply_cell(c0, FieldKey::Id, cells[0], c0.time);
    let c2 = apply_cell(c1, FieldKey::Level, cells[1], c1.time);
    let c3 = apply_cell(c2, FieldKey::Name, cells[2], c2.time);
    let c4 = apply_cell(c3, FieldKey::Area, cells[3], c3.time);
    let c5 = apply_cell(c4, FieldKey::Start, cells[4], c4.time);
    let c6 = apply_cell(c5, FieldKey::End, cells[5], c5.time);
    let c7 = apply_cell(c6, FieldKey::RiverWidth, cells[6], c6.time);
    let c8 = apply_cell(c7, FieldKey::Elevation, cells[7], c7.time);
    let c9 = apply_cell(c8, FieldKey::Ratio, cells[8], c8.time);
    let c10 = apply_cell(c9, FieldKey::Line, cells[9], c9.time);
    let c11 = apply_cell(c10, FieldKey::Allow, cells[10], c10.time);
    let c12 = apply_cell(c11, FieldKey::Safe, cells[11], c11.time);
    let c13 = apply_cell(c12, FieldKey::Depth, cells[12], c12.time);
    let c14 = apply_cell(c13, FieldKey::ChannelWidth, cells[13], c13.time);
    let c15 = apply_cell(c14, FieldKey::Threshold, cells[14], c14.time);
    let c16 = apply_cell(c15, FieldKey::Dredging, cells[15], c15.time);
    let c17 = apply_cell(c16, FieldKey::Time, cells[16], c16.time);
    assert(import_from(c17, cols, cells, 17) == c17);
    assert(import_from(c0, cols, cells, 0) == import_from(c1, cols, cells, 1));
    assert(import_from(c1, cols, cells, 1) == import_from(c2, cols, cells, 2));
    assert(import_from(c2, cols, cells, 2) == import_from(c3, cols, cells, 3));
    assert(import_from(c3, cols, cells, 3) == import_from(c4, cols, cells, 4));
    assert(import_from(c4, cols, cells, 4) == import_from(c5, cols, cells, 5));
    assert(import_from(c5, cols, cells, 5) == import_from(c6, cols, cells, 6));
    assert(import_from(c6, cols, cells, 6) == import_from(c7, cols, cells, 7));
    assert(import_from(c7, cols, cells, 7) == import_from(c8, cols, cells, 8));
    assert(import_from(c8, cols, cells, 8) == import_from(c9, cols, cells, 9));
    assert(import_from(c9, cols, cells, 9) == import_from(c10, cols, cells, 10));
    assert(import_from(c10, cols, cells, 10) == import_from(c11, cols, cells, 11));
    assert(import_from(c11, cols, cells, 11) == import_from(c12, cols, cells, 12));
    assert(import_from(c12, cols, cells, 12) == import_from(c13, cols, cells, 13));
    assert(import_from(c13, cols, cells, 13) == import_from(c14, cols, cells, 14));
    assert(import_from(c14, cols, cells, 14) == import_from(c15, cols, cells, 15));
    assert(import_from(c15, cols, cells, 15) == import_from(c16, cols, cells, 16));
    assert(import_from(c16, cols, cells, 16) == import_from(c17, cols, cells, 17));
    assert(spec_import_row(cols, cells, now) == c17);
}

} // verus!
