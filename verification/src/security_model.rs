//! The water-security survey record and its persistence capabilities.
//!
//! One record holds a channel's identity, geometry and the derived dredging
//! results. Real-valued quantities are raw fixed-point integers: entered
//! ones at four fractional digits, the channel width at eight, the threshold
//! in hundredths. The record's row encoding is plain text per column, so
//! that storing and reading back a record preserves every field exactly.
//! Only that encoding is read back: a row whose quantity columns hold any
//! other storage class (a floating-point value, say) is refused as a decode
//! error.

use vstd::prelude::*;

use vstd::string::StringExecFns;

use crate::clock::now_string;
use crate::db::DbOpt;
use crate::db::Model;
use crate::db::ModelNameType;
use crate::fixed::FRAC_CW;
use crate::fixed::FRAC_IN;
use crate::fixed::FRAC_TH;
use crate::fixed::RAW_CW_MAX;
use crate::fixed::RAW_IN_MAX;
use crate::fixed::RAW_TH_MAX;
use crate::fixed::format_scaled;
use crate::fixed::lemma_format_parse_round_trip;
use crate::fixed::parse_scaled;
use crate::fixed::spec_parse_scaled;
use crate::render::dec_digits;
use crate::render::u64_to_dec;
use crate::sqlite::DbError;
use crate::sqlite::execute_sql;

verus! {

/// One row of channel survey data.
#[derive(Clone)]
pub struct SecurityModel {
    /// Store key; zero means not yet persisted.
    pub id: u32,
    /// Flood-protection grade, 1 to 5.
    pub level: u32,
    pub name: String,
    pub area: String,
    pub start: String,
    pub end: String,
    /// Four fractional digits.
    pub river_width: i64,
    /// Four fractional digits; zero means no side-slope ratio.
    pub ratio: i64,
    /// Four fractional digits.
    pub elevation: i64,
    /// Four fractional digits.
    pub line: i64,
    /// Four fractional digits; the freeboard the chosen policy stands for.
    pub allow: i64,
    /// Four fractional digits.
    pub safe: i64,
    /// Four fractional digits.
    pub depth: i64,
    /// Eight fractional digits; derived, never entered.
    pub channel_width: i64,
    /// Hundredths; derived, never entered.
    pub threshold: i64,
    /// Derived verdict message.
    pub dredging: String,
    /// Timestamp text of the last save, `YYYY-MM-DD HH:MM:SS`.
    pub time: String,
}

/// The mathematical shape of a record.
pub struct SecurityModelV {
    pub id: int,
    pub level: int,
    pub name: Seq<char>,
    pub area: Seq<char>,
    pub start: Seq<char>,
    pub end: Seq<char>,
    pub river_width: int,
    pub ratio: int,
    pub elevation: int,
    pub line: int,
    pub allow: int,
    pub safe: int,
    pub depth: int,
    pub channel_width: int,
    pub threshold: int,
    pub dredging: Seq<char>,
    pub time: Seq<char>,
}

impl View for SecurityModel {
    type V = SecurityModelV;

    open spec fn view(&self) -> SecurityModelV {
        SecurityModelV {
            id: self.id as int,
            level: self.level as int,
            name: self.name@,
            area: self.area@,
            start: self.start@,
            end: self.end@,
            river_width: self.river_width as int,
            ratio: self.ratio as int,
            elevation: self.elevation as int,
            line: self.line as int,
            allow: self.allow as int,
            safe: self.safe as int,
            depth: self.depth as int,
            channel_width: self.channel_width as int,
            threshold: self.threshold as int,
            dredging: self.dredging@,
            time: self.time@,
        }
    }
}

/// Whether a record's quantities lie within the ranges its encoding can
/// carry: entered quantities within four-digit range, derived ones within
/// theirs.
pub open spec fn model_in_bounds(m: SecurityModelV) -> bool {
    &&& -100_000_000 <= m.river_width <= 100_000_000
    &&& -100_000_000 <= m.ratio <= 100_000_000
    &&& -100_000_000 <= m.elevation <= 100_000_000
    &&& -100_000_000 <= m.line <= 100_000_000
    &&& -100_000_000 <= m.allow <= 100_000_000
    &&& -100_000_000 <= m.safe <= 100_000_000
    &&& -100_000_000 <= m.depth <= 100_000_000
    &&& -50_000_000_000_000_000 <= m.channel_width <= 50_000_000_000_000_000
    &&& -1_000_000_000_000_000_000 <= m.threshold <= 1_000_000_000_000_000_000
}

impl Default for SecurityModel {
    /// A fresh record: every field empty or zero, stamped with the current
    /// time.
    fn default() -> (r: Self)
        ensures
            r.id == 0 && r.level == 0,
            r@.name.len() == 0 && r@.area.len() == 0 && r@.start.len() == 0 && r@.end.len() == 0,
            r.river_width == 0 && r.ratio == 0 && r.elevation == 0 && r.line == 0,
            r.allow == 0 && r.safe == 0 && r.depth == 0,
            r.channel_width == 0 && r.threshold == 0,
            r@.dredging.len() == 0,
    {
        SecurityModel {
            id: 0,
            level: 0,
            name: String::new(),
            area: String::new(),
            start: String::new(),
            end: String::new(),
            river_width: 0,
            ratio: 0,
            elevation: 0,
            line: 0,
            allow: 0,
            safe: 0,
            depth: 0,
            channel_width: 0,
            threshold: 0,
            dredging: String::new(),
            time: now_string(),
        }
    }
}

/// What decoding one quantity column yields.
pub open spec fn dec_qty(s: Seq<char>) -> Option<int> {
    spec_parse_scaled(s, 4, 100_000_000)
}

/// What decoding a row of seventeen column texts yields: the record whose
/// fields the texts render, or nothing if any column fails to parse. Ids and
/// grades are nonnegative integers; quantities parse at their own fractional
/// widths.
pub open spec fn spec_decode(vals: Seq<Seq<char>>) -> Option<SecurityModelV> {
    if vals.len() != 17 {
        None
    } else {
        let id = spec_parse_scaled(vals[0], 0, 4_294_967_295);
        let level = spec_parse_scaled(vals[1], 0, 4_294_967_295);
        let rw = dec_qty(vals[6]);
        let elev = dec_qty(vals[7]);
        let ratio = dec_qty(vals[8]);
        let line = dec_qty(vals[9]);
        let allow = dec_qty(vals[10]);
        let safe = dec_qty(vals[11]);
        let depth = dec_qty(vals[12]);
        let cw = spec_parse_scaled(vals[13], 8, 50_000_000_000_000_000);
        let th = spec_parse_scaled(vals[14], 2, 1_000_000_000_000_000_000);
        if (id matches Some(idv) && idv >= 0) && (level matches Some(lv) && lv >= 0) && rw is Some
            && elev is Some && ratio is Some && line is Some && allow is Some && safe is Some
            && depth is Some && cw is Some && th is Some {
            Some(
                SecurityModelV {
                    id: id->0,
                    level: level->0,
                    name: vals[2],
                    area: vals[3],
                    start: vals[4],
                    end: vals[5],
                    river_width: rw->0,
                    elevation: elev->0,
                    ratio: ratio->0,
                    line: line->0,
                    allow: allow->0,
                    safe: safe->0,
                    depth: depth->0,
                    channel_width: cw->0,
                    threshold: th->0,
                    dredging: vals[15],
                    time: vals[16],
                },
            )
        } else {
            None
        }
    }
}

/// Decodes one quantity column.
fn parse_qty(s: &String) -> (r: Option<i64>)
    ensures
        r matches Some(v) ==> dec_qty(s@) == Some(v as int),
        r is None ==> dec_qty(s@) is None,
{
    parse_scaled(s.as_str(), FRAC_IN, RAW_IN_MAX)
}

/// Decodes a nonnegative integer column.
fn parse_id(s: &String) -> (r: Option<u32>)
    ensures
        r matches Some(v) ==> spec_parse_scaled(s@, 0, 4_294_967_295) == Some(v as int),
        r is None ==> !(spec_parse_scaled(s@, 0, 4_294_967_295) matches Some(v) && v >= 0),
{
    match parse_scaled(s.as_str(), 0, 4_294_967_295) {
        Some(v) => {
            if v >= 0 {
                Some(v as u32)
            } else {
                None
            }
        },
        None => None,
    }
}

/// Decodes a record from a row of seventeen column texts, exactly as
/// `spec_decode` reads them.
pub fn model_from_values(vals: &Vec<String>) -> (r: Result<SecurityModel, DbError>)
    ensures
        r matches Ok(m) ==> spec_decode(vals.deep_view()) == Some(m@),
        r is Err ==> spec_decode(vals.deep_view()) is None,
        r matches Err(e) ==> e == DbError::Decode,
{
    if vals.len() != 17 {
        return Err(DbError::Decode);
    }
    let id = match parse_id(&vals[0]) {
        Some(v) => v,
        None => {
            return Err(DbError::Decode);
        },
    };
    let level = match parse_id(&vals[1]) {
        Some(v) => v,
        None => {
            return Err(DbError::Decode);
        },
    };
    let river_width = match parse_qty(&vals[6]) {
        Some(v) => v,
        None => {
            return Err(DbError::Decode);
        },
    };
    let elevation = match parse_qty(&vals[7]) {
        Some(v) => v,
        None => {
            return Err(DbError::Decode);
        },
    };
    let ratio = match parse_qty(&vals[8]) {
        Some(v) => v,
        None => {
            return Err(DbError::Decode);
        },
    };
    let line = match parse_qty(&vals[9]) {
        Some(v) => v,
        None => {
            return Err(DbError::Decode);
        },
    };
    let allow = match parse_qty(&vals[10]) {
        Some(v) => v,
        None => {
            return Err(DbError::Decode);
        },
    };
    let safe = match parse_qty(&vals[11]) {
        Some(v) => v,
        None => {
            return Err(DbError::Decode);
        },
    };
    let depth = match parse_qty(&vals[12]) {
        Some(v) => v,
        None => {
            return Err(DbError::Decode);
        },
    };
    let channel_width = match parse_scaled(vals[13].as_str(), FRAC_CW, RAW_CW_MAX) {
        Some(v) => v,
        None => {
            return Err(DbError::Decode);
        },
    };
    let threshold = match parse_scaled(vals[14].as_str(), FRAC_TH, RAW_TH_MAX) {
        Some(v) => v,
        None => {
            return Err(DbError::Decode);
        },
    };
    Ok(
        SecurityModel {
            id,
            level,
            name: vals[2].clone(),
            area: vals[3].clone(),
            start: vals[4].clone(),
            end: vals[5].clone(),
            river_width,
            elevation,
            ratio,
            line,
            allow,
            safe,
            depth,
            channel_width,
            threshold,
            dredging: vals[15].clone(),
            time: vals[16].clone(),
        },
    )
}

impl SecurityModel {
    /// Renders the record's bindable fields as statement parameters, in
    /// insert order (grade through time), with the id appended when asked:
    /// text fields as themselves, quantities as decimal literals that parse
    /// back to the same raw values.
    pub fn to_params(&self, with_id: bool) -> (r: Vec<String>)
        requires
            model_in_bounds(self@),
        ensures
            r.deep_view().len() == (if with_id {
                17int
            } else {
                16int
            }),
            r.deep_view()[0] == dec_digits(self.level as nat),
            spec_parse_scaled(r.deep_view()[0], 0, 4_294_967_295) == Some(self@.level),
            r.deep_view()[1] == self@.name,
            r.deep_view()[2] == self@.area,
            r.deep_view()[3] == self@.start,
            r.deep_view()[4] == self@.end,
            dec_qty(r.deep_view()[5]) == Some(self@.river_width),
            dec_qty(r.deep_view()[6]) == Some(self@.elevation),
            dec_qty(r.deep_view()[7]) == Some(self@.ratio),
            dec_qty(r.deep_view()[8]) == Some(self@.line),
            dec_qty(r.deep_view()[9]) == Some(self@.allow),
            dec_qty(r.deep_view()[10]) == Some(self@.safe),
            dec_qty(r.deep_view()[11]) == Some(self@.depth),
            spec_parse_scaled(r.deep_view()[12], 8, 50_000_000_000_000_000) == Some(
                self@.channel_width,
            ),
            spec_parse_scaled(r.deep_view()[13], 2, 1_000_000_000_000_000_000) == Some(
                self@.threshold,
            ),
            r.deep_view()[14] == self@.dredging,
            r.deep_view()[15] == self@.time,
            with_id ==> r.deep_view()[16] == dec_digits(self.id as nat),
            with_id ==> spec_parse_scaled(r.deep_view()[16], 0, 4_294_967_295) == Some(self@.id),
    {
        let mut out: Vec<String> = Vec::new();
        proof {
            crate::render::lemma_dec_digits_parse(self.level as nat, 4_294_967_295);
            crate::render::lemma_dec_digits_parse(self.id as nat, 4_294_967_295);
        }
        out.push(u64_to_dec(self.level as u64));
        out.push(self.name.clone());
        out.push(self.area.clone());
        out.push(self.start.clone());
        out.push(self.end.clone());
        let rw = format_scaled(self.river_width, FRAC_IN);
        proof {
            lemma_format_parse_round_trip(rw@, self.river_width as int, 4, 100_000_000);
        }
        out.push(rw);
        let elev = format_scaled(self.elevation, FRAC_IN);
        proof {
            lemma_format_parse_round_trip(elev@, self.elevation as int, 4, 100_000_000);
        }
        out.push(elev);
        let ratio = format_scaled(self.ratio, FRAC_IN);
        proof {
            lemma_format_parse_round_trip(ratio@, self.ratio as int, 4, 100_000_000);
        }
        out.push(ratio);
        let line = format_scaled(self.line, FRAC_IN);
        proof {
            lemma_format_parse_round_trip(line@, self.line as int, 4, 100_000_000);
        }
        out.push(line);
        let allow = format_scaled(self.allow, FRAC_IN);
        proof {
            lemma_format_parse_round_trip(allow@, self.allow as int, 4, 100_000_000);
        }
        out.push(allow);
        let safe = format_scaled(self.safe, FRAC_IN);
        proof {
            lemma_format_parse_round_trip(safe@, self.safe as int, 4, 100_000_000);
        }
        out.push(safe);
        let depth = format_scaled(self.depth, FRAC_IN);
        proof {
            lemma_format_parse_round_trip(depth@, self.depth as int, 4, 100_000_000);
        }
        out.push(depth);
        let cw = format_scaled(self.channel_width, FRAC_CW);
        proof {
            lemma_format_parse_round_trip(cw@, self.channel_width as int, 8,
                50_000_000_000_000_000);
        }
        out.push(cw);
        let th = format_scaled(self.threshold, FRAC_TH);
        proof {
            lemma_format_parse_round_trip(th@, self.threshold as int, 2,
                1_000_000_000_000_000_000);
        }
        out.push(th);
        out.push(self.dredging.clone());
        out.push(self.time.clone());
        if with_id {
            out.push(u64_to_dec(self.id as u64));
        }
        out
    }

    /// Whether the record's quantities fit their encodings.
    pub fn in_bounds(&self) -> (r: bool)
        ensures
            r == model_in_bounds(self@),
    {
        -100_000_000 <= self.river_width && self.river_width <= 100_000_000 && -100_000_000
            <= self.ratio && self.ratio <= 100_000_000 && -100_000_000 <= self.elevation
            && self.elevation <= 100_000_000 && -100_000_000 <= self.line && self.line
            <= 100_000_000 && -100_000_000 <= self.allow && self.allow <= 100_000_000
            && -100_000_000 <= self.safe && self.safe <= 100_000_000 && -100_000_000 <= self.depth
            && self.depth <= 100_000_000 && -50_000_000_000_000_000 <= self.channel_width
            && self.channel_width <= 50_000_000_000_000_000 && -1_000_000_000_000_000_000
            <= self.threshold && self.threshold <= 1_000_000_000_000_000_000
    }
}

impl Model for SecurityModel {
    open spec fn spec_bindable(&self) -> bool {
        model_in_bounds(self@)
    }

    open spec fn spec_decode_row(vals: Seq<Seq<char>>) -> Option<SecurityModelV> {
        spec_decode(vals)
    }

    open spec fn spec_names(name_type: ModelNameType) -> Seq<Seq<char>> {
        match name_type {
            ModelNameType::Column => seq![
                "id"@,
                "level"@,
                "name"@,
                "area"@,
                "start"@,
                "end"@,
                "river_width"@,
                "elevation"@,
                "ratio"@,
                "line"@,
                "allow"@,
                "safe"@,
                "depth"@,
                "channel_width"@,
                "threshold"@,
                "dredging"@,
                "time"@,
            ],
            ModelNameType::Header => seq![
                "编号"@,
                "河道防洪排涝等级"@,
                "河道名称"@,
                "河道所属辖区"@,
                "河道起点"@,
                "河道终点"@,
                "河道宽度(m)"@,
                "设计河底高程(m)"@,
                "边坡比"@,
                "设计洪水水位(m)"@,
                "是否允许浪爬高"@,
                "安全超高(m)"@,
                "淤积深度(m)"@,
                "河槽宽度(m)"@,
                "淤积阈值(m)"@,
                "清淤判断"@,
                "录入时间"@,
            ],
        }
    }

    open spec fn spec_sql(opt: DbOpt) -> Seq<char> {
        match opt {
            DbOpt::Create => (
            "CREATE TABLE water_security (id INTEGER PRIMARY KEY AUTOINCREMENT, level TEXT, name TEXT, area TEXT, start TEXT, end TEXT, river_width TEXT, elevation TEXT, ratio TEXT, line TEXT, allow TEXT, safe TEXT, depth TEXT, channel_width TEXT, threshold TEXT, dredging TEXT, time TEXT)"@),
            DbOpt::Insert => (
            "INSERT INTO water_security(level, name, area, start, end, river_width, elevation, ratio, line, allow, safe, depth, channel_width, threshold, dredging, time) VALUES(?1, ?2, ?3, ?4, ?5, ?6, ?7, ?8, ?9, ?10, ?11, ?12, ?13, ?14, ?15, ?16)"@),
            DbOpt::Update => (
            "UPDATE water_security SET level=?1, name=?2, area=?3, start=?4, end=?5, river_width=?6, elevation=?7, ratio=?8, line=?9, allow=?10, safe=?11, depth=?12, channel_width=?13, threshold=?14, dredging=?15, time=?16 WHERE id=?17"@),
            DbOpt::Delete => "DELETE FROM water_security WHERE id=?"@,
            DbOpt::Select => (
            "SELECT id, level, name, area, start, end, river_width, elevation, ratio, line, allow, safe, depth, channel_width, threshold, dredging, time FROM water_security"@),
        }
    }

    fn get_names(name_type: ModelNameType) -> (r: Vec<String>) {
        let mut out: Vec<String> = Vec::new();
        match name_type {
            ModelNameType::Column => {
                out.push(String::from_str("id"));
                out.push(String::from_str("level"));
                out.push(String::from_str("name"));
                out.push(String::from_str("area"));
                out.push(String::from_str("start"));
                out.push(String::from_str("end"));
                out.push(String::from_str("river_width"));
                out.push(String::from_str("elevation"));
                out.push(String::from_str("ratio"));
                out.push(String::from_str("line"));
                out.push(String::from_str("allow"));
                out.push(String::from_str("safe"));
                out.push(String::from_str("depth"));
                out.push(String::from_str("channel_width"));
                out.push(String::from_str("threshold"));
                out.push(String::from_str("dredging"));
                out.push(String::from_str("time"));
            },
            ModelNameType::Header => {
                out.push(String::from_str("编号"));
                out.push(String::from_str("河道防洪排涝等级"));
                out.push(String::from_str("河道名称"));
                out.push(String::from_str("河道所属辖区"));
                out.push(String::from_str("河道起点"));
                out.push(String::from_str("河道终点"));
                out.push(String::from_str("河道宽度(m)"));
                out.push(String::from_str("设计河底高程(m)"));
                out.push(String::from_str("边坡比"));
                out.push(String::from_str("设计洪水水位(m)"));
                out.push(String::from_str("是否允许浪爬高"));
                out.push(String::from_str("安全超高(m)"));
                out.push(String::from_str("淤积深度(m)"));
                out.push(String::from_str("河槽宽度(m)"));
                out.push(String::from_str("淤积阈值(m)"));
                out.push(String::from_str("清淤判断"));
                out.push(String::from_str("录入时间"));
            },
        }
        proof {
            assert(out.deep_view() =~= Self::spec_names(name_type));
        }
        out
    }

    fn get_sql(opt: DbOpt) -> (r: String) {
        match opt {
            DbOpt::Create => String::from_str(
                "CREATE TABLE water_security (id INTEGER PRIMARY KEY AUTOINCREMENT, level TEXT, name TEXT, area TEXT, start TEXT, end TEXT, river_width TEXT, elevation TEXT, ratio TEXT, line TEXT, allow TEXT, safe TEXT, depth TEXT, channel_width TEXT, threshold TEXT, dredging TEXT, time TEXT)",
            ),
            DbOpt::Insert => String::from_str(
                "INSERT INTO water_security(level, name, area, start, end, river_width, elevation, ratio, line, allow, safe, depth, channel_width, threshold, dredging, time) VALUES(?1, ?2, ?3, ?4, ?5, ?6, ?7, ?8, ?9, ?10, ?11, ?12, ?13, ?14, ?15, ?16)",
            ),
            DbOpt::Update => String::from_str(
                "UPDATE water_security SET level=?1, name=?2, area=?3, start=?4, end=?5, river_width=?6, elevation=?7, ratio=?8, line=?9, allow=?10, safe=?11, depth=?12, channel_width=?13, threshold=?14, dredging=?15, time=?16 WHERE id=?17",
            ),
            DbOpt::Delete => String::from_str("DELETE FROM water_security WHERE id=?"),
            DbOpt::Select => String::from_str(
                "SELECT id, level, name, area, start, end, river_width, elevation, ratio, line, allow, safe, depth, channel_width, threshold, dredging, time FROM water_security",
            ),
        }
    }

    fn from_row(vals: &Vec<String>) -> (r: Result<Self, DbError>) {
        model_from_values(vals)
    }

    fn execute(&self, conn: &rusqlite::Connection, opt: DbOpt) -> (r: Result<usize, DbError>) {
        if !self.in_bounds() {
            return Err(DbError::Unsupported);
        }
        match opt {
            DbOpt::Insert => {
                let sql = Self::get_sql(DbOpt::Insert);
                let params = self.to_params(false);
                execute_sql(conn, sql.as_str(), &params)
            },
            DbOpt::Update => {
                let sql = Self::get_sql(DbOpt::Update);
                let params = self.to_params(true);
                execute_sql(conn, sql.as_str(), &params)
            },
            DbOpt::Delete => {
                let sql = Self::get_sql(DbOpt::Delete);
                let mut params: Vec<String> = Vec::new();
                params.push(u64_to_dec(self.id as u64));
                execute_sql(conn, sql.as_str(), &params)
            },
            DbOpt::Create => Err(DbError::Unsupported),
            DbOpt::Select => Err(DbError::Unsupported),
        }
    }
}

/// Whatever a row decodes to lies within the store's encoding ranges: the
/// parse bounds of `spec_decode` are exactly the bounds of
/// `model_in_bounds`.
pub proof fn lemma_decoded_in_bounds(row: Seq<Seq<char>>, m: SecurityModelV)
    requires
        spec_decode(row) == Some(m),
    ensures
        model_in_bounds(m),
{
}

/// A row rendered from a record decodes back to exactly that record: the
/// value-level round trip of the store's encoding. The premises are what
/// `to_params` (with the id in front) guarantees of the rendered texts.
pub proof fn lemma_store_round_trip(m: SecurityModelV, row: Seq<Seq<char>>)
    requires
        row.len() == 17,
        0 <= m.id <= 4_294_967_295,
        0 <= m.level <= 4_294_967_295,
        spec_parse_scaled(row[0], 0, 4_294_967_295) == Some(m.id),
        spec_parse_scaled(row[1], 0, 4_294_967_295) == Some(m.level),
        row[2] == m.name,
        row[3] == m.area,
        row[4] == m.start,
        row[5] == m.end,
        dec_qty(row[6]) == Some(m.river_width),
        dec_qty(row[7]) == Some(m.elevation),
        dec_qty(row[8]) == Some(m.ratio),
        dec_qty(row[9]) == Some(m.line),
        dec_qty(row[10]) == Some(m.allow),
        dec_qty(row[11]) == Some(m.safe),
        dec_qty(row[12]) == Some(m.depth),
        spec_parse_scaled(row[13], 8, 50_000_000_000_000_000) == Some(m.channel_width),
        spec_parse_scaled(row[14], 2, 1_000_000_000_000_000_000) == Some(m.threshold),
        row[15] == m.dredging,
        row[16] == m.time,
    ensures
        spec_decode(row) == Some(m),
{
}

} // verus!
