//! The survey form: field validation and the calculation it gates.
//!
//! The form hands its raw field texts and radio choices to `check_input`,
//! which enforces the input rules in a fixed order and reports the first
//! violation with its message and the field to refocus. `exec_calc` validates
//! and then derives channel width, threshold and verdict.

use vstd::prelude::*;

use vstd::string::StringExecFns;

use crate::calc::CalcResult;
use crate::calc::area_tier;
use crate::calc::spec_area_tier;
use crate::calc::spec_channel_width;
use crate::calc::spec_threshold;
use crate::calc::spec_verdict;
use crate::calc::threshold_calc;
use crate::fixed::FRAC_IN;
use crate::fixed::RAW_IN_MAX;
use crate::fixed::parse_scaled;
use crate::fixed::spec_parse_scaled;
use crate::text::contains_sub;
use crate::text::has_sub;

verus! {

/// The freeboard policy chosen on the form.
#[derive(Clone, Copy, PartialEq, Eq, Structural, Debug)]
pub enum AllowChoice {
    /// Wave run-up allowed: freeboard from the smaller fixed table.
    Yes,
    /// Wave run-up not allowed: freeboard from the larger fixed table.
    No,
    /// Freeboard entered by hand.
    Custom,
}

/// The raw state of the survey form: field texts and radio choices.
pub struct FormInput {
    pub level: u32,
    pub name: String,
    pub area: String,
    pub start: String,
    pub end: String,
    pub river_width: String,
    /// Whether a side-slope ratio was declared; `None` until a radio is
    /// chosen.
    pub ratio_choice: Option<bool>,
    pub ratio: String,
    pub elevation: String,
    pub line: String,
    /// The freeboard policy; `None` until a radio is chosen.
    pub allow_choice: Option<AllowChoice>,
    pub safe: String,
    pub depth: String,
}

/// A validation failure: the message to show and the name of the field to
/// refocus (empty when no single field is at fault).
pub enum SecurityFormError {
    InvalidInput(String, String),
}

/// What parsing a quantity field yields: its raw value at four fractional
/// digits, within the supported range.
pub open spec fn parsed(s: Seq<char>) -> Option<int> {
    spec_parse_scaled(s, 4, 100_000_000)
}

/// Whether `s` holds a quantity that parses and is positive.
pub open spec fn parses_positive(s: Seq<char>) -> bool {
    parsed(s) matches Some(v) && v > 0
}

/// Whether the district text carries one of the recognized region markers.
pub open spec fn area_marked(a: Seq<char>) -> bool {
    ||| has_sub(a, "一般"@)
    ||| has_sub(a, "市"@)
    ||| has_sub(a, "县"@)
    ||| has_sub(a, "区"@)
    ||| has_sub(a, "乡"@)
}

/// The first rule the form breaks, as the pair of message and field to
/// refocus, or `None` when every rule holds. The rules run in a fixed order:
/// name, district (present, then marked), start, end, river width (present,
/// numeric, positive), slope choice and ratio, bed elevation, flood level,
/// freeboard choice, freeboard, silt depth.
pub open spec fn spec_check(f: &FormInput) -> Option<(Seq<char>, Seq<char>)> {
    if f.name@.len() == 0 {
        Some(("请填写河道名称"@, "name"@))
    } else if f.area@.len() == 0 {
        Some(("请填写河道所属辖区"@, "area"@))
    } else if !area_marked(f.area@) {
        Some(("河道所属辖区至少要含有【市】|【县】|【区】|【乡】|【一般】关键字中的一个"@, "area"@))
    } else if f.start@.len() == 0 {
        Some(("请填写河道起点"@, "start"@))
    } else if f.end@.len() == 0 {
        Some(("请填写河道终点"@, "end"@))
    } else if f.river_width@.len() == 0 {
        Some(("请填写河道宽度"@, "river_width"@))
    } else if parsed(f.river_width@) is None {
        Some(("河道宽度必须为数字"@, "river_width"@))
    } else if parsed(f.river_width@)->0 <= 0 {
        Some(("河道宽度必须大于0"@, "river_width"@))
    } else if f.ratio_choice is None {
        Some(("请选择是否有边坡比"@, ""@))
    } else if f.ratio_choice == Some(true) && f.ratio@.len() == 0 {
        Some(("请填写边坡比"@, "ratio"@))
    } else if f.ratio_choice == Some(true) && parsed(f.ratio@) is None {
        Some(("边坡比必须为数字"@, "ratio"@))
    } else if f.ratio_choice == Some(true) && parsed(f.ratio@)->0 == 0 {
        Some(("边坡比不能为0"@, "ratio"@))
    } else if f.elevation@.len() == 0 {
        Some(("请填写河底高程"@, "elevation"@))
    } else if parsed(f.elevation@) is None {
        Some(("河底高程必须为数字"@, "elevation"@))
    } else if parsed(f.elevation@)->0 <= 0 {
        Some(("河底高程必须大于0"@, "elevation"@))
    } else if f.line@.len() == 0 {
        Some(("请填写洪水水位"@, "line"@))
    } else if parsed(f.line@) is None {
        Some(("洪水水位必须为数字"@, "line"@))
    } else if parsed(f.line@)->0 <= 0 {
        Some(("洪水水位必须大于0"@, "line"@))
    } else if f.allow_choice is None {
        Some(("请选择是否允许浪爬高"@, ""@))
    } else if f.safe@.len() == 0 {
        Some(("请填写安全超高"@, "safe"@))
    } else if parsed(f.safe@) is None {
        Some(("安全超高必须为数字"@, "safe"@))
    } else if parsed(f.safe@)->0 <= 0 {
        Some(("安全超高必须大于0"@, "safe"@))
    } else if f.depth@.len() == 0 {
        Some(("请填写淤积深度"@, "depth"@))
    } else if parsed(f.depth@) is None {
        Some(("淤积深度必须为数字"@, "depth"@))
    } else if parsed(f.depth@)->0 <= 0 {
        Some(("淤积深度必须大于0"@, "depth"@))
    } else {
        None
    }
}

/// Checks one positive-quantity field: present, numeric, positive. The
/// messages are the field's own.
fn check_quantity(text: &String, empty_msg: &str, nan_msg: &str, pos_msg: &str, field: &str) -> (r:
    Result<i64, SecurityFormError>)
    ensures
        r matches Ok(v) ==> quantity_ok(text@) && parsed(text@) == Some(v as int) && 0 < v
            <= 100_000_000,
        r matches Err(SecurityFormError::InvalidInput(m, fl)) ==> fl@ == field@ && (if text@.len()
            == 0 {
            m@ == empty_msg@
        } else if parsed(text@) is None {
            m@ == nan_msg@
        } else {
            m@ == pos_msg@ && parsed(text@)->0 <= 0
        }),
        r is Ok <==> quantity_ok(text@),
{
    if text.as_str().unicode_len() == 0 {
        return Err(SecurityFormError::InvalidInput(String::from_str(empty_msg), String::from_str(
            field,
        )));
    }
    match parse_scaled(text.as_str(), FRAC_IN, RAW_IN_MAX) {
        None => Err(SecurityFormError::InvalidInput(String::from_str(nan_msg), String::from_str(
            field,
        ))),
        Some(v) => {
            if v <= 0 {
                Err(SecurityFormError::InvalidInput(String::from_str(pos_msg), String::from_str(
                    field,
                )))
            } else {
                Ok(v)
            }
        },
    }
}

/// Whether a quantity field is present, numeric and positive.
pub open spec fn quantity_ok(s: Seq<char>) -> bool {
    s.len() > 0 && parses_positive(s)
}

/// Validates the form, reporting the first broken rule with its message and
/// the field to refocus.
pub fn check_input(f: &FormInput) -> (r: Result<(), SecurityFormError>)
    ensures
        r is Ok <==> spec_check(f) is None,
        r matches Err(SecurityFormError::InvalidInput(m, fl)) ==> spec_check(f) == Some(
            (m@, fl@),
        ),
{
    if f.name.as_str().unicode_len() == 0 {
        return Err(SecurityFormError::InvalidInput(String::from_str("请填写河道名称"),
            String::from_str("name")));
    }
    if f.area.as_str().unicode_len() == 0 {
        return Err(SecurityFormError::InvalidInput(String::from_str("请填写河道所属辖区"),
            String::from_str("area")));
    }
    if !contains_sub(f.area.as_str(), "一般") && !contains_sub(f.area.as_str(), "市")
        && !contains_sub(f.area.as_str(), "县") && !contains_sub(f.area.as_str(), "区")
        && !contains_sub(f.area.as_str(), "乡") {
        return Err(SecurityFormError::InvalidInput(String::from_str(
            "河道所属辖区至少要含有【市】|【县】|【区】|【乡】|【一般】关键字中的一个",
        ), String::from_str("area")));
    }
    if f.start.as_str().unicode_len() == 0 {
        return Err(SecurityFormError::InvalidInput(String::from_str("请填写河道起点"),
            String::from_str("start")));
    }
    if f.end.as_str().unicode_len() == 0 {
        return Err(SecurityFormError::InvalidInput(String::from_str("请填写河道终点"),
            String::from_str("end")));
    }
    match check_quantity(&f.river_width, "请填写河道宽度", "河道宽度必须为数字", "河道宽度必须大于0", "river_width") {
        Err(e) => {
            return Err(e);
        },
        Ok(_) => {
        },
    }
    match f.ratio_choice {
        None => {
            return Err(SecurityFormError::InvalidInput(String::from_str("请选择是否有边坡比"),
                String::from_str("")));
        },
        Some(true) => {
            if f.ratio.as_str().unicode_len() == 0 {
                return Err(SecurityFormError::InvalidInput(String::from_str("请填写边坡比"),
                    String::from_str("ratio")));
            }
            match parse_scaled(f.ratio.as_str(), FRAC_IN, RAW_IN_MAX) {
                None => {
                    return Err(SecurityFormError::InvalidInput(String::from_str("边坡比必须为数字"),
                        String::from_str("ratio")));
                },
                Some(v) => {
                    if v == 0 {
                        return Err(SecurityFormError::InvalidInput(String::from_str("边坡比不能为0"),
                            String::from_str("ratio")));
                    }
                },
            }
        },
        Some(false) => {
        },
    }
    match check_quantity(&f.elevation, "请填写河底高程", "河底高程必须为数字", "河底高程必须大于0", "elevation") {
        Err(e) => {
            return Err(e);
        },
        Ok(_) => {
        },
    }
    match check_quantity(&f.line, "请填写洪水水位", "洪水水位必须为数字", "洪水水位必须大于0", "line") {
        Err(e) => {
            return Err(e);
        },
        Ok(_) => {
        },
    }
    if f.allow_choice.is_none() {
        return Err(SecurityFormError::InvalidInput(String::from_str("请选择是否允许浪爬高"), String::from_str("")));
    }
    match check_quantity(&f.safe, "请填写安全超高", "安全超高必须为数字", "安全超高必须大于0", "safe") {
        Err(e) => {
            return Err(e);
        },
        Ok(_) => {
        },
    }
    match check_quantity(&f.depth, "请填写淤积深度", "淤积深度必须为数字", "淤积深度必须大于0", "depth") {
        Err(e) => {
            return Err(e);
        },
        Ok(_) => {
        },
    }
    Ok(())
}

/// The ratio the calculation uses: the entered ratio when a slope was
/// declared, zero otherwise.
pub open spec fn spec_form_ratio(f: &FormInput) -> int {
    if f.ratio_choice == Some(true) {
        parsed(f.ratio@)->0
    } else {
        0
    }
}

/// Validates the form and, when it passes, derives channel width, threshold
/// and verdict from the entered quantities.
pub fn exec_calc(f: &FormInput) -> (r: Result<CalcResult, SecurityFormError>)
    ensures
        r is Ok <==> spec_check(f) is None,
        r matches Err(SecurityFormError::InvalidInput(m, fl)) ==> spec_check(f) == Some(
            (m@, fl@),
        ),
        r matches Ok(res) ==> {
            let tier = spec_area_tier(f.area@);
            let ratio = spec_form_ratio(f);
            let w = parsed(f.river_width@)->0;
            let l = parsed(f.line@)->0;
            let s = parsed(f.safe@)->0;
            let d = parsed(f.depth@)->0;
            &&& res.channel_width == spec_channel_width(w, l, s, ratio)
            &&& res.threshold == spec_threshold(tier as int, ratio, w, l, s, d)
            &&& res.verdict == spec_verdict(tier as int, ratio, w, l, s, d)
        },
{
    match check_input(f) {
        Err(e) => {
            return Err(e);
        },
        Ok(()) => {
        },
    }
    let tier = area_tier(f.area.as_str());
    let ratio: i64 = if f.ratio_choice == Some(true) {
        match parse_scaled(f.ratio.as_str(), FRAC_IN, RAW_IN_MAX) {
            Some(v) => v,
            None => 0,  // unreachable: validation accepted the field
        }
    } else {
        0
    };
    let river_width = match parse_scaled(f.river_width.as_str(), FRAC_IN, RAW_IN_MAX) {
        Some(v) => v,
        None => 0,  // unreachable: validation accepted the field
    };
    let line = match parse_scaled(f.line.as_str(), FRAC_IN, RAW_IN_MAX) {
        Some(v) => v,
        None => 0,  // unreachable: validation accepted the field
    };
    let safe = match parse_scaled(f.safe.as_str(), FRAC_IN, RAW_IN_MAX) {
        Some(v) => v,
        None => 0,  // unreachable: validation accepted the field
    };
    let depth = match parse_scaled(f.depth.as_str(), FRAC_IN, RAW_IN_MAX) {
        Some(v) => v,
        None => 0,  // unreachable: validation accepted the field
    };
    Ok(threshold_calc(tier, ratio, river_width, line, safe, depth))
}

/// The display text of a flood-protection grade; grades outside 1 to 5 read
/// as the first.
pub open spec fn spec_level_text(level: int) -> Seq<char> {
    if level == 2 {
        "第二级"@
    } else if level == 3 {
        "第三级"@
    } else if level == 4 {
        "第四级"@
    } else if level == 5 {
        "第五级"@
    } else {
        "第一级"@
    }
}

/// Display text of a flood-protection grade.
pub fn level_text(level: u32) -> (r: String)
    ensures
        r@ == spec_level_text(level as int),
{
    if level == 2 {
        String::from_str("第二级")
    } else if level == 3 {
        String::from_str("第三级")
    } else if level == 4 {
        String::from_str("第四级")
    } else if level == 5 {
        String::from_str("第五级")
    } else {
        String::from_str("第一级")
    }
}

/// The freeboard text the form fills in for a fixed policy at a grade:
/// smaller values when wave run-up is allowed, larger ones when it is not.
pub open spec fn spec_default_safe_text(choice: AllowChoice, level: int) -> Seq<char> {
    match choice {
        AllowChoice::Yes => if level == 2 || level == 3 {
            "0.4"@
        } else if level == 4 || level == 5 {
            "0.3"@
        } else {
            "0.5"@
        },
        AllowChoice::No => if level == 2 {
            "0.8"@
        } else if level == 3 {
            "0.7"@
        } else if level == 4 {
            "0.6"@
        } else if level == 5 {
            "0.5"@
        } else {
            "1"@
        },
        AllowChoice::Custom => ""@,
    }
}

/// Freeboard text for a fixed policy at a grade; `Custom` clears the field.
pub fn default_safe_text(choice: AllowChoice, level: u32) -> (r: String)
    ensures
        r@ == spec_default_safe_text(choice, level as int),
{
    match choice {
        AllowChoice::Yes => {
            if level == 2 || level == 3 {
                String::from_str("0.4")
            } else if level == 4 || level == 5 {
                String::from_str("0.3")
            } else {
                String::from_str("0.5")
            }
        },
        AllowChoice::No => {
            if level == 2 {
                String::from_str("0.8")
            } else if level == 3 {
                String::from_str("0.7")
            } else if level == 4 {
                String::from_str("0.6")
            } else if level == 5 {
                String::from_str("0.5")
            } else {
                String::from_str("1")
            }
        },
        AllowChoice::Custom => String::from_str(""),
    }
}

/// The freeboard policy a stored record reads back as: the fixed tables
/// matched against the stored raw freeboard. A grade-one channel without
/// wave run-up stores one unit exactly, which the form's text comparison
/// never recognizes, so it reads back as `Custom`.
pub open spec fn spec_allow_choice_of(level: int, safe: int) -> AllowChoice {
    if (level == 1 && safe == 5000) || ((level == 2 || level == 3) && safe == 4000) || ((level == 4
        || level == 5) && safe == 3000) {
        AllowChoice::Yes
    } else if (level == 2 && safe == 8000) || (level == 3 && safe == 7000) || (level == 4 && safe
        == 6000) || (level == 5 && safe == 5000) {
        AllowChoice::No
    } else {
        AllowChoice::Custom
    }
}

/// The freeboard policy a stored record reads back as.
pub fn allow_choice_of(level: u32, safe: i64) -> (r: AllowChoice)
    ensures
        r == spec_allow_choice_of(level as int, safe as int),
{
    if (level == 1 && safe == 5000) || ((level == 2 || level == 3) && safe == 4000) || ((level == 4
        || level == 5) && safe == 3000) {
        AllowChoice::Yes
    } else if (level == 2 && safe == 8000) || (level == 3 && safe == 7000) || (level == 4 && safe
        == 6000) || (level == 5 && safe == 5000) {
        AllowChoice::No
    } else {
        AllowChoice::Custom
    }
}

} // verus!
