use water_security::calc::Verdict;
use water_security::form::{
    AllowChoice, FormInput, SecurityFormError, allow_choice_of, check_input, default_safe_text,
    exec_calc, level_text,
};

fn filled_form() -> FormInput {
    FormInput {
        level: 1,
        name: "运河".to_string(),
        area: "市区".to_string(),
        start: "东门".to_string(),
        end: "西门".to_string(),
        river_width: "100".to_string(),
        ratio_choice: Some(true),
        ratio: "0.5".to_string(),
        elevation: "3".to_string(),
        line: "2".to_string(),
        allow_choice: Some(AllowChoice::Yes),
        safe: "0.5".to_string(),
        depth: "10".to_string(),
    }
}

fn failure(r: Result<(), SecurityFormError>) -> (String, String) {
    match r {
        Err(SecurityFormError::InvalidInput(m, f)) => (m, f),
        Ok(()) => panic!("the form passed validation"),
    }
}

#[test]
fn empty_name_wins_over_empty_area() {
    let mut f = filled_form();
    f.name = String::new();
    f.area = String::new();
    let (m, fl) = failure(check_input(&f));
    assert_eq!(m, "请填写河道名称");
    assert_eq!(fl, "name");
}

#[test]
fn district_needs_a_region_marker() {
    let mut f = filled_form();
    f.area = "某地".to_string();
    let (m, fl) = failure(check_input(&f));
    assert_eq!(m, "河道所属辖区至少要含有【市】|【县】|【区】|【乡】|【一般】关键字中的一个");
    assert_eq!(fl, "area");
}

#[test]
fn river_width_must_be_numeric_and_positive() {
    let mut f = filled_form();
    f.river_width = "abc".to_string();
    let (m, fl) = failure(check_input(&f));
    assert_eq!(m, "河道宽度必须为数字");
    assert_eq!(fl, "river_width");
    f.river_width = "-3".to_string();
    let (m, _) = failure(check_input(&f));
    assert_eq!(m, "河道宽度必须大于0");
}

#[test]
fn slope_choice_and_ratio_are_checked() {
    let mut f = filled_form();
    f.ratio_choice = None;
    let (m, fl) = failure(check_input(&f));
    assert_eq!(m, "请选择是否有边坡比");
    assert_eq!(fl, "");
    f.ratio_choice = Some(true);
    f.ratio = String::new();
    let (m, fl) = failure(check_input(&f));
    assert_eq!(m, "请填写边坡比");
    assert_eq!(fl, "ratio", "the ratio input is the field to refocus");
    f.ratio = "x".to_string();
    let (m, fl) = failure(check_input(&f));
    assert_eq!(m, "边坡比必须为数字");
    assert_eq!(fl, "ratio");
    f.ratio = "0".to_string();
    let (m, fl) = failure(check_input(&f));
    assert_eq!(m, "边坡比不能为0");
    assert_eq!(fl, "ratio");
    f.ratio_choice = Some(false);
    f.ratio = "0".to_string();
    assert!(check_input(&f).is_ok());
}

#[test]
fn freeboard_choice_is_required() {
    let mut f = filled_form();
    f.allow_choice = None;
    let (m, _) = failure(check_input(&f));
    assert_eq!(m, "请选择是否允许浪爬高");
}

#[test]
fn depth_is_checked_last() {
    let mut f = filled_form();
    f.depth = "0".to_string();
    let (m, fl) = failure(check_input(&f));
    assert_eq!(m, "淤积深度必须大于0");
    assert_eq!(fl, "depth");
}

#[test]
fn full_calc_scenario_with_slope() {
    // ratio 0.5, river width 100, flood level 2, freeboard 0.5, municipal
    // district, shallow silt: no dredging needed, channel width 97.5.
    let f = filled_form();
    let r = exec_calc(&f).ok().expect("the filled form validates");
    assert_eq!(r.channel_width, 9_750_000_000);
    assert_eq!(r.threshold, 942_925);
    assert_eq!(r.verdict.text(), "不需要清淤.");
}

#[test]
fn full_calc_scenario_without_slope() {
    // Township district, no ratio, depth 50: threshold 61, dredging
    // recommended.
    let mut f = filled_form();
    f.area = "一般镇".to_string();
    f.ratio_choice = Some(false);
    f.depth = "50".to_string();
    let r = exec_calc(&f).ok().expect("the filled form validates");
    assert_eq!(r.threshold, 6100);
    assert_eq!(r.verdict, Verdict::Recommended);
    assert_eq!(r.verdict.text(), "建议对该河道进行清淤.");
}

#[test]
fn invalid_form_refuses_calculation() {
    let mut f = filled_form();
    f.line = "0".to_string();
    assert!(exec_calc(&f).is_err());
}

#[test]
fn level_display_text() {
    assert_eq!(level_text(1), "第一级");
    assert_eq!(level_text(3), "第三级");
    assert_eq!(level_text(5), "第五级");
    assert_eq!(level_text(9), "第一级");
}

#[test]
fn freeboard_defaults_by_grade() {
    assert_eq!(default_safe_text(AllowChoice::Yes, 1), "0.5");
    assert_eq!(default_safe_text(AllowChoice::Yes, 3), "0.4");
    assert_eq!(default_safe_text(AllowChoice::Yes, 5), "0.3");
    assert_eq!(default_safe_text(AllowChoice::No, 1), "1");
    assert_eq!(default_safe_text(AllowChoice::No, 2), "0.8");
    assert_eq!(default_safe_text(AllowChoice::No, 5), "0.5");
    assert_eq!(default_safe_text(AllowChoice::Custom, 2), "");
}

#[test]
fn stored_freeboard_reads_back_as_policy() {
    assert_eq!(allow_choice_of(1, 5_000), AllowChoice::Yes);
    assert_eq!(allow_choice_of(3, 4_000), AllowChoice::Yes);
    assert_eq!(allow_choice_of(2, 8_000), AllowChoice::No);
    assert_eq!(allow_choice_of(5, 5_000), AllowChoice::No);
    // A grade-one channel without wave run-up stores one unit exactly,
    // which the form's text comparison never recognizes.
    assert_eq!(allow_choice_of(1, 10_000), AllowChoice::Custom);
    assert_eq!(allow_choice_of(4, 1_234), AllowChoice::Custom);
}
