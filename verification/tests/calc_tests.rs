use water_security::calc::{CalcResult, Verdict, area_tier, threshold_calc};

fn raw(units: i64, ten_thousandths: i64) -> i64 {
    units * 10_000 + ten_thousandths
}

#[test]
fn tier_of_district_text() {
    assert_eq!(area_tier("市区"), 1);
    assert_eq!(area_tier("某市"), 1);
    assert_eq!(area_tier("县城"), 2);
    assert_eq!(area_tier("城区"), 2);
    assert_eq!(area_tier("一般镇"), 3);
    assert_eq!(area_tier("乡里"), 3);
    assert_eq!(area_tier("elsewhere"), 3);
}

#[test]
fn verdict_messages() {
    assert_eq!(Verdict::NotNeeded.text(), "不需要清淤.");
    assert_eq!(Verdict::Recommended.text(), "建议对该河道进行清淤.");
    assert_eq!(Verdict::Required.text(), "需要对该河道进行清淤.");
    assert_eq!(Verdict::Invalid.text(), "计算错误，请检查输入数据.");
}

#[test]
fn tier3_fixed_thresholds() {
    // Depth 47 exactly: threshold 47, no dredging.
    let r = threshold_calc(3, 0, raw(100, 0), raw(2, 0), raw(1, 0), raw(47, 0));
    assert_eq!(r.threshold, 4700);
    assert_eq!(r.verdict, Verdict::NotNeeded);
    // Just past 47: threshold 61, recommendation.
    let r = threshold_calc(3, 0, raw(100, 0), raw(2, 0), raw(1, 0), raw(47, 1));
    assert_eq!(r.threshold, 6100);
    assert_eq!(r.verdict, Verdict::Recommended);
    // Depth 61 exactly: still a recommendation.
    let r = threshold_calc(3, 0, raw(100, 0), raw(2, 0), raw(1, 0), raw(61, 0));
    assert_eq!(r.threshold, 6100);
    assert_eq!(r.verdict, Verdict::Recommended);
    // Past 61: dredging required.
    let r = threshold_calc(3, 0, raw(100, 0), raw(2, 0), raw(1, 0), raw(61, 1));
    assert_eq!(r.threshold, 6100);
    assert_eq!(r.verdict, Verdict::Required);
    // Without a ratio the channel width is the river width.
    assert_eq!(r.channel_width, raw(100, 0) * 10_000);
}

#[test]
fn tier1_fixed_threshold_flips_at_19() {
    let r = threshold_calc(1, 0, raw(50, 0), raw(2, 0), raw(1, 0), raw(19, 0));
    assert_eq!(r.threshold, 1900);
    assert_eq!(r.verdict, Verdict::NotNeeded);
    let r = threshold_calc(1, 0, raw(50, 0), raw(2, 0), raw(1, 0), raw(19, 1));
    assert_eq!(r.threshold, 1900);
    assert_eq!(r.verdict, Verdict::Required);
}

#[test]
fn tier2_displayed_and_compared_constants_disagree() {
    // The reported threshold is 19, yet the verdict is judged against 33.
    let r = threshold_calc(2, 0, raw(50, 0), raw(2, 0), raw(1, 0), raw(33, 0));
    assert_eq!(r.threshold, 1900);
    assert_eq!(r.verdict, Verdict::NotNeeded);
    let r = threshold_calc(2, 0, raw(50, 0), raw(2, 0), raw(1, 0), raw(33, 1));
    assert_eq!(r.threshold, 1900);
    assert_eq!(r.verdict, Verdict::Required);
}

#[test]
fn slope_formula_scenario() {
    // ratio 0.5, river width 100, flood level 2, freeboard 0.5:
    // channel width 100 - 2*2.5*0.5 = 97.5 and threshold 9429.25.
    let r: CalcResult = threshold_calc(1, 5_000, raw(100, 0), raw(2, 0), 5_000, raw(10, 0));
    assert_eq!(r.channel_width, 9_750_000_000);
    assert_eq!(r.threshold, 942_925);
    assert_eq!(r.verdict, Verdict::NotNeeded);
}

#[test]
fn slope_branch_unknown_tier_is_refused() {
    let r = threshold_calc(9, 5_000, raw(100, 0), raw(2, 0), 5_000, raw(10, 0));
    assert_eq!(r.threshold, 0);
    assert_eq!(r.verdict, Verdict::Invalid);
}

#[test]
fn slope_threshold_rounds_to_hundredths() {
    // ratio 3, river width 90, flood level 1, freeboard 1:
    // channel width 90 - 2*2*3 = 78; slope 1/3;
    // threshold = (0.04/3)*(4/3 + 156) + 6084/36 - 13 = 158.0977...
    let r = threshold_calc(3, raw(3, 0), raw(90, 0), raw(1, 0), raw(1, 0), raw(100, 0));
    assert_eq!(r.channel_width, 78 * 100_000_000);
    assert_eq!(r.threshold, 15_810);
    assert_eq!(r.verdict, Verdict::NotNeeded);
}
