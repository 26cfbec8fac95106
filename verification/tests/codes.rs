use akriti_measure::harfbuzz::{HBDirection, HBMathConstant, HBMathKern};

#[test]
fn direction_codes_are_the_engines() {
    assert_eq!(HBDirection::LTR.to_hb_dir(), harfbuzz_sys::HB_DIRECTION_LTR);
    assert_eq!(HBDirection::RTL.to_hb_dir(), harfbuzz_sys::HB_DIRECTION_RTL);
    assert_eq!(HBDirection::TTB.to_hb_dir(), harfbuzz_sys::HB_DIRECTION_TTB);
    assert_eq!(HBDirection::BTT.to_hb_dir(), harfbuzz_sys::HB_DIRECTION_BTT);
}

#[test]
fn direction_codes_have_their_documented_values() {
    assert_eq!(HBDirection::LTR.to_hb_dir(), 4);
    assert_eq!(HBDirection::RTL.to_hb_dir(), 5);
    assert_eq!(HBDirection::TTB.to_hb_dir(), 6);
    assert_eq!(HBDirection::BTT.to_hb_dir(), 7);
}

#[test]
fn no_direction_is_the_invalid_one() {
    for d in [HBDirection::LTR, HBDirection::RTL, HBDirection::TTB, HBDirection::BTT] {
        assert_ne!(d.to_hb_dir(), harfbuzz_sys::HB_DIRECTION_INVALID);
    }
}

#[test]
fn kern_codes_are_the_engines() {
    assert_eq!(HBMathKern::TopRight.to_hb_kern(), harfbuzz_sys::HB_OT_MATH_KERN_TOP_RIGHT);
    assert_eq!(HBMathKern::TopLeft.to_hb_kern(), harfbuzz_sys::HB_OT_MATH_KERN_TOP_LEFT);
    assert_eq!(HBMathKern::BottomRight.to_hb_kern(), harfbuzz_sys::HB_OT_MATH_KERN_BOTTOM_RIGHT);
    assert_eq!(HBMathKern::BottomLeft.to_hb_kern(), harfbuzz_sys::HB_OT_MATH_KERN_BOTTOM_LEFT);
}

#[test]
fn kern_codes_have_their_documented_values() {
    assert_eq!(HBMathKern::TopRight.to_hb_kern(), 0);
    assert_eq!(HBMathKern::TopLeft.to_hb_kern(), 1);
    assert_eq!(HBMathKern::BottomRight.to_hb_kern(), 2);
    assert_eq!(HBMathKern::BottomLeft.to_hb_kern(), 3);
}

fn all_constants() -> Vec<HBMathConstant> {
    vec![
        HBMathConstant::ScriptPercentScaleDown,
        HBMathConstant::ScriptScriptPercentScaleDown,
        HBMathConstant::DelimitedSubFormulaMinHeight,
        HBMathConstant::DisplayOperatorMinHeight,
        HBMathConstant::MathLeading,
        HBMathConstant::AxisHeight,
        HBMathConstant::AccentBaseHeight,
        HBMathConstant::FlattenedAccentBaseHeight,
        HBMathConstant::SubscriptShiftDown,
        HBMathConstant::SubscriptTopMax,
        HBMathConstant::SubscriptBaselineDropMin,
        HBMathConstant::SuperscriptShiftUp,
        HBMathConstant::SuperscriptShiftUpCramped,
        HBMathConstant::SuperscriptBottomMin,
        HBMathConstant::SuperscriptBaselineDropMax,
        HBMathConstant::SubSuperscriptGapMin,
        HBMathConstant::SuperscriptBottomMaxWithSubscript,
        HBMathConstant::SpaceAfterScript,
        HBMathConstant::UpperLimitGapMin,
        HBMathConstant::UpperLimitBaselineRiseMin,
        HBMathConstant::LowerLimitGapMin,
        HBMathConstant::LowerLimitBaselineDropMin,
        HBMathConstant::StackTopShiftUp,
        HBMathConstant::StackTopDisplayStyleShiftUp,
        HBMathConstant::StackBottomShiftDown,
        HBMathConstant::StackBottomDisplayStyleShiftDown,
        HBMathConstant::StackGapMin,
        HBMathConstant::StackDisplayStyleGapMin,
        HBMathConstant::StretchStackTopShiftUp,
        HBMathConstant::StretchStackBottomShiftDown,
        HBMathConstant::StretchStackGapAboveMin,
        HBMathConstant::StretchStackGapBelowMin,
        HBMathConstant::FractionNumeratorShiftUp,
        HBMathConstant::FractionNumeratorDisplayStyleShiftUp,
        HBMathConstant::FractionDenominatorShiftDown,
        HBMathConstant::FractionDenominatorDisplayStyleShiftDown,
        HBMathConstant::FractionNumeratorGapMin,
        HBMathConstant::FractionNumDisplayStyleGapMin,
        HBMathConstant::FractionRuleThickness,
        HBMathConstant::FractionDenominatorGapMin,
        HBMathConstant::FractionDenominatorDisplayStyleGapMin,
        HBMathConstant::SkewedFractionHorizontalGap,
        HBMathConstant::SkewedFractionVerticalGap,
        HBMathConstant::OverbarVerticalGap,
        HBMathConstant::OverbarRuleThickness,
        HBMathConstant::OverbarExtraAscender,
        HBMathConstant::UnderbarVerticalGap,
        HBMathConstant::UnderbarRuleThickness,
        HBMathConstant::UnderbarExtraDescender,
        HBMathConstant::RadicalVerticalGap,
        HBMathConstant::RadicalDisplayStyleVerticalGap,
        HBMathConstant::RadicalRuleThickness,
        HBMathConstant::RadicalExtraAscender,
        HBMathConstant::RadicalKernBeforeDegree,
        HBMathConstant::RadicalKernAfterDegree,
        HBMathConstant::RadicalDegreeBottomRaisePercent,
    ]
}

#[test]
fn every_constant_has_its_place_in_the_table() {
    let all = all_constants();
    assert_eq!(all.len(), 56);
    for (place, constant) in all.iter().enumerate() {
        assert_eq!(constant.to_hb_constant() as usize, place);
    }
}

#[test]
fn constant_codes_are_pairwise_distinct() {
    let all = all_constants();
    for a in &all {
        for b in &all {
            assert_eq!(a == b, a.to_hb_constant() == b.to_hb_constant());
        }
    }
}

#[test]
fn constant_codes_are_the_engines() {
    assert_eq!(
        HBMathConstant::ScriptPercentScaleDown.to_hb_constant(),
        harfbuzz_sys::HB_OT_MATH_CONSTANT_SCRIPT_PERCENT_SCALE_DOWN
    );
    assert_eq!(
        HBMathConstant::ScriptScriptPercentScaleDown.to_hb_constant(),
        harfbuzz_sys::HB_OT_MATH_CONSTANT_SCRIPT_SCRIPT_PERCENT_SCALE_DOWN
    );
    assert_eq!(
        HBMathConstant::DelimitedSubFormulaMinHeight.to_hb_constant(),
        harfbuzz_sys::HB_OT_MATH_CONSTANT_DELIMITED_SUB_FORMULA_MIN_HEIGHT
    );
    assert_eq!(
        HBMathConstant::DisplayOperatorMinHeight.to_hb_constant(),
        harfbuzz_sys::HB_OT_MATH_CONSTANT_DISPLAY_OPERATOR_MIN_HEIGHT
    );
    assert_eq!(
        HBMathConstant::MathLeading.to_hb_constant(),
        harfbuzz_sys::HB_OT_MATH_CONSTANT_MATH_LEADING
    );
    assert_eq!(
        HBMathConstant::AxisHeight.to_hb_constant(),
        harfbuzz_sys::HB_OT_MATH_CONSTANT_AXIS_HEIGHT
    );
    assert_eq!(
        HBMathConstant::AccentBaseHeight.to_hb_constant(),
        harfbuzz_sys::HB_OT_MATH_CONSTANT_ACCENT_BASE_HEIGHT
    );
    assert_eq!(
        HBMathConstant::FlattenedAccentBaseHeight.to_hb_constant(),
        harfbuzz_sys::HB_OT_MATH_CONSTANT_FLATTENED_ACCENT_BASE_HEIGHT
    );
    assert_eq!(
        HBMathConstant::SubscriptShiftDown.to_hb_constant(),
        harfbuzz_sys::HB_OT_MATH_CONSTANT_SUBSCRIPT_SHIFT_DOWN
    );
    assert_eq!(
        HBMathConstant::SubscriptTopMax.to_hb_constant(),
        harfbuzz_sys::HB_OT_MATH_CONSTANT_SUBSCRIPT_TOP_MAX
    );
    assert_eq!(
        HBMathConstant::SubscriptBaselineDropMin.to_hb_constant(),
        harfbuzz_sys::HB_OT_MATH_CONSTANT_SUBSCRIPT_BASELINE_DROP_MIN
    );
    assert_eq!(
        HBMathConstant::SuperscriptShiftUp.to_hb_constant(),
        harfbuzz_sys::HB_OT_MATH_CONSTANT_SUPERSCRIPT_SHIFT_UP
    );
    assert_eq!(
        HBMathConstant::SuperscriptShiftUpCramped.to_hb_constant(),
        harfbuzz_sys::HB_OT_MATH_CONSTANT_SUPERSCRIPT_SHIFT_UP_CRAMPED
    );
    assert_eq!(
        HBMathConstant::SuperscriptBottomMin.to_hb_constant(),
        harfbuzz_sys::HB_OT_MATH_CONSTANT_SUPERSCRIPT_BOTTOM_MIN
    );
    assert_eq!(
        HBMathConstant::SuperscriptBaselineDropMax.to_hb_constant(),
        harfbuzz_sys::HB_OT_MATH_CONSTANT_SUPERSCRIPT_BASELINE_DROP_MAX
    );
    assert_eq!(
        HBMathConstant::SubSuperscriptGapMin.to_hb_constant(),
        harfbuzz_sys::HB_OT_MATH_CONSTANT_SUB_SUPERSCRIPT_GAP_MIN
    );
    assert_eq!(
        HBMathConstant::SuperscriptBottomMaxWithSubscript.to_hb_constant(),
        harfbuzz_sys::HB_OT_MATH_CONSTANT_SUPERSCRIPT_BOTTOM_MAX_WITH_SUBSCRIPT
    );
    assert_eq!(
        HBMathConstant::SpaceAfterScript.to_hb_constant(),
        harfbuzz_sys::HB_OT_MATH_CONSTANT_SPACE_AFTER_SCRIPT
    );
    assert_eq!(
        HBMathConstant::UpperLimitGapMin.to_hb_constant(),
        harfbuzz_sys::HB_OT_MATH_CONSTANT_UPPER_LIMIT_GAP_MIN
    );
    assert_eq!(
        HBMathConstant::UpperLimitBaselineRiseMin.to_hb_constant(),
        harfbuzz_sys::HB_OT_MATH_CONSTANT_UPPER_LIMIT_BASELINE_RISE_MIN
    );
    assert_eq!(
        HBMathConstant::LowerLimitGapMin.to_hb_constant(),
        harfbuzz_sys::HB_OT_MATH_CONSTANT_LOWER_LIMIT_GAP_MIN
    );
    assert_eq!(
        HBMathConstant::LowerLimitBaselineDropMin.to_hb_constant(),
        harfbuzz_sys::HB_OT_MATH_CONSTANT_LOWER_LIMIT_BASELINE_DROP_MIN
    );
    assert_eq!(
        HBMathConstant::StackTopShiftUp.to_hb_constant(),
        harfbuzz_sys::HB_OT_MATH_CONSTANT_STACK_TOP_SHIFT_UP
    );
    assert_eq!(
        HBMathConstant::StackTopDisplayStyleShiftUp.to_hb_constant(),
        harfbuzz_sys::HB_OT_MATH_CONSTANT_STACK_TOP_DISPLAY_STYLE_SHIFT_UP
    );
    assert_eq!(
        HBMathConstant::StackBottomShiftDown.to_hb_constant(),
        harfbuzz_sys::HB_OT_MATH_CONSTANT_STACK_BOTTOM_SHIFT_DOWN
    );
    assert_eq!(
        HBMathConstant::StackBottomDisplayStyleShiftDown.to_hb_constant(),
        harfbuzz_sys::HB_OT_MATH_CONSTANT_STACK_BOTTOM_DISPLAY_STYLE_SHIFT_DOWN
    );
    assert_eq!(
        HBMathConstant::StackGapMin.to_hb_constant(),
        harfbuzz_sys::HB_OT_MATH_CONSTANT_STACK_GAP_MIN
    );
    assert_eq!(
        HBMathConstant::StackDisplayStyleGapMin.to_hb_constant(),
        harfbuzz_sys::HB_OT_MATH_CONSTANT_STACK_DISPLAY_STYLE_GAP_MIN
    );
    assert_eq!(
        HBMathConstant::StretchStackTopShiftUp.to_hb_constant(),
        harfbuzz_sys::HB_OT_MATH_CONSTANT_STRETCH_STACK_TOP_SHIFT_UP
    );
    assert_eq!(
        HBMathConstant::StretchStackBottomShiftDown.to_hb_constant(),
        harfbuzz_sys::HB_OT_MATH_CONSTANT_STRETCH_STACK_BOTTOM_SHIFT_DOWN
    );
    assert_eq!(
        HBMathConstant::StretchStackGapAboveMin.to_hb_constant(),
        harfbuzz_sys::HB_OT_MATH_CONSTANT_STRETCH_STACK_GAP_ABOVE_MIN
    );
    assert_eq!(
        HBMathConstant::StretchStackGapBelowMin.to_hb_constant(),
        harfbuzz_sys::HB_OT_MATH_CONSTANT_STRETCH_STACK_GAP_BELOW_MIN
    );
    assert_eq!(
        HBMathConstant::FractionNumeratorShiftUp.to_hb_constant(),
        harfbuzz_sys::HB_OT_MATH_CONSTANT_FRACTION_NUMERATOR_SHIFT_UP
    );
    assert_eq!(
        HBMathConstant::FractionNumeratorDisplayStyleShiftUp.to_hb_constant(),
        harfbuzz_sys::HB_OT_MATH_CONSTANT_FRACTION_NUMERATOR_DISPLAY_STYLE_SHIFT_UP
    );
    assert_eq!(
        HBMathConstant::FractionDenominatorShiftDown.to_hb_constant(),
        harfbuzz_sys::HB_OT_MATH_CONSTANT_FRACTION_DENOMINATOR_SHIFT_DOWN
    );
    assert_eq!(
        HBMathConstant::FractionDenominatorDisplayStyleShiftDown.to_hb_constant(),
        harfbuzz_sys::HB_OT_MATH_CONSTANT_FRACTION_DENOMINATOR_DISPLAY_STYLE_SHIFT_DOWN
    );
    assert_eq!(
        HBMathConstant::FractionNumeratorGapMin.to_hb_constant(),
        harfbuzz_sys::HB_OT_MATH_CONSTANT_FRACTION_NUMERATOR_GAP_MIN
    );
    assert_eq!(
        HBMathConstant::FractionNumDisplayStyleGapMin.to_hb_constant(),
        harfbuzz_sys::HB_OT_MATH_CONSTANT_FRACTION_NUM_DISPLAY_STYLE_GAP_MIN
    );
    assert_eq!(
        HBMathConstant::FractionRuleThickness.to_hb_constant(),
        harfbuzz_sys::HB_OT_MATH_CONSTANT_FRACTION_RULE_THICKNESS
    );
    assert_eq!(
        HBMathConstant::FractionDenominatorGapMin.to_hb_constant(),
        harfbuzz_sys::HB_OT_MATH_CONSTANT_FRACTION_DENOMINATOR_GAP_MIN
    );
    assert_eq!(
        HBMathConstant::FractionDenominatorDisplayStyleGapMin.to_hb_constant(),
        harfbuzz_sys::HB_OT_MATH_CONSTANT_FRACTION_DENOM_DISPLAY_STYLE_GAP_MIN
    );
    assert_eq!(
        HBMathConstant::SkewedFractionHorizontalGap.to_hb_constant(),
        harfbuzz_sys::HB_OT_MATH_CONSTANT_SKEWED_FRACTION_HORIZONTAL_GAP
    );
    assert_eq!(
        HBMathConstant::SkewedFractionVerticalGap.to_hb_constant(),
        harfbuzz_sys::HB_OT_MATH_CONSTANT_SKEWED_FRACTION_VERTICAL_GAP
    );
    assert_eq!(
        HBMathConstant::OverbarVerticalGap.to_hb_constant(),
        harfbuzz_sys::HB_OT_MATH_CONSTANT_OVERBAR_VERTICAL_GAP
    );
    assert_eq!(
        HBMathConstant::OverbarRuleThickness.to_hb_constant(),
        harfbuzz_sys::HB_OT_MATH_CONSTANT_OVERBAR_RULE_THICKNESS
    );
    assert_eq!(
        HBMathConstant::OverbarExtraAscender.to_hb_constant(),
        harfbuzz_sys::HB_OT_MATH_CONSTANT_OVERBAR_EXTRA_ASCENDER
    );
    assert_eq!(
        HBMathConstant::UnderbarVerticalGap.to_hb_constant(),
        harfbuzz_sys::HB_OT_MATH_CONSTANT_UNDERBAR_VERTICAL_GAP
    );
    assert_eq!(
        HBMathConstant::UnderbarRuleThickness.to_hb_constant(),
        harfbuzz_sys::HB_OT_MATH_CONSTANT_UNDERBAR_RULE_THICKNESS
    );
    assert_eq!(
        HBMathConstant::UnderbarExtraDescender.to_hb_constant(),
        harfbuzz_sys::HB_OT_MATH_CONSTANT_UNDERBAR_EXTRA_DESCENDER
    );
    assert_eq!(
        HBMathConstant::RadicalVerticalGap.to_hb_constant(),
        harfbuzz_sys::HB_OT_MATH_CONSTANT_RADICAL_VERTICAL_GAP
    );
    assert_eq!(
        HBMathConstant::RadicalDisplayStyleVerticalGap.to_hb_constant(),
        harfbuzz_sys::HB_OT_MATH_CONSTANT_RADICAL_DISPLAY_STYLE_VERTICAL_GAP
    );
    assert_eq!(
        HBMathConstant::RadicalRuleThickness.to_hb_constant(),
        harfbuzz_sys::HB_OT_MATH_CONSTANT_RADICAL_RULE_THICKNESS
    );
    assert_eq!(
        HBMathConstant::RadicalExtraAscender.to_hb_constant(),
        harfbuzz_sys::HB_OT_MATH_CONSTANT_RADICAL_EXTRA_ASCENDER
    );
    assert_eq!(
        HBMathConstant::RadicalKernBeforeDegree.to_hb_constant(),
        harfbuzz_sys::HB_OT_MATH_CONSTANT_RADICAL_KERN_BEFORE_DEGREE
    );
    assert_eq!(
        HBMathConstant::RadicalKernAfterDegree.to_hb_constant(),
        harfbuzz_sys::HB_OT_MATH_CONSTANT_RADICAL_KERN_AFTER_DEGREE
    );
    assert_eq!(
        HBMathConstant::RadicalDegreeBottomRaisePercent.to_hb_constant(),
        harfbuzz_sys::HB_OT_MATH_CONSTANT_RADICAL_DEGREE_BOTTOM_RAISE_PERCENT
    );
}
