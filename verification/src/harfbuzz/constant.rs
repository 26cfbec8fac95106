//! Identifiers of the constants of the MATH table and the codes by which the
//! shaping engine knows them.

use vstd::prelude::*;

verus! {

/// A named constant of the MATH constants table. Every value is a signed
/// measurement in design units, except the three percentages.
#[derive(Debug, Clone, Copy, PartialEq, Eq, Structural)]
pub enum HBMathConstant {
    ScriptPercentScaleDown,
    ScriptScriptPercentScaleDown,
    DelimitedSubFormulaMinHeight,
    DisplayOperatorMinHeight,
    MathLeading,
    AxisHeight,
    AccentBaseHeight,
    FlattenedAccentBaseHeight,
    SubscriptShiftDown,
    SubscriptTopMax,
    SubscriptBaselineDropMin,
    SuperscriptShiftUp,
    SuperscriptShiftUpCramped,
    SuperscriptBottomMin,
    SuperscriptBaselineDropMax,
    SubSuperscriptGapMin,
    SuperscriptBottomMaxWithSubscript,
    SpaceAfterScript,
    UpperLimitGapMin,
    UpperLimitBaselineRiseMin,
    LowerLimitGapMin,
    LowerLimitBaselineDropMin,
    StackTopShiftUp,
    StackTopDisplayStyleShiftUp,
    StackBottomShiftDown,
    StackBottomDisplayStyleShiftDown,
    StackGapMin,
    StackDisplayStyleGapMin,
    StretchStackTopShiftUp,
    StretchStackBottomShiftDown,
    StretchStackGapAboveMin,
    StretchStackGapBelowMin,
    FractionNumeratorShiftUp,
    FractionNumeratorDisplayStyleShiftUp,
    FractionDenominatorShiftDown,
    FractionDenominatorDisplayStyleShiftDown,
    FractionNumeratorGapMin,
    FractionNumDisplayStyleGapMin,
    FractionRuleThickness,
    FractionDenominatorGapMin,
    FractionDenominatorDisplayStyleGapMin,
    SkewedFractionHorizontalGap,
    SkewedFractionVerticalGap,
    OverbarVerticalGap,
    OverbarRuleThickness,
    OverbarExtraAscender,
    UnderbarVerticalGap,
    UnderbarRuleThickness,
    UnderbarExtraDescender,
    RadicalVerticalGap,
    RadicalDisplayStyleVerticalGap,
    RadicalRuleThickness,
    RadicalExtraAscender,
    RadicalKernBeforeDegree,
    RadicalKernAfterDegree,
    RadicalDegreeBottomRaisePercent,
}

/// Number of constants that the MATH constants table names.
pub const MATH_CONSTANT_COUNT: u32 = 56;

impl HBMathConstant {
    /// The engine's code of this constant: its place in the MATH constants table.
    pub open spec fn code(self) -> u32 {
        match self {
            HBMathConstant::ScriptPercentScaleDown => 0,
            HBMathConstant::ScriptScriptPercentScaleDown => 1,
            HBMathConstant::DelimitedSubFormulaMinHeight => 2,
            HBMathConstant::DisplayOperatorMinHeight => 3,
            HBMathConstant::MathLeading => 4,
            HBMathConstant::AxisHeight => 5,
            HBMathConstant::AccentBaseHeight => 6,
            HBMathConstant::FlattenedAccentBaseHeight => 7,
            HBMathConstant::SubscriptShiftDown => 8,
            HBMathConstant::SubscriptTopMax => 9,
            HBMathConstant::SubscriptBaselineDropMin => 10,
            HBMathConstant::SuperscriptShiftUp => 11,
            HBMathConstant::SuperscriptShiftUpCramped => 12,
            HBMathConstant::SuperscriptBottomMin => 13,
            HBMathConstant::SuperscriptBaselineDropMax => 14,
            HBMathConstant::SubSuperscriptGapMin => 15,
            HBMathConstant::SuperscriptBottomMaxWithSubscript => 16,
            HBMathConstant::SpaceAfterScript => 17,
            HBMathConstant::UpperLimitGapMin => 18,
            HBMathConstant::UpperLimitBaselineRiseMin => 19,
            HBMathConstant::LowerLimitGapMin => 20,
            HBMathConstant::LowerLimitBaselineDropMin => 21,
            HBMathConstant::StackTopShiftUp => 22,
            HBMathConstant::StackTopDisplayStyleShiftUp => 23,
            HBMathConstant::StackBottomShiftDown => 24,
            HBMathConstant::StackBottomDisplayStyleShiftDown => 25,
            HBMathConstant::StackGapMin => 26,
            HBMathConstant::StackDisplayStyleGapMin => 27,
            HBMathConstant::StretchStackTopShiftUp => 28,
            HBMathConstant::StretchStackBottomShiftDown => 29,
            HBMathConstant::StretchStackGapAboveMin => 30,
            HBMathConstant::StretchStackGapBelowMin => 31,
            HBMathConstant::FractionNumeratorShiftUp => 32,
            HBMathConstant::FractionNumeratorDisplayStyleShiftUp => 33,
            HBMathConstant::FractionDenominatorShiftDown => 34,
            HBMathConstant::FractionDenominatorDisplayStyleShiftDown => 35,
            HBMathConstant::FractionNumeratorGapMin => 36,
            HBMathConstant::FractionNumDisplayStyleGapMin => 37,
            HBMathConstant::FractionRuleThickness => 38,
            HBMathConstant::FractionDenominatorGapMin => 39,
            HBMathConstant::FractionDenominatorDisplayStyleGapMin => 40,
            HBMathConstant::SkewedFractionHorizontalGap => 41,
            HBMathConstant::SkewedFractionVerticalGap => 42,
            HBMathConstant::OverbarVerticalGap => 43,
            HBMathConstant::OverbarRuleThickness => 44,
            HBMathConstant::OverbarExtraAscender => 45,
            HBMathConstant::UnderbarVerticalGap => 46,
            HBMathConstant::UnderbarRuleThickness => 47,
            HBMathConstant::UnderbarExtraDescender => 48,
            HBMathConstant::RadicalVerticalGap => 49,
            HBMathConstant::RadicalDisplayStyleVerticalGap => 50,
            HBMathConstant::RadicalRuleThickness => 51,
            HBMathConstant::RadicalExtraAscender => 52,
            HBMathConstant::RadicalKernBeforeDegree => 53,
            HBMathConstant::RadicalKernAfterDegree => 54,
            HBMathConstant::RadicalDegreeBottomRaisePercent => 55,
        }
    }

    /// The code under which the engine's constant query knows this constant.
    pub fn to_hb_constant(&self) -> (r: u32)
        ensures
            r == self.code(),
            r < MATH_CONSTANT_COUNT,
    {
        match self {
            HBMathConstant::ScriptPercentScaleDown => hb_script_percent_scale_down(),
            HBMathConstant::ScriptScriptPercentScaleDown => hb_script_script_percent_scale_down(),
            HBMathConstant::DelimitedSubFormulaMinHeight => hb_delimited_sub_formula_min_height(),
            HBMathConstant::DisplayOperatorMinHeight => hb_display_operator_min_height(),
            HBMathConstant::MathLeading => hb_math_leading(),
            HBMathConstant::AxisHeight => hb_axis_height(),
            HBMathConstant::AccentBaseHeight => hb_accent_base_height(),
            HBMathConstant::FlattenedAccentBaseHeight => hb_flattened_accent_base_height(),
            HBMathConstant::SubscriptShiftDown => hb_subscript_shift_down(),
            HBMathConstant::SubscriptTopMax => hb_subscript_top_max(),
            HBMathConstant::SubscriptBaselineDropMin => hb_subscript_baseline_drop_min(),
            HBMathConstant::SuperscriptShiftUp => hb_superscript_shift_up(),
            HBMathConstant::SuperscriptShiftUpCramped => hb_superscript_shift_up_cramped(),
            HBMathConstant::SuperscriptBottomMin => hb_superscript_bottom_min(),
            HBMathConstant::SuperscriptBaselineDropMax => hb_superscript_baseline_drop_max(),
            HBMathConstant::SubSuperscriptGapMin => hb_sub_superscript_gap_min(),
            HBMathConstant::SuperscriptBottomMaxWithSubscript => hb_superscript_bottom_max_with_subscript(),
            HBMathConstant::SpaceAfterScript => hb_space_after_script(),
            HBMathConstant::UpperLimitGapMin => hb_upper_limit_gap_min(),
            HBMathConstant::UpperLimitBaselineRiseMin => hb_upper_limit_baseline_rise_min(),
            HBMathConstant::LowerLimitGapMin => hb_lower_limit_gap_min(),
            HBMathConstant::LowerLimitBaselineDropMin => hb_lower_limit_baseline_drop_min(),
            HBMathConstant::StackTopShiftUp => hb_stack_top_shift_up(),
            HBMathConstant::StackTopDisplayStyleShiftUp => hb_stack_top_display_style_shift_up(),
            HBMathConstant::StackBottomShiftDown => hb_stack_bottom_shift_down(),
            HBMathConstant::StackBottomDisplayStyleShiftDown => hb_stack_bottom_display_style_shift_down(),
            HBMathConstant::StackGapMin => hb_stack_gap_min(),
            HBMathConstant::StackDisplayStyleGapMin => hb_stack_display_style_gap_min(),
            HBMathConstant::StretchStackTopShiftUp => hb_stretch_stack_top_shift_up(),
            HBMathConstant::StretchStackBottomShiftDown => hb_stretch_stack_bottom_shift_down(),
            HBMathConstant::StretchStackGapAboveMin => hb_stretch_stack_gap_above_min(),
            HBMathConstant::StretchStackGapBelowMin => hb_stretch_stack_gap_below_min(),
            HBMathConstant::FractionNumeratorShiftUp => hb_fraction_numerator_shift_up(),
            HBMathConstant::FractionNumeratorDisplayStyleShiftUp => hb_fraction_numerator_display_style_shift_up(),
            HBMathConstant::FractionDenominatorShiftDown => hb_fraction_denominator_shift_down(),
            HBMathConstant::FractionDenominatorDisplayStyleShiftDown => hb_fraction_denominator_display_style_shift_down(),
            HBMathConstant::FractionNumeratorGapMin => hb_fraction_numerator_gap_min(),
            HBMathConstant::FractionNumDisplayStyleGapMin => hb_fraction_num_display_style_gap_min(),
            HBMathConstant::FractionRuleThickness => hb_fraction_rule_thickness(),
            HBMathConstant::FractionDenominatorGapMin => hb_fraction_denominator_gap_min(),
            HBMathConstant::FractionDenominatorDisplayStyleGapMin => hb_fraction_denominator_display_style_gap_min(),
            HBMathConstant::SkewedFractionHorizontalGap => hb_skewed_fraction_horizontal_gap(),
            HBMathConstant::SkewedFractionVerticalGap => hb_skewed_fraction_vertical_gap(),
            HBMathConstant::OverbarVerticalGap => hb_overbar_vertical_gap(),
            HBMathConstant::OverbarRuleThickness => hb_overbar_rule_thickness(),
            HBMathConstant::OverbarExtraAscender => hb_overbar_extra_ascender(),
            HBMathConstant::UnderbarVerticalGap => hb_underbar_vertical_gap(),
            HBMathConstant::UnderbarRuleThickness => hb_underbar_rule_thickness(),
            HBMathConstant::UnderbarExtraDescender => hb_underbar_extra_descender(),
            HBMathConstant::RadicalVerticalGap => hb_radical_vertical_gap(),
            HBMathConstant::RadicalDisplayStyleVerticalGap => hb_radical_display_style_vertical_gap(),
            HBMathConstant::RadicalRuleThickness => hb_radical_rule_thickness(),
            HBMathConstant::RadicalExtraAscender => hb_radical_extra_ascender(),
            HBMathConstant::RadicalKernBeforeDegree => hb_radical_kern_before_degree(),
            HBMathConstant::RadicalKernAfterDegree => hb_radical_kern_after_degree(),
            HBMathConstant::RadicalDegreeBottomRaisePercent => hb_radical_degree_bottom_raise_percent(),
        }
    }

    /// Distinct constants have distinct codes, so no query can be answered with
    /// another constant's value.
    pub proof fn lemma_codes_are_distinct(a: HBMathConstant, b: HBMathConstant)
        requires
            a != b,
        ensures
            a.code() != b.code(),
    {
    }

    /// Every code lies below the number of constants.
    pub proof fn lemma_code_is_in_table(c: HBMathConstant)
        ensures
            c.code() < MATH_CONSTANT_COUNT,
    {
    }
}

/// `harfbuzz_sys::HB_OT_MATH_CONSTANT_SCRIPT_PERCENT_SCALE_DOWN`: the engine's code of this constant, 0.
#[verifier::external_body]
fn hb_script_percent_scale_down() -> (r: u32)
    ensures
        r == 0,
{
    harfbuzz_sys::HB_OT_MATH_CONSTANT_SCRIPT_PERCENT_SCALE_DOWN
}

/// `harfbuzz_sys::HB_OT_MATH_CONSTANT_SCRIPT_SCRIPT_PERCENT_SCALE_DOWN`: the engine's code of this constant, 1.
#[verifier::external_body]
fn hb_script_script_percent_scale_down() -> (r: u32)
    ensures
        r == 1,
{
    harfbuzz_sys::HB_OT_MATH_CONSTANT_SCRIPT_SCRIPT_PERCENT_SCALE_DOWN
}

/// `harfbuzz_sys::HB_OT_MATH_CONSTANT_DELIMITED_SUB_FORMULA_MIN_HEIGHT`: the engine's code of this constant, 2.
#[verifier::external_body]
fn hb_delimited_sub_formula_min_height() -> (r: u32)
    ensures
        r == 2,
{
    harfbuzz_sys::HB_OT_MATH_CONSTANT_DELIMITED_SUB_FORMULA_MIN_HEIGHT
}

/// `harfbuzz_sys::HB_OT_MATH_CONSTANT_DISPLAY_OPERATOR_MIN_HEIGHT`: the engine's code of this constant, 3.
#[verifier::external_body]
fn hb_display_operator_min_height() -> (r: u32)
    ensures
        r == 3,
{
    harfbuzz_sys::HB_OT_MATH_CONSTANT_DISPLAY_OPERATOR_MIN_HEIGHT
}

/// `harfbuzz_sys::HB_OT_MATH_CONSTANT_MATH_LEADING`: the engine's code of this constant, 4.
#[verifier::external_body]
fn hb_math_leading() -> (r: u32)
    ensures
        r == 4,
{
    harfbuzz_sys::HB_OT_MATH_CONSTANT_MATH_LEADING
}

/// `harfbuzz_sys::HB_OT_MATH_CONSTANT_AXIS_HEIGHT`: the engine's code of this constant, 5.
#[verifier::external_body]
fn hb_axis_height() -> (r: u32)
    ensures
        r == 5,
{
    harfbuzz_sys::HB_OT_MATH_CONSTANT_AXIS_HEIGHT
}

/// `harfbuzz_sys::HB_OT_MATH_CONSTANT_ACCENT_BASE_HEIGHT`: the engine's code of this constant, 6.
#[verifier::external_body]
fn hb_accent_base_height() -> (r: u32)
    ensures
        r == 6,
{
    harfbuzz_sys::HB_OT_MATH_CONSTANT_ACCENT_BASE_HEIGHT
}

/// `harfbuzz_sys::HB_OT_MATH_CONSTANT_FLATTENED_ACCENT_BASE_HEIGHT`: the engine's code of this constant, 7.
#[verifier::external_body]
fn hb_flattened_accent_base_height() -> (r: u32)
    ensures
        r == 7,
{
    harfbuzz_sys::HB_OT_MATH_CONSTANT_FLATTENED_ACCENT_BASE_HEIGHT
}

/// `harfbuzz_sys::HB_OT_MATH_CONSTANT_SUBSCRIPT_SHIFT_DOWN`: the engine's code of this constant, 8.
#[verifier::external_body]
fn hb_subscript_shift_down() -> (r: u32)
    ensures
        r == 8,
{
    harfbuzz_sys::HB_OT_MATH_CONSTANT_SUBSCRIPT_SHIFT_DOWN
}

/// `harfbuzz_sys::HB_OT_MATH_CONSTANT_SUBSCRIPT_TOP_MAX`: the engine's code of this constant, 9.
#[verifier::external_body]
fn hb_subscript_top_max() -> (r: u32)
    ensures
        r == 9,
{
    harfbuzz_sys::HB_OT_MATH_CONSTANT_SUBSCRIPT_TOP_MAX
}

/// `harfbuzz_sys::HB_OT_MATH_CONSTANT_SUBSCRIPT_BASELINE_DROP_MIN`: the engine's code of this constant, 10.
#[verifier::external_body]
fn hb_subscript_baseline_drop_min() -> (r: u32)
    ensures
        r == 10,
{
    harfbuzz_sys::HB_OT_MATH_CONSTANT_SUBSCRIPT_BASELINE_DROP_MIN
}

/// `harfbuzz_sys::HB_OT_MATH_CONSTANT_SUPERSCRIPT_SHIFT_UP`: the engine's code of this constant, 11.
#[verifier::external_body]
fn hb_superscript_shift_up() -> (r: u32)
    ensures
        r == 11,
{
    harfbuzz_sys::HB_OT_MATH_CONSTANT_SUPERSCRIPT_SHIFT_UP
}

/// `harfbuzz_sys::HB_OT_MATH_CONSTANT_SUPERSCRIPT_SHIFT_UP_CRAMPED`: the engine's code of this constant, 12.
#[verifier::external_body]
fn hb_superscript_shift_up_cramped() -> (r: u32)
    ensures
        r == 12,
{
    harfbuzz_sys::HB_OT_MATH_CONSTANT_SUPERSCRIPT_SHIFT_UP_CRAMPED
}

/// `harfbuzz_sys::HB_OT_MATH_CONSTANT_SUPERSCRIPT_BOTTOM_MIN`: the engine's code of this constant, 13.
#[verifier::external_body]
fn hb_superscript_bottom_min() -> (r: u32)
    ensures
        r == 13,
{
    harfbuzz_sys::HB_OT_MATH_CONSTANT_SUPERSCRIPT_BOTTOM_MIN
}

/// `harfbuzz_sys::HB_OT_MATH_CONSTANT_SUPERSCRIPT_BASELINE_DROP_MAX`: the engine's code of this constant, 14.
#[verifier::external_body]
fn hb_superscript_baseline_drop_max() -> (r: u32)
    ensures
        r == 14,
{
    harfbuzz_sys::HB_OT_MATH_CONSTANT_SUPERSCRIPT_BASELINE_DROP_MAX
}

/// `harfbuzz_sys::HB_OT_MATH_CONSTANT_SUB_SUPERSCRIPT_GAP_MIN`: the engine's code of this constant, 15.
#[verifier::external_body]
fn hb_sub_superscript_gap_min() -> (r: u32)
    ensures
        r == 15,
{
    harfbuzz_sys::HB_OT_MATH_CONSTANT_SUB_SUPERSCRIPT_GAP_MIN
}

/// `harfbuzz_sys::HB_OT_MATH_CONSTANT_SUPERSCRIPT_BOTTOM_MAX_WITH_SUBSCRIPT`: the engine's code of this constant, 16.
#[verifier::external_body]
fn hb_superscript_bottom_max_with_subscript() -> (r: u32)
    ensures
        r == 16,
{
    harfbuzz_sys::HB_OT_MATH_CONSTANT_SUPERSCRIPT_BOTTOM_MAX_WITH_SUBSCRIPT
}

/// `harfbuzz_sys::HB_OT_MATH_CONSTANT_SPACE_AFTER_SCRIPT`: the engine's code of this constant, 17.
#[verifier::external_body]
fn hb_space_after_script() -> (r: u32)
    ensures
        r == 17,
{
    harfbuzz_sys::HB_OT_MATH_CONSTANT_SPACE_AFTER_SCRIPT
}

/// `harfbuzz_sys::HB_OT_MATH_CONSTANT_UPPER_LIMIT_GAP_MIN`: the engine's code of this constant, 18.
#[verifier::external_body]
fn hb_upper_limit_gap_min() -> (r: u32)
    ensures
        r == 18,
{
    harfbuzz_sys::HB_OT_MATH_CONSTANT_UPPER_LIMIT_GAP_MIN
}

/// `harfbuzz_sys::HB_OT_MATH_CONSTANT_UPPER_LIMIT_BASELINE_RISE_MIN`: the engine's code of this constant, 19.
#[verifier::external_body]
fn hb_upper_limit_baseline_rise_min() -> (r: u32)
    ensures
        r == 19,
{
    harfbuzz_sys::HB_OT_MATH_CONSTANT_UPPER_LIMIT_BASELINE_RISE_MIN
}

/// `harfbuzz_sys::HB_OT_MATH_CONSTANT_LOWER_LIMIT_GAP_MIN`: the engine's code of this constant, 20.
#[verifier::external_body]
fn hb_lower_limit_gap_min() -> (r: u32)
    ensures
        r == 20,
{
    harfbuzz_sys::HB_OT_MATH_CONSTANT_LOWER_LIMIT_GAP_MIN
}

/// `harfbuzz_sys::HB_OT_MATH_CONSTANT_LOWER_LIMIT_BASELINE_DROP_MIN`: the engine's code of this constant, 21.
#[verifier::external_body]
fn hb_lower_limit_baseline_drop_min() -> (r: u32)
    ensures
        r == 21,
{
    harfbuzz_sys::HB_OT_MATH_CONSTANT_LOWER_LIMIT_BASELINE_DROP_MIN
}

/// `harfbuzz_sys::HB_OT_MATH_CONSTANT_STACK_TOP_SHIFT_UP`: the engine's code of this constant, 22.
#[verifier::external_body]
fn hb_stack_top_shift_up() -> (r: u32)
    ensures
        r == 22,
{
    harfbuzz_sys::HB_OT_MATH_CONSTANT_STACK_TOP_SHIFT_UP
}

/// `harfbuzz_sys::HB_OT_MATH_CONSTANT_STACK_TOP_DISPLAY_STYLE_SHIFT_UP`: the engine's code of this constant, 23.
#[verifier::external_body]
fn hb_stack_top_display_style_shift_up() -> (r: u32)
    ensures
        r == 23,
{
    harfbuzz_sys::HB_OT_MATH_CONSTANT_STACK_TOP_DISPLAY_STYLE_SHIFT_UP
}

/// `harfbuzz_sys::HB_OT_MATH_CONSTANT_STACK_BOTTOM_SHIFT_DOWN`: the engine's code of this constant, 24.
#[verifier::external_body]
fn hb_stack_bottom_shift_down() -> (r: u32)
    ensures
        r == 24,
{
    harfbuzz_sys::HB_OT_MATH_CONSTANT_STACK_BOTTOM_SHIFT_DOWN
}

/// `harfbuzz_sys::HB_OT_MATH_CONSTANT_STACK_BOTTOM_DISPLAY_STYLE_SHIFT_DOWN`: the engine's code of this constant, 25.
#[verifier::external_body]
fn hb_stack_bottom_display_style_shift_down() -> (r: u32)
    ensures
        r == 25,
{
    harfbuzz_sys::HB_OT_MATH_CONSTANT_STACK_BOTTOM_DISPLAY_STYLE_SHIFT_DOWN
}

/// `harfbuzz_sys::HB_OT_MATH_CONSTANT_STACK_GAP_MIN`: the engine's code of this constant, 26.
#[verifier::external_body]
fn hb_stack_gap_min() -> (r: u32)
    ensures
        r == 26,
{
    harfbuzz_sys::HB_OT_MATH_CONSTANT_STACK_GAP_MIN
}

/// `harfbuzz_sys::HB_OT_MATH_CONSTANT_STACK_DISPLAY_STYLE_GAP_MIN`: the engine's code of this constant, 27.
#[verifier::external_body]
fn hb_stack_display_style_gap_min() -> (r: u32)
    ensures
        r == 27,
{
    harfbuzz_sys::HB_OT_MATH_CONSTANT_STACK_DISPLAY_STYLE_GAP_MIN
}

/// `harfbuzz_sys::HB_OT_MATH_CONSTANT_STRETCH_STACK_TOP_SHIFT_UP`: the engine's code of this constant, 28.
#[verifier::external_body]
fn hb_stretch_stack_top_shift_up() -> (r: u32)
    ensures
        r == 28,
{
    harfbuzz_sys::HB_OT_MATH_CONSTANT_STRETCH_STACK_TOP_SHIFT_UP
}

/// `harfbuzz_sys::HB_OT_MATH_CONSTANT_STRETCH_STACK_BOTTOM_SHIFT_DOWN`: the engine's code of this constant, 29.
#[verifier::external_body]
fn hb_stretch_stack_bottom_shift_down() -> (r: u32)
    ensures
        r == 29,
{
    harfbuzz_sys::HB_OT_MATH_CONSTANT_STRETCH_STACK_BOTTOM_SHIFT_DOWN
}

/// `harfbuzz_sys::HB_OT_MATH_CONSTANT_STRETCH_STACK_GAP_ABOVE_MIN`: the engine's code of this constant, 30.
#[verifier::external_body]
fn hb_stretch_stack_gap_above_min() -> (r: u32)
    ensures
        r == 30,
{
    harfbuzz_sys::HB_OT_MATH_CONSTANT_STRETCH_STACK_GAP_ABOVE_MIN
}

/// `harfbuzz_sys::HB_OT_MATH_CONSTANT_STRETCH_STACK_GAP_BELOW_MIN`: the engine's code of this constant, 31.
#[verifier::external_body]
fn hb_stretch_stack_gap_below_min() -> (r: u32)
    ensures
        r == 31,
{
    harfbuzz_sys::HB_OT_MATH_CONSTANT_STRETCH_STACK_GAP_BELOW_MIN
}

/// `harfbuzz_sys::HB_OT_MATH_CONSTANT_FRACTION_NUMERATOR_SHIFT_UP`: the engine's code of this constant, 32.
#[verifier::external_body]
fn hb_fraction_numerator_shift_up() -> (r: u32)
    ensures
        r == 32,
{
    harfbuzz_sys::HB_OT_MATH_CONSTANT_FRACTION_NUMERATOR_SHIFT_UP
}

/// `harfbuzz_sys::HB_OT_MATH_CONSTANT_FRACTION_NUMERATOR_DISPLAY_STYLE_SHIFT_UP`: the engine's code of this constant, 33.
#[verifier::external_body]
fn hb_fraction_numerator_display_style_shift_up() -> (r: u32)
    ensures
        r == 33,
{
    harfbuzz_sys::HB_OT_MATH_CONSTANT_FRACTION_NUMERATOR_DISPLAY_STYLE_SHIFT_UP
}

/// `harfbuzz_sys::HB_OT_MATH_CONSTANT_FRACTION_DENOMINATOR_SHIFT_DOWN`: the engine's code of this constant, 34.
#[verifier::external_body]
fn hb_fraction_denominator_shift_down() -> (r: u32)
    ensures
        r == 34,
{
    harfbuzz_sys::HB_OT_MATH_CONSTANT_FRACTION_DENOMINATOR_SHIFT_DOWN
}

/// `harfbuzz_sys::HB_OT_MATH_CONSTANT_FRACTION_DENOMINATOR_DISPLAY_STYLE_SHIFT_DOWN`: the engine's code of this constant, 35.
#[verifier::external_body]
fn hb_fraction_denominator_display_style_shift_down() -> (r: u32)
    ensures
        r == 35,
{
    harfbuzz_sys::HB_OT_MATH_CONSTANT_FRACTION_DENOMINATOR_DISPLAY_STYLE_SHIFT_DOWN
}

/// `harfbuzz_sys::HB_OT_MATH_CONSTANT_FRACTION_NUMERATOR_GAP_MIN`: the engine's code of this constant, 36.
#[verifier::external_body]
fn hb_fraction_numerator_gap_min() -> (r: u32)
    ensures
        r == 36,
{
    harfbuzz_sys::HB_OT_MATH_CONSTANT_FRACTION_NUMERATOR_GAP_MIN
}

/// `harfbuzz_sys::HB_OT_MATH_CONSTANT_FRACTION_NUM_DISPLAY_STYLE_GAP_MIN`: the engine's code of this constant, 37.
#[verifier::external_body]
fn hb_fraction_num_display_style_gap_min() -> (r: u32)
    ensures
        r == 37,
{
    harfbuzz_sys::HB_OT_MATH_CONSTANT_FRACTION_NUM_DISPLAY_STYLE_GAP_MIN
}

/// `harfbuzz_sys::HB_OT_MATH_CONSTANT_FRACTION_RULE_THICKNESS`: the engine's code of this constant, 38.
#[verifier::external_body]
fn hb_fraction_rule_thickness() -> (r: u32)
    ensures
        r == 38,
{
    harfbuzz_sys::HB_OT_MATH_CONSTANT_FRACTION_RULE_THICKNESS
}

/// `harfbuzz_sys::HB_OT_MATH_CONSTANT_FRACTION_DENOMINATOR_GAP_MIN`: the engine's code of this constant, 39.
#[verifier::external_body]
fn hb_fraction_denominator_gap_min() -> (r: u32)
    ensures
        r == 39,
{
    harfbuzz_sys::HB_OT_MATH_CONSTANT_FRACTION_DENOMINATOR_GAP_MIN
}

/// `harfbuzz_sys::HB_OT_MATH_CONSTANT_FRACTION_DENOM_DISPLAY_STYLE_GAP_MIN`: the engine's code of this constant, 40.
#[verifier::external_body]
fn hb_fraction_denominator_display_style_gap_min() -> (r: u32)
    ensures
        r == 40,
{
    harfbuzz_sys::HB_OT_MATH_CONSTANT_FRACTION_DENOM_DISPLAY_STYLE_GAP_MIN
}

/// `harfbuzz_sys::HB_OT_MATH_CONSTANT_SKEWED_FRACTION_HORIZONTAL_GAP`: the engine's code of this constant, 41.
#[verifier::external_body]
fn hb_skewed_fraction_horizontal_gap() -> (r: u32)
    ensures
        r == 41,
{
    harfbuzz_sys::HB_OT_MATH_CONSTANT_SKEWED_FRACTION_HORIZONTAL_GAP
}

/// `harfbuzz_sys::HB_OT_MATH_CONSTANT_SKEWED_FRACTION_VERTICAL_GAP`: the engine's code of this constant, 42.
#[verifier::external_body]
fn hb_skewed_fraction_vertical_gap() -> (r: u32)
    ensures
        r == 42,
{
    harfbuzz_sys::HB_OT_MATH_CONSTANT_SKEWED_FRACTION_VERTICAL_GAP
}

/// `harfbuzz_sys::HB_OT_MATH_CONSTANT_OVERBAR_VERTICAL_GAP`: the engine's code of this constant, 43.
#[verifier::external_body]
fn hb_overbar_vertical_gap() -> (r: u32)
    ensures
        r == 43,
{
    harfbuzz_sys::HB_OT_MATH_CONSTANT_OVERBAR_VERTICAL_GAP
}

/// `harfbuzz_sys::HB_OT_MATH_CONSTANT_OVERBAR_RULE_THICKNESS`: the engine's code of this constant, 44.
#[verifier::external_body]
fn hb_overbar_rule_thickness() -> (r: u32)
    ensures
        r == 44,
{
    harfbuzz_sys::HB_OT_MATH_CONSTANT_OVERBAR_RULE_THICKNESS
}

/// `harfbuzz_sys::HB_OT_MATH_CONSTANT_OVERBAR_EXTRA_ASCENDER`: the engine's code of this constant, 45.
#[verifier::external_body]
fn hb_overbar_extra_ascender() -> (r: u32)
    ensures
        r == 45,
{
    harfbuzz_sys::HB_OT_MATH_CONSTANT_OVERBAR_EXTRA_ASCENDER
}

/// `harfbuzz_sys::HB_OT_MATH_CONSTANT_UNDERBAR_VERTICAL_GAP`: the engine's code of this constant, 46.
#[verifier::external_body]
fn hb_underbar_vertical_gap() -> (r: u32)
    ensures
        r == 46,
{
    harfbuzz_sys::HB_OT_MATH_CONSTANT_UNDERBAR_VERTICAL_GAP
}

/// `harfbuzz_sys::HB_OT_MATH_CONSTANT_UNDERBAR_RULE_THICKNESS`: the engine's code of this constant, 47.
#[verifier::external_body]
fn hb_underbar_rule_thickness() -> (r: u32)
    ensures
        r == 47,
{
    harfbuzz_sys::HB_OT_MATH_CONSTANT_UNDERBAR_RULE_THICKNESS
}

/// `harfbuzz_sys::HB_OT_MATH_CONSTANT_UNDERBAR_EXTRA_DESCENDER`: the engine's code of this constant, 48.
#[verifier::external_body]
fn hb_underbar_extra_descender() -> (r: u32)
    ensures
        r == 48,
{
    harfbuzz_sys::HB_OT_MATH_CONSTANT_UNDERBAR_EXTRA_DESCENDER
}

/// `harfbuzz_sys::HB_OT_MATH_CONSTANT_RADICAL_VERTICAL_GAP`: the engine's code of this constant, 49.
#[verifier::external_body]
fn hb_radical_vertical_gap() -> (r: u32)
    ensures
        r == 49,
{
    harfbuzz_sys::HB_OT_MATH_CONSTANT_RADICAL_VERTICAL_GAP
}

/// `harfbuzz_sys::HB_OT_MATH_CONSTANT_RADICAL_DISPLAY_STYLE_VERTICAL_GAP`: the engine's code of this constant, 50.
#[verifier::external_body]
fn hb_radical_display_style_vertical_gap() -> (r: u32)
    ensures
        r == 50,
{
    harfbuzz_sys::HB_OT_MATH_CONSTANT_RADICAL_DISPLAY_STYLE_VERTICAL_GAP
}

/// `harfbuzz_sys::HB_OT_MATH_CONSTANT_RADICAL_RULE_THICKNESS`: the engine's code of this constant, 51.
#[verifier::external_body]
fn hb_radical_rule_thickness() -> (r: u32)
    ensures
        r == 51,
{
    harfbuzz_sys::HB_OT_MATH_CONSTANT_RADICAL_RULE_THICKNESS
}

/// `harfbuzz_sys::HB_OT_MATH_CONSTANT_RADICAL_EXTRA_ASCENDER`: the engine's code of this constant, 52.
#[verifier::external_body]
fn hb_radical_extra_ascender() -> (r: u32)
    ensures
        r == 52,
{
    harfbuzz_sys::HB_OT_MATH_CONSTANT_RADICAL_EXTRA_ASCENDER
}

/// `harfbuzz_sys::HB_OT_MATH_CONSTANT_RADICAL_KERN_BEFORE_DEGREE`: the engine's code of this constant, 53.
#[verifier::external_body]
fn hb_radical_kern_before_degree() -> (r: u32)
    ensures
        r == 53,
{
    harfbuzz_sys::HB_OT_MATH_CONSTANT_RADICAL_KERN_BEFORE_DEGREE
}

/// `harfbuzz_sys::HB_OT_MATH_CONSTANT_RADICAL_KERN_AFTER_DEGREE`: the engine's code of this constant, 54.
#[verifier::external_body]
fn hb_radical_kern_after_degree() -> (r: u32)
    ensures
        r == 54,
{
    harfbuzz_sys::HB_OT_MATH_CONSTANT_RADICAL_KERN_AFTER_DEGREE
}

/// `harfbuzz_sys::HB_OT_MATH_CONSTANT_RADICAL_DEGREE_BOTTOM_RAISE_PERCENT`: the engine's code of this constant, 55.
#[verifier::external_body]
fn hb_radical_degree_bottom_raise_percent() -> (r: u32)
    ensures
        r == 55,
{
    harfbuzz_sys::HB_OT_MATH_CONSTANT_RADICAL_DEGREE_BOTTOM_RAISE_PERCENT
}

} // verus!
