//! Risk weightings and the score that they multiply to.
//!
//! A weighting is a whole number of tenths, so that 10 is the neutral factor
//! 1.0. A score is the product of three weightings, a whole number of
//! thousandths: 2340 is the score 2.34.

use crate::bmi::Bmi;
use crate::text::{same_text, text_or, TextView};
use vstd::prelude::*;

verus! {

/// The neutral weighting, 1.0.
pub const NEUTRAL: u8 = 10;

/// The weighting of an age under 18 or over 65.
pub const AGE_RISK: u8 = 15;

/// The weighting of a body-mass index under 18.5 or over 25.
pub const BMI_RISK: u8 = 13;

/// The weighting of the city New York.
pub const NEW_YORK_RISK: u8 = 12;

/// The weighting of the city Los Angeles.
pub const LOS_ANGELES_RISK: u8 = 11;

/// The weighting of an age in years.
pub open spec fn spec_age_risk(age: u32) -> u8 {
    if age < 18 || age > 65 {
        AGE_RISK
    } else {
        NEUTRAL
    }
}

/// The weighting of the body-mass index `num / den`, for a positive `den`.
pub open spec fn spec_bmi_risk(num: int, den: int) -> u8 {
    if 2 * num < 37 * den || num > 25 * den {
        BMI_RISK
    } else {
        NEUTRAL
    }
}

/// The weighting of a city, by its exact name.
pub open spec fn spec_city_risk(city: Seq<char>) -> u8 {
    if city == "New York"@ {
        NEW_YORK_RISK
    } else if city == "Los Angeles"@ {
        LOS_ANGELES_RISK
    } else {
        NEUTRAL
    }
}

/// The score of three weightings: their product.
pub open spec fn spec_risk_score(age_risk: u8, bmi_risk: u8, city_risk: u8) -> int {
    age_risk * bmi_risk * city_risk
}

/// What is recommended at a score, given in thousandths.
pub open spec fn spec_recommendation(risk_score: u32) -> Seq<char> {
    if risk_score < 1200 {
        "Excellent health profile. Maintain current lifestyle."@
    } else if risk_score < 1500 {
        "Good health. Consider minor lifestyle adjustments."@
    } else {
        "Elevated risk factors. Recommend consultation with healthcare provider."@
    }
}

/// No weighting lowers a score: the score of a person lies between 1, where
/// all three weightings are neutral, and 2.34, where none is.
pub proof fn lemma_risk_score_bounds(age: u32, num: int, den: int, city: Seq<char>)
    ensures
        1000 <= spec_risk_score(spec_age_risk(age), spec_bmi_risk(num, den), spec_city_risk(city))
            <= 2340,
{
    let a = spec_age_risk(age);
    let b = spec_bmi_risk(num, den);
    let c = spec_city_risk(city);
    assert(a == 10 || a == 15);
    assert(b == 10 || b == 13);
    assert(c == 10 || c == 11 || c == 12);
    assert(100 <= a * b <= 195) by (nonlinear_arith)
        requires
            a == 10 || a == 15,
            b == 10 || b == 13,
    ;
    assert(1000 <= (a * b) * c <= 2340) by (nonlinear_arith)
        requires
            100 <= a * b <= 195,
            10 <= c <= 12,
    ;
}

/// The weighting of an age in years.
pub fn age_risk(age: u32) -> (r: u8)
    ensures
        r == spec_age_risk(age),
{
    if age < 18 || age > 65 {
        AGE_RISK
    } else {
        NEUTRAL
    }
}

/// The weighting of a body-mass index.
pub fn bmi_risk(bmi: &Bmi) -> (r: u8)
    ensures
        r == spec_bmi_risk(bmi.num(), bmi.den()),
{
    if bmi.below(37, 2) || bmi.above(25, 1) {
        BMI_RISK
    } else {
        NEUTRAL
    }
}

/// The weighting of a city. A name that cannot be read counts as no name.
pub fn city_risk(city: &TextView) -> (r: u8)
    ensures
        r == spec_city_risk(text_or(city@, ""@)),
{
    let name = city.to_str_or("");
    if same_text(name, "New York") {
        NEW_YORK_RISK
    } else if same_text(name, "Los Angeles") {
        LOS_ANGELES_RISK
    } else {
        NEUTRAL
    }
}

/// The score of three weightings, in thousandths.
pub fn risk_score(age_risk: u8, bmi_risk: u8, city_risk: u8) -> (r: u32)
    ensures
        r == spec_risk_score(age_risk, bmi_risk, city_risk),
        age_risk > 0 && bmi_risk > 0 && city_risk > 0 ==> r > 0,
{
    let a: u32 = age_risk as u32;
    let b: u32 = bmi_risk as u32;
    let c: u32 = city_risk as u32;
    assert(0 <= a * b <= 255 * 255 && (a > 0 && b > 0 ==> a * b > 0)) by (nonlinear_arith)
        requires
            0 <= a <= 255,
            0 <= b <= 255,
    ;
    let ab: u32 = a * b;
    assert(0 <= ab * c <= 255 * 255 * 255 && (ab > 0 && c > 0 ==> ab * c > 0)) by (nonlinear_arith)
        requires
            0 <= ab <= 255 * 255,
            0 <= c <= 255,
    ;
    ab * c
}

/// What is recommended at a score, given in thousandths.
pub fn recommendation(risk_score: u32) -> (r: String)
    ensures
        r@ == spec_recommendation(risk_score),
{
    if risk_score < 1200 {
        "Excellent health profile. Maintain current lifestyle.".to_owned()
    } else if risk_score < 1500 {
        "Good health. Consider minor lifestyle adjustments.".to_owned()
    } else {
        "Elevated risk factors. Recommend consultation with healthcare provider.".to_owned()
    }
}

} // verus!
