//! The computations on person records, and the records that they hand back.
//!
//! Each is a function of its arguments alone. Where a text cannot be read,
//! because its bytes are not well-formed UTF-8, a fixed text stands in for
//! it; nothing here fails. Lengths of texts are lengths in bytes.

use crate::bmi::{bmi_ratio, calculate_bmi, spec_bmi_category, Bmi, BmiCategory};
use crate::records::{ContactInfo, ContactModel, Person};
use crate::risk::{
    age_risk, bmi_risk, city_risk, lemma_risk_score_bounds, recommendation, risk_score,
    spec_age_risk, spec_bmi_risk, spec_city_risk, spec_recommendation, spec_risk_score,
};
use crate::text::{byte_len, byte_length, contains_byte, lemma_byte_len_zero, text_or};
use vstd::prelude::*;
use vstd::string::*;

verus! {

/// The age in years from which a person is an adult.
pub const ADULT_AGE: u32 = 18;

/// The weight, in milligrams, that `process_person` takes every person to
/// have: 70 kg.
pub const ASSUMED_WEIGHT_MG: i32 = 70_000_000;

/// What `process_person` finds out about a person.
#[derive(Debug, PartialEq, Eq)]
pub struct PersonInfo {
    pub is_adult: bool,
    pub bmi_category: BmiCategory,
    /// The length of the person's name in bytes.
    pub name_length: usize,
    /// The city of the person's address.
    pub city: String,
}

/// What `analyze_health` finds out about a person.
#[derive(Debug)]
pub struct HealthAnalysis {
    pub bmi: Bmi,
    /// The product of the three weightings, in thousandths.
    pub risk_score: u32,
    pub recommendation: String,
    /// The weighting of the person's city, in tenths.
    pub city_risk_factor: u8,
}

/// Whether a contact record passes all four checks: the e-mail address holds
/// an `@` and is longer than 3 bytes, the phone number has at least 7 bytes,
/// the city is not empty, and the postal code has at least 5 bytes. A text
/// that cannot be read counts as empty.
pub open spec fn spec_validate_contact(contact: ContactModel) -> bool {
    let email = text_or(contact.email, ""@);
    let phone = text_or(contact.phone, ""@);
    let city = text_or(contact.address.city, ""@);
    let postal_code = text_or(contact.address.postal_code, ""@);
    &&& email.contains('@') && byte_len(email) > 3
    &&& byte_len(phone) >= 7
    &&& city.len() > 0
    &&& byte_len(postal_code) >= 5
}

/// Reads a person's age, height, name and city, and tells whether the person
/// is an adult, which band the body-mass index of a person of that height
/// and of 70 kg falls into, how long the name is, and the city. A height
/// that is not positive gives the index zero, which is in the lowest band. A
/// name that cannot be read has length 0, and a city that cannot be read is
/// given as `Unknown`.
pub fn process_person(person: &Person) -> (info: PersonInfo)
    ensures
        info.is_adult == (person@.age >= ADULT_AGE),
        info.bmi_category == spec_bmi_category(ASSUMED_WEIGHT_MG as int, person@.height_um as int),
        info.name_length == byte_len(text_or(person@.name, ""@)),
        info.city@ == text_or(person@.contact.address.city, "Unknown"@),
{
    let age = person.age();
    let height = person.height_um();
    let name = person.name();
    let city = person.contact().address().city();

    let is_adult = age >= ADULT_AGE;
    let bmi_category = calculate_bmi(ASSUMED_WEIGHT_MG, height).category();
    let name_length = byte_length(name.to_str_or(""));
    let city_string = city.to_str_or("Unknown").to_owned();

    PersonInfo { is_adult, bmi_category, name_length, city: city_string }
}

/// Weighs a person's age, body-mass index and city, and recommends by the
/// product of the three weightings, which is never below 1. A city that
/// cannot be read counts as no city.
pub fn analyze_health(person: &Person, weight_mg: i32) -> (analysis: HealthAnalysis)
    ensures
        analysis.bmi.ratio() == bmi_ratio(weight_mg as int, person@.height_um as int),
        analysis.city_risk_factor == spec_city_risk(text_or(person@.contact.address.city, ""@)),
        analysis.risk_score == spec_risk_score(
            spec_age_risk(person@.age),
            spec_bmi_risk(analysis.bmi.num(), analysis.bmi.den()),
            analysis.city_risk_factor,
        ),
        1000 <= analysis.risk_score <= 2340,
        analysis.recommendation@ == spec_recommendation(analysis.risk_score),
{
    let age = person.age();
    let height = person.height_um();
    let city = person.contact().address().city();

    let bmi = calculate_bmi(weight_mg, height);
    let city_risk_factor = city_risk(city);
    let score = risk_score(age_risk(age), bmi_risk(&bmi), city_risk_factor);
    proof {
        lemma_risk_score_bounds(age, bmi.num(), bmi.den(), text_or(city@, ""@));
    }

    HealthAnalysis {
        bmi,
        risk_score: score,
        recommendation: recommendation(score),
        city_risk_factor,
    }
}

/// Whether a contact record passes all four checks.
pub fn validate_contact(contact: &ContactInfo) -> (valid: bool)
    ensures
        valid == spec_validate_contact(contact@),
{
    let address = contact.address();
    let email = contact.email().to_str_or("");
    let phone = contact.phone().to_str_or("");
    let city = address.city().to_str_or("");
    let postal_code = address.postal_code().to_str_or("");

    let email_valid = contains_byte(email, 0x40) && byte_length(email) > 3;
    let phone_valid = byte_length(phone) >= 7;
    let city_valid = !city.is_empty();
    let postal_valid = byte_length(postal_code) >= 5;

    email_valid && phone_valid && city_valid && postal_valid
}

/// The greeting for a name: a general one where there is no name.
pub open spec fn spec_greeting(name: Seq<char>) -> Seq<char> {
    if name.len() == 0 {
        "Hello, stranger!"@
    } else {
        "Hello from Rust, "@ + name + "!"@
    }
}

/// The greeting for a name: a general one where there is no name.
pub fn greeting(name: &str) -> (text: String)
    ensures
        text@ == spec_greeting(name@),
{
    if name.is_empty() {
        "Hello, stranger!".to_owned()
    } else {
        let mut text = "Hello from Rust, ".to_owned();
        text.append(name);
        text.append("!");
        text
    }
}

/// The length of the name that is greeted, in bytes: 0 where there is no
/// name.
pub fn greet_person(name: &str) -> (length: usize)
    ensures
        length == byte_len(name@),
        length == 0 <==> name@.len() == 0,
{
    proof {
        lemma_byte_len_zero(name@);
    }
    if name.is_empty() {
        return 0;
    }
    byte_length(name)
}

} // verus!
