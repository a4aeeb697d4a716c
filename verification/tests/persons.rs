use person_bridge::bmi::BmiCategory;
use person_bridge::health::{analyze_health, process_person, validate_contact, PersonInfo};
use person_bridge::records::{Address, ContactInfo, Person};
use person_bridge::text::TextView;

fn text(s: &str) -> TextView<'static> {
    TextView::from_str(s)
}

fn garbled() -> TextView<'static> {
    TextView::from_bytes(vec![0x4e, 0xff, 0x59])
}

fn contact_in(city: TextView<'static>) -> ContactInfo<'static> {
    ContactInfo::new(
        text("alice@example.com"),
        text("5551234567"),
        Address::new(text("1 Main St"), city, text("02134")),
    )
}

fn person(age: u32, height_um: i32, name: &str, city: &str) -> Person<'static> {
    Person::new(age, height_um, text(name), contact_in(text(city)))
}

fn contact(email: &str, phone: &str, city: &str, postal_code: &str) -> ContactInfo<'static> {
    ContactInfo::new(
        text(email),
        text(phone),
        Address::new(text("1 Main St"), text(city), text(postal_code)),
    )
}

#[test]
fn process_person_reads_all_four_parts() {
    let info = process_person(&person(30, 1_750_000, "Alice", "Boston"));
    assert_eq!(
        info,
        PersonInfo {
            is_adult: true,
            bmi_category: BmiCategory::Normal,
            name_length: 5,
            city: String::from("Boston"),
        }
    );
}

#[test]
fn process_person_adult_from_eighteen() {
    assert!(!process_person(&person(0, 1_750_000, "A", "B")).is_adult);
    assert!(!process_person(&person(17, 1_750_000, "A", "B")).is_adult);
    assert!(process_person(&person(18, 1_750_000, "A", "B")).is_adult);
    assert!(process_person(&person(19, 1_750_000, "A", "B")).is_adult);
    assert!(process_person(&person(u32::MAX, 1_750_000, "A", "B")).is_adult);
}

#[test]
fn process_person_bands_by_height_at_seventy_kilograms() {
    let band = |height_um: i32| process_person(&person(30, height_um, "A", "B")).bmi_category;
    // 70 / 1.5² = 31.1, 70 / 1.75² = 22.9, 70 / 2² = 17.5.
    assert_eq!(band(1_500_000), BmiCategory::Overweight);
    assert_eq!(band(1_750_000), BmiCategory::Normal);
    assert_eq!(band(2_000_000), BmiCategory::Underweight);
    // 70 / h² is 25 at h = 1.673320..., and 18.5 at h = 1.945195...
    assert_eq!(band(1_673_320), BmiCategory::Overweight);
    assert_eq!(band(1_673_321), BmiCategory::Normal);
    assert_eq!(band(1_945_195), BmiCategory::Normal);
    assert_eq!(band(1_945_196), BmiCategory::Underweight);
    assert_eq!(band(1), BmiCategory::Overweight);
    assert_eq!(band(i32::MAX), BmiCategory::Underweight);
}

#[test]
fn process_person_without_a_height() {
    // No height, no index: zero, which is in the lowest band.
    for height_um in [0, -1, -1_750_000, i32::MIN] {
        let info = process_person(&person(30, height_um, "A", "B"));
        assert_eq!(info.bmi_category, BmiCategory::Underweight);
    }
}

#[test]
fn process_person_name_length_is_in_bytes() {
    assert_eq!(process_person(&person(30, 1_750_000, "", "B")).name_length, 0);
    assert_eq!(process_person(&person(30, 1_750_000, "Zoë", "B")).name_length, 4);
}

#[test]
fn process_person_with_a_garbled_name() {
    let p = Person::new(30, 1_750_000, garbled(), contact_in(text("Boston")));
    let info = process_person(&p);
    assert_eq!(info.name_length, 0);
    assert_eq!(info.city, "Boston");
}

#[test]
fn process_person_with_a_garbled_city() {
    let p = Person::new(30, 1_750_000, text("Alice"), contact_in(garbled()));
    let info = process_person(&p);
    assert_eq!(info.city, "Unknown");
    assert_eq!(info.name_length, 5);
}

#[test]
fn process_person_is_the_same_on_a_copy() {
    let p = Person::new(17, 1_600_000, text("Zoë"), contact_in(garbled()));
    assert_eq!(process_person(&p), process_person(&p.to_copied()));
    let p = person(44, 1_820_000, "Bob", "Los Angeles");
    assert_eq!(process_person(&p), process_person(&p.to_copied()));
}

#[test]
fn process_person_gives_the_same_answer_each_time() {
    let p = person(44, 1_820_000, "Bob", "Los Angeles");
    let first = process_person(&p);
    for _ in 0..8 {
        assert_eq!(process_person(&p), first);
    }
}

#[test]
fn analyze_health_multiplies_the_three_weightings() {
    // 30 kg at 1 m is an index of 30.
    let analysis = analyze_health(&person(70, 1_000_000, "A", "New York"), 30_000_000);
    assert_eq!(analysis.bmi.numerator(), 30 * analysis.bmi.denominator() as i64);
    assert_eq!(analysis.city_risk_factor, 12);
    assert_eq!(analysis.risk_score, 2340);
    assert!((f64::from(analysis.risk_score) / 1000.0 - 1.5 * 1.3 * 1.2).abs() < 1e-9);
    assert_eq!(
        analysis.recommendation,
        "Elevated risk factors. Recommend consultation with healthcare provider."
    );
}

#[test]
fn analyze_health_of_a_person_at_no_risk() {
    // 70 kg at 1.75 m is an index of 22.86.
    let analysis = analyze_health(&person(30, 1_750_000, "A", "Boston"), 70_000_000);
    assert_eq!(analysis.bmi.numerator(), 70_000_000_000_000);
    assert_eq!(analysis.bmi.denominator(), 3_062_500_000_000);
    assert_eq!(analysis.city_risk_factor, 10);
    assert_eq!(analysis.risk_score, 1000);
    assert_eq!(analysis.recommendation, "Excellent health profile. Maintain current lifestyle.");
}

#[test]
fn analyze_health_every_combination() {
    let ages = [(17, 15), (18, 10), (65, 10), (66, 15)];
    // At 1 m the index is the weight in kg.
    let weights = [(18_499_990, 13), (18_500_000, 10), (25_000_000, 10), (25_000_001, 13)];
    let cities = [("New York", 12), ("Los Angeles", 11), ("Boston", 10)];
    for (age, age_risk) in ages {
        for (weight_mg, bmi_risk) in weights {
            for (city, city_risk) in cities {
                let analysis = analyze_health(&person(age, 1_000_000, "A", city), weight_mg);
                let score = age_risk * bmi_risk * city_risk;
                assert_eq!(analysis.risk_score, score);
                assert_eq!(u32::from(analysis.city_risk_factor), city_risk);
                let expected = if score < 1200 {
                    "Excellent health profile. Maintain current lifestyle."
                } else if score < 1500 {
                    "Good health. Consider minor lifestyle adjustments."
                } else {
                    "Elevated risk factors. Recommend consultation with healthcare provider."
                };
                assert_eq!(analysis.recommendation, expected);
            }
        }
    }
}

#[test]
fn analyze_health_recommends_at_the_thresholds() {
    // 1.1: below the first threshold.
    let analysis = analyze_health(&person(30, 1_000_000, "A", "Los Angeles"), 20_000_000);
    assert_eq!(analysis.risk_score, 1100);
    assert_eq!(analysis.recommendation, "Excellent health profile. Maintain current lifestyle.");
    // 1.2: on the first threshold.
    let analysis = analyze_health(&person(30, 1_000_000, "A", "New York"), 20_000_000);
    assert_eq!(analysis.risk_score, 1200);
    assert_eq!(analysis.recommendation, "Good health. Consider minor lifestyle adjustments.");
    // 1.43: between the two.
    let analysis = analyze_health(&person(30, 1_000_000, "A", "Los Angeles"), 30_000_000);
    assert_eq!(analysis.risk_score, 1430);
    assert_eq!(analysis.recommendation, "Good health. Consider minor lifestyle adjustments.");
    // 1.5: on the second threshold.
    let analysis = analyze_health(&person(70, 1_000_000, "A", "Boston"), 20_000_000);
    assert_eq!(analysis.risk_score, 1500);
    assert_eq!(
        analysis.recommendation,
        "Elevated risk factors. Recommend consultation with healthcare provider."
    );
}

#[test]
fn analyze_health_without_a_height() {
    let analysis = analyze_health(&person(30, 0, "A", "Boston"), 70_000_000);
    assert_eq!(analysis.bmi.numerator(), 0);
    assert_eq!(analysis.bmi.denominator(), 1);
    // An index of zero is below 18.5.
    assert_eq!(analysis.risk_score, 1300);
    let analysis = analyze_health(&person(30, -1_750_000, "A", "Boston"), 70_000_000);
    assert_eq!(analysis.bmi.numerator(), 0);
    assert_eq!(analysis.risk_score, 1300);
}

#[test]
fn analyze_health_matches_cities_exactly() {
    for city in ["new york", "New York ", "NEW YORK", "NewYork", "Los angeles", ""] {
        let analysis = analyze_health(&person(30, 1_750_000, "A", city), 70_000_000);
        assert_eq!(analysis.city_risk_factor, 10);
    }
}

#[test]
fn analyze_health_with_a_garbled_city() {
    let p = Person::new(30, 1_750_000, text("Alice"), contact_in(garbled()));
    let analysis = analyze_health(&p, 70_000_000);
    assert_eq!(analysis.city_risk_factor, 10);
    assert_eq!(analysis.risk_score, 1000);
}

#[test]
fn analyze_health_is_the_same_on_a_copy() {
    let p = person(70, 1_600_000, "Bob", "New York");
    let here = analyze_health(&p, 90_000_000);
    let there = analyze_health(&p.to_copied(), 90_000_000);
    assert_eq!(here.bmi.numerator(), there.bmi.numerator());
    assert_eq!(here.bmi.denominator(), there.bmi.denominator());
    assert_eq!(here.risk_score, there.risk_score);
    assert_eq!(here.city_risk_factor, there.city_risk_factor);
    assert_eq!(here.recommendation, there.recommendation);
}

#[test]
fn validate_contact_accepts_a_complete_record() {
    assert!(validate_contact(&contact("a@b.co", "5551234567", "Boston", "02134")));
}

#[test]
fn validate_contact_rejects_an_email_without_at() {
    assert!(!validate_contact(&contact("bad-email", "5551234567", "Boston", "02134")));
}

#[test]
fn validate_contact_at_each_limit() {
    // The e-mail address: more than 3 bytes.
    assert!(!validate_contact(&contact("a@b", "5551234", "B", "02134")));
    assert!(validate_contact(&contact("a@bc", "5551234", "B", "02134")));
    assert!(!validate_contact(&contact("@", "5551234", "B", "02134")));
    assert!(validate_contact(&contact("@@@@", "5551234", "B", "02134")));
    // The phone number: at least 7 bytes.
    assert!(!validate_contact(&contact("a@b.co", "555123", "B", "02134")));
    assert!(validate_contact(&contact("a@b.co", "5551234", "B", "02134")));
    // The city: not empty.
    assert!(!validate_contact(&contact("a@b.co", "5551234", "", "02134")));
    assert!(validate_contact(&contact("a@b.co", "5551234", "B", "02134")));
    // The postal code: at least 5 bytes.
    assert!(!validate_contact(&contact("a@b.co", "5551234", "B", "0213")));
    assert!(validate_contact(&contact("a@b.co", "5551234", "B", "02134")));
    // Nothing at all.
    assert!(!validate_contact(&contact("", "", "", "")));
}

#[test]
fn validate_contact_measures_in_bytes() {
    // Three characters, four bytes.
    assert!(validate_contact(&contact("é@b", "5551234", "B", "02134")));
    // Four characters, seven bytes.
    assert!(validate_contact(&contact("a@b.co", "€€5", "B", "02134")));
}

#[test]
fn validate_contact_with_garbled_parts() {
    let good = |s: &str| text(s);
    let make = |email, phone, city, postal_code| {
        ContactInfo::new(email, phone, Address::new(text("1 Main St"), city, postal_code))
    };
    assert!(validate_contact(&make(good("a@b.co"), good("5551234"), good("B"), good("02134"))));
    let long = || TextView::from_bytes(vec![0x40, 0xff, 0x40, 0x40, 0x40, 0x40, 0x40, 0x40]);
    assert!(!validate_contact(&make(long(), good("5551234"), good("B"), good("02134"))));
    assert!(!validate_contact(&make(good("a@b.co"), long(), good("B"), good("02134"))));
    assert!(!validate_contact(&make(good("a@b.co"), good("5551234"), long(), good("02134"))));
    assert!(!validate_contact(&make(good("a@b.co"), good("5551234"), good("B"), long())));
    // The street is not looked at.
    let c = ContactInfo::new(
        good("a@b.co"),
        good("5551234"),
        Address::new(long(), good("B"), good("02134")),
    );
    assert!(validate_contact(&c));
}

#[test]
fn validate_contact_is_the_same_on_a_copy() {
    let c = contact("a@b.co", "5551234567", "Boston", "02134");
    assert_eq!(validate_contact(&c), validate_contact(&c.to_copied()));
    let c = contact("bad-email", "5551234567", "Boston", "02134");
    assert_eq!(validate_contact(&c), validate_contact(&c.to_copied()));
}

#[test]
fn accessors_hand_out_the_parts() {
    let p = person(41, 1_690_000, "Carol", "Denver");
    assert_eq!(p.age(), 41);
    assert_eq!(p.height_um(), 1_690_000);
    assert_eq!(p.name().to_str(), Ok("Carol"));
    let c = p.contact();
    assert_eq!(c.email().to_str(), Ok("alice@example.com"));
    assert_eq!(c.phone().to_str(), Ok("5551234567"));
    let a = c.address();
    assert_eq!(a.street().to_str(), Ok("1 Main St"));
    assert_eq!(a.city().to_str(), Ok("Denver"));
    assert_eq!(a.postal_code().to_str(), Ok("02134"));
}

#[test]
fn a_copied_person_holds_the_same_parts() {
    let p = Person::new(41, 1_690_000, garbled(), contact_in(text("Denver")));
    let q = p.to_copied();
    assert_eq!(q.age(), 41);
    assert_eq!(q.height_um(), 1_690_000);
    assert!(q.name().to_str().is_err());
    assert_eq!(q.contact().email().to_str(), Ok("alice@example.com"));
    assert_eq!(q.contact().phone().to_str(), Ok("5551234567"));
    assert_eq!(q.contact().address().street().to_str(), Ok("1 Main St"));
    assert_eq!(q.contact().address().city().to_str(), Ok("Denver"));
    assert_eq!(q.contact().address().postal_code().to_str(), Ok("02134"));
}
