use kitchen_sink_demo::text::{ascii_lowercase_chars, char_to_ascii_lower, contains_chars, contains_ignoring_ascii_case, str_equal};

#[test]
fn lowercasing_characters() {
    assert_eq!(char_to_ascii_lower('A'), 'a');
    assert_eq!(char_to_ascii_lower('Z'), 'z');
    assert_eq!(char_to_ascii_lower('m'), 'm');
    assert_eq!(char_to_ascii_lower('@'), '@');
    assert_eq!(char_to_ascii_lower('['), '[');
    assert_eq!(char_to_ascii_lower('É'), 'É');
    let lowered: String = ascii_lowercase_chars("NEMA 4X, Ü").into_iter().collect();
    assert_eq!(lowered, "nema 4x, Ü");
}

#[test]
fn equality_of_texts() {
    assert!(str_equal("fasteners", "fasteners"));
    assert!(!str_equal("fasteners", "Fasteners"));
    assert!(!str_equal("safe", "safety"));
    assert!(str_equal("", ""));
}

#[test]
fn substring_search() {
    let hay: Vec<char> = "swivel plate caster".chars().collect();
    assert!(contains_chars(&hay, &"plate".chars().collect()));
    assert!(contains_chars(&hay, &Vec::new()));
    assert!(contains_chars(&hay, &"caster".chars().collect()));
    assert!(!contains_chars(&hay, &"casters".chars().collect()));
    assert!(!contains_chars(&Vec::new(), &"a".chars().collect()));
    assert!(contains_ignoring_ascii_case("Swivel Plate Caster", &"plate c".chars().collect()));
    assert!(!contains_ignoring_ascii_case("Swivel Plate Caster", &"Plate".chars().collect()));
}
