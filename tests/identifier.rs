use llocg_catalog::identifier::{parse_identifier, CardIdentifier};

fn parts(s: &str) -> Option<(String, String, String, String)> {
    parse_identifier(s).map(|CardIdentifier { series_code, set_code, number_in_set, rarity_code }| {
        (series_code, set_code, number_in_set, rarity_code)
    })
}

fn owned(a: &str, b: &str, c: &str, d: &str) -> Option<(String, String, String, String)> {
    Some((a.to_string(), b.to_string(), c.to_string(), d.to_string()))
}

#[test]
fn splits_a_full_identifier() {
    assert_eq!(parts("PL!SP-bp1-001-R"), owned("PL!SP", "bp1", "001", "R"));
}

#[test]
fn keeps_non_ascii_rarity() {
    assert_eq!(parts("PL!HS-bp1-031-PE＋"), owned("PL!HS", "bp1", "031", "PE＋"));
}

#[test]
fn identifier_missing_rarity_is_refused() {
    assert_eq!(parts("PL!S-bp2-001"), None);
}

#[test]
fn identifier_without_hyphens_is_refused() {
    assert_eq!(parts("PL!SP/bp1/013/N"), None);
    assert_eq!(parts(""), None);
}

#[test]
fn extra_hyphens_stay_in_the_number() {
    assert_eq!(parts("A-B-C-D-E"), owned("A", "B", "C-D", "E"));
}

#[test]
fn empty_segments_are_kept() {
    assert_eq!(parts("---"), owned("", "", "", ""));
    assert_eq!(parts("a--b-"), owned("a", "", "b", ""));
}
