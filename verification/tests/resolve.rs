use media_acquire::decimal::u64_to_decimal;
use media_acquire::resolve::{candidate_name, resolve_name};

#[test]
fn decimal_renders_exact_digits() {
    assert_eq!(u64_to_decimal(0), "0");
    assert_eq!(u64_to_decimal(7), "7");
    assert_eq!(u64_to_decimal(10), "10");
    assert_eq!(u64_to_decimal(205), "205");
    assert_eq!(u64_to_decimal(9999), "9999");
    assert_eq!(u64_to_decimal(u64::MAX), "18446744073709551615");
}

#[test]
fn first_candidate_is_the_name_itself() {
    assert_eq!(candidate_name("Title", 1), "Title");
}

#[test]
fn later_candidates_carry_the_number() {
    assert_eq!(candidate_name("Title", 2), "Title (2)");
    assert_eq!(candidate_name("Title", 3), "Title (3)");
    assert_eq!(candidate_name("Title", 12), "Title (12)");
}

#[test]
fn unused_name_resolves_to_itself() {
    let existing: Vec<String> = vec![];
    assert_eq!(resolve_name(&existing, "Title"), "Title");
}

#[test]
fn unrelated_siblings_do_not_collide() {
    let existing = vec!["Other".to_string(), "Title (2)".to_string()];
    assert_eq!(resolve_name(&existing, "Title"), "Title");
}

#[test]
fn taken_name_resolves_to_the_second_candidate() {
    let existing = vec!["Title".to_string()];
    assert_eq!(resolve_name(&existing, "Title"), "Title (2)");
}

#[test]
fn probing_skips_every_taken_candidate() {
    let existing = vec![
        "Title".to_string(),
        "Title (2)".to_string(),
        "Title (3)".to_string(),
    ];
    assert_eq!(resolve_name(&existing, "Title"), "Title (4)");
}

#[test]
fn two_sequential_resolutions_never_collide() {
    let mut existing: Vec<String> = vec![];
    let first = resolve_name(&existing, "Title");
    existing.push(first.clone());
    let second = resolve_name(&existing, "Title");
    assert_eq!(first, "Title");
    assert_eq!(second, "Title (2)");
    assert_ne!(first, second);
}

#[test]
fn rerunning_a_request_gets_a_fresh_directory_every_time() {
    let mut existing: Vec<String> = vec![];
    let mut seen: Vec<String> = vec![];
    for _ in 0..5 {
        let name = resolve_name(&existing, "Mix");
        assert!(!seen.contains(&name));
        seen.push(name.clone());
        existing.push(name);
    }
    assert_eq!(seen, vec!["Mix", "Mix (2)", "Mix (3)", "Mix (4)", "Mix (5)"]);
}
