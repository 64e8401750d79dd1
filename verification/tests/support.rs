use fkb_repositories::base::{coalesce, coalesce_date, found_or_missing, merge, removed_any};
use fkb_repositories::text::{text_eq, text_not_after};
use fkb_repositories::{Database, Date, RepositoryError};

#[test]
fn text_order_is_by_scalar_value() {
    assert!(text_not_after("", ""));
    assert!(text_not_after("", "a"));
    assert!(!text_not_after("a", ""));
    assert!(text_not_after("Ava", "Ava"));
    assert!(text_not_after("Av", "Ava"));
    assert!(!text_not_after("Ava", "Av"));
    assert!(text_not_after("Zoe", "ava"));
    assert!(!text_not_after("ava", "Zoe"));
    assert!(text_not_after("z", "\u{e9}"));
    assert!(text_not_after("\u{e9}", "\u{4e2d}"));
    assert!(!text_not_after("\u{1f600}", "\u{4e2d}"));
    assert!(text_not_after("abc", "abd"));
    assert!(!text_not_after("abd", "abc"));
}

#[test]
fn text_equality_is_exact() {
    assert!(text_eq("", ""));
    assert!(text_eq("caf\u{e9}", "caf\u{e9}"));
    assert!(!text_eq("cafe", "caf\u{e9}"));
    assert!(!text_eq("a", "ab"));
    assert!(!text_eq("ab", "a"));
    assert!(!text_eq("a", "A"));
}

#[test]
fn merge_prefers_the_present_value() {
    assert_eq!(merge(Some("new".to_string()), "old".to_string()), "new");
    assert_eq!(merge(None, "old".to_string()), "old");
    assert_eq!(merge(Some(String::new()), "old".to_string()), "");
    assert_eq!(coalesce(Some("new".to_string()), None), Some("new".to_string()));
    assert_eq!(coalesce(None, Some("old".to_string())), Some("old".to_string()));
    assert_eq!(coalesce(Some("new".to_string()), Some("old".to_string())), Some("new".to_string()));
    assert_eq!(coalesce(None, None), None);
    let one = Date { julian_day: 1 };
    let two = Date { julian_day: 2 };
    assert_eq!(coalesce_date(Some(one), Some(two)), Some(one));
    assert_eq!(coalesce_date(None, Some(two)), Some(two));
    assert_eq!(coalesce_date(None, None), None);
}

#[test]
fn single_row_outcomes() {
    assert_eq!(found_or_missing(Some(3u8)).unwrap(), 3);
    assert!(matches!(found_or_missing::<u8>(None), Err(RepositoryError::NotFound)));
    assert!(!removed_any(0));
    assert!(removed_any(1));
    assert!(removed_any(u64::MAX));
}

#[test]
fn a_new_store_has_room() {
    let db = Database::new();
    assert!(db.has_room());
}
