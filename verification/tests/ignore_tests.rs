use platformer_core::ignore::{Ignore, IgnoreDetail, IgnoreEntry};

fn list() -> Ignore {
    Ignore(vec![
        IgnoreEntry::User("alice".to_string()),
        IgnoreEntry::Detail(IgnoreDetail { name: "bob".to_string(), image_only: true }),
        IgnoreEntry::Detail(IgnoreDetail { name: "carol".to_string(), image_only: false }),
    ])
}

#[test]
fn bare_name_skips_user_entirely() {
    let ignore = list();
    assert!(ignore.skip(&"alice".to_string()));
    assert!(ignore.skip_image(&"alice".to_string()));
}

#[test]
fn image_only_entry_replaces_image_but_keeps_user() {
    let ignore = list();
    assert!(!ignore.skip(&"bob".to_string()));
    assert!(ignore.skip_image(&"bob".to_string()));
}

#[test]
fn detailed_entry_without_image_only_skips() {
    let ignore = list();
    assert!(ignore.skip(&"carol".to_string()));
    assert!(ignore.skip_image(&"carol".to_string()));
}

#[test]
fn unlisted_user_passes() {
    let ignore = list();
    assert!(!ignore.skip(&"dave".to_string()));
    assert!(!ignore.skip_image(&"dave".to_string()));
    assert!(ignore.get(&"dave".to_string()).is_none());
}

#[test]
fn get_returns_first_match() {
    let ignore = Ignore(vec![
        IgnoreEntry::Detail(IgnoreDetail { name: "eve".to_string(), image_only: true }),
        IgnoreEntry::User("eve".to_string()),
    ]);
    let d = ignore.get(&"eve".to_string()).unwrap();
    assert_eq!(d.name, "eve");
    assert!(d.image_only, "the first entry wins");
}

#[test]
fn bare_name_detail_is_not_image_only() {
    let ignore = list();
    let d = ignore.get(&"alice".to_string()).unwrap();
    assert_eq!(d.name, "alice");
    assert!(!d.image_only);
}

#[test]
fn default_list_is_empty() {
    let ignore = Ignore::default();
    assert!(!ignore.skip(&"anyone".to_string()));
    assert!(!ignore.skip_image(&"anyone".to_string()));
}
