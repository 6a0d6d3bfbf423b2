use platformer_core::roster::{enemy_spawns, ext_of_content_type, sheet_source, EnemyInfo, EnemyList};

fn info(user: &str, lgtm: u32) -> EnemyInfo {
    EnemyInfo { user: user.to_string(), lgtm, ext: "png".to_string() }
}

#[test]
fn content_type_extensions() {
    assert_eq!(ext_of_content_type(&"image/gif".to_string()), Some("gif"));
    assert_eq!(ext_of_content_type(&"image/png".to_string()), Some("png"));
    assert_eq!(ext_of_content_type(&"image/jpg".to_string()), Some("jpg"));
    assert_eq!(ext_of_content_type(&"image/jpeg".to_string()), Some("jpg"));
}

#[test]
fn unsupported_content_type_is_refused() {
    assert_eq!(ext_of_content_type(&"image/webp".to_string()), None);
    assert_eq!(ext_of_content_type(&"text/html".to_string()), None);
    assert_eq!(ext_of_content_type(&"".to_string()), None);
}

#[test]
fn spawns_are_capped_and_spaced() {
    let list = EnemyList {
        enemies: vec![info("a", 10), info("b", 3), info("c", 7), info("d", 99)],
    };
    let spawns = enemy_spawns(&list);
    assert_eq!(spawns.len(), 3, "only the first three records spawn");
    assert_eq!(spawns[0], (10, 500, -500));
    assert_eq!(spawns[1], (3, 680, -500));
    assert_eq!(spawns[2], (7, 860, -500));
}

#[test]
fn short_roster_spawns_all() {
    let list = EnemyList { enemies: vec![info("a", 1)] };
    let spawns = enemy_spawns(&list);
    assert_eq!(spawns, vec![(1, 500, -500)]);
}

#[test]
fn sheet_pixel_source() {
    assert_eq!(sheet_source(0, 32), (0, 0));
    assert_eq!(sheet_source(31, 32), (0, 31));
    assert_eq!(sheet_source(32, 32), (1, 0));
    assert_eq!(sheet_source(100, 32), (3, 4));
}
