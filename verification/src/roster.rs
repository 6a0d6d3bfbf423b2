use vstd::prelude::*;

verus! {

/// One record of the enemy roster: a user name, the count that becomes
/// the enemy's life, and the image extension of the fetched portrait.
#[derive(Clone, PartialEq, Eq, Debug)]
pub struct EnemyInfo {
    pub user: String,
    pub lgtm: u32,
    pub ext: String,
}

/// The enemy roster, in file order.
#[derive(Clone, PartialEq, Eq, Debug)]
pub struct EnemyList {
    pub enemies: Vec<EnemyInfo>,
}

/// How many roster records actually spawn.
pub const MAX_ENEMIES: usize = 3;

/// Horizontal spacing of the enemy spawn row.
pub const ENEMY_SPACING: i32 = 180;

/// Where the spawn row starts.
pub const ENEMY_ROW_X: i32 = 500;

/// Height at which enemies spawn.
pub const ENEMY_ROW_Y: i32 = -500;

/// The enemies actually spawned: the first records, up to the cap, each
/// carrying its record's count as life and standing in the spawn row.
pub fn enemy_spawns(list: &EnemyList) -> (r: Vec<(u32, i32, i32)>)
    ensures
        r@.len() == if list.enemies@.len() < MAX_ENEMIES as int {
            list.enemies@.len() as int
        } else {
            MAX_ENEMIES as int
        },
        forall|i: int| 0 <= i < r@.len() ==> #[trigger] r@[i] == (
            list.enemies@[i].lgtm,
            (ENEMY_ROW_X + ENEMY_SPACING * i) as i32,
            ENEMY_ROW_Y,
        ),
{
    let count = if list.enemies.len() < MAX_ENEMIES {
        list.enemies.len()
    } else {
        MAX_ENEMIES
    };
    let mut r: Vec<(u32, i32, i32)> = Vec::new();
    let mut i: usize = 0;
    while i < count
        invariant
            i <= count,
            count <= MAX_ENEMIES,
            count <= list.enemies@.len(),
            count == if list.enemies@.len() < MAX_ENEMIES as int {
                list.enemies@.len() as int
            } else {
                MAX_ENEMIES as int
            },
            r@.len() == i,
            forall|j: int| 0 <= j < i ==> #[trigger] r@[j] == (
                list.enemies@[j].lgtm,
                (ENEMY_ROW_X + ENEMY_SPACING * j) as i32,
                ENEMY_ROW_Y,
            ),
        decreases count - i,
    {
        let x = ENEMY_ROW_X + ENEMY_SPACING * (i as i32);
        r.push((list.enemies[i].lgtm, x, ENEMY_ROW_Y));
        i += 1;
    }
    r
}

/// The file extension for a fetched image's content type; `None` is the
/// unsupported case the fetcher refuses.
pub fn ext_of_content_type(ctype: &String) -> (r: Option<&'static str>)
    ensures
        ctype@ == "image/gif"@ ==> r.is_some() && r.unwrap()@ == "gif"@,
        ctype@ == "image/png"@ ==> r.is_some() && r.unwrap()@ == "png"@,
        (ctype@ == "image/jpg"@ || ctype@ == "image/jpeg"@) ==> r.is_some() && r.unwrap()@
            == "jpg"@,
        !(ctype@ == "image/gif"@ || ctype@ == "image/png"@ || ctype@ == "image/jpg"@ || ctype@
            == "image/jpeg"@) ==> r.is_none(),
{
    proof {
        reveal_strlit("image/gif");
        reveal_strlit("image/png");
        reveal_strlit("image/jpg");
        reveal_strlit("image/jpeg");
        assert("image/gif"@[6] == 'g' && "image/png"@[6] == 'p' && "image/jpg"@[6] == 'j');
        assert("image/gif"@ != "image/png"@ && "image/gif"@ != "image/jpg"@ && "image/png"@
            != "image/jpg"@);
        assert("image/jpeg"@.len() != "image/gif"@.len() && "image/jpeg"@.len()
            != "image/png"@.len() && "image/jpeg"@.len() != "image/jpg"@.len());
    }
    if *ctype == "image/gif".to_owned() {
        Some("gif")
    } else if *ctype == "image/png".to_owned() {
        Some("png")
    } else if *ctype == "image/jpg".to_owned() || *ctype == "image/jpeg".to_owned() {
        Some("jpg")
    } else {
        None
    }
}

/// Which source image and pixel one combined-sheet pixel reads when the
/// processed portraits are merged side by side: sheet column `x` comes
/// from image `x / tile`, at its column `x % tile`.
pub fn sheet_source(x: u32, tile: u32) -> (r: (u32, u32))
    requires
        tile > 0,
    ensures
        r.0 == x / tile,
        r.1 == x % tile,
{
    (x / tile, x % tile)
}

} // verus!
