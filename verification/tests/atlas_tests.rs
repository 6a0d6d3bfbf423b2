use platformer_core::atlas::{AtlasBuilder, FrameRect};

#[test]
fn tile_sheet_is_cut_into_full_rows() {
    // A 176 x 135 sheet of 16 x 16 cells: 11 columns, 8 full rows.
    let frames = AtlasBuilder::load(16, 16, 176, 135).build();
    assert_eq!(frames.len(), 88);
    assert_eq!(frames[0], FrameRect { min_x: 0, min_y: 0, max_x: 16, max_y: 16 });
    assert_eq!(frames[10], FrameRect { min_x: 160, min_y: 0, max_x: 176, max_y: 16 });
    assert_eq!(frames[11], FrameRect { min_x: 0, min_y: 16, max_x: 16, max_y: 32 });
    assert_eq!(frames[87], FrameRect { min_x: 160, min_y: 112, max_x: 176, max_y: 128 });
}

#[test]
fn character_strip_is_one_row() {
    let frames = AtlasBuilder::load(32, 32, 160, 32).build();
    assert_eq!(frames.len(), 5);
    assert_eq!(frames[4], FrameRect { min_x: 128, min_y: 0, max_x: 160, max_y: 32 });
}

#[test]
fn padding_shaves_each_frame() {
    let frames = AtlasBuilder::load(32, 32, 64, 32).padding(2, 3).build();
    assert_eq!(frames.len(), 2);
    assert_eq!(frames[0], FrameRect { min_x: 2, min_y: 3, max_x: 30, max_y: 29 });
    assert_eq!(frames[1], FrameRect { min_x: 34, min_y: 3, max_x: 62, max_y: 29 });
}

#[test]
fn offset_moves_the_cut_origin() {
    let frames = AtlasBuilder::load(16, 16, 48, 16).offset(8, 0).build();
    // With the origin moved 8 pixels right only two columns still fit.
    assert_eq!(frames.len(), 2);
    assert_eq!(frames[0], FrameRect { min_x: 8, min_y: 0, max_x: 24, max_y: 16 });
}

#[test]
fn sheet_smaller_than_a_row_is_empty() {
    let frames = AtlasBuilder::load(16, 16, 32, 8).build();
    assert!(frames.is_empty());
}
