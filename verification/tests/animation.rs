//! Tests of the sprite-sheet slicing and the walking-animation chooser.

use roll_play_ge::actor::{
    choose_walking_column, choose_walking_row, CharacterSheet, ChooserArgs, SpriteRect,
    WalkingSpriteChooser,
};

#[test]
fn stationary_column() {
    assert_eq!(1, choose_walking_column(1000, &ChooserArgs::from_vals(0, 0, 0)));
    assert_eq!(1, choose_walking_column(1000, &ChooserArgs::from_vals(0, 0, 1200)));
    assert_eq!(1, choose_walking_column(1000, &ChooserArgs::from_vals(0, 0, 2200)));
    assert_eq!(1, choose_walking_column(1000, &ChooserArgs::from_vals(0, 0, 3200)));
    assert_eq!(1, choose_walking_column(1000, &ChooserArgs::from_vals(0, 0, 4200)));
}

#[test]
fn walking_column() {
    assert_eq!(0, choose_walking_column(1000, &ChooserArgs::from_vals(1, 0, 0)));
    assert_eq!(1, choose_walking_column(1000, &ChooserArgs::from_vals(1, 0, 1100)));
    assert_eq!(2, choose_walking_column(1000, &ChooserArgs::from_vals(1, 0, 2200)));
    assert_eq!(1, choose_walking_column(1000, &ChooserArgs::from_vals(1, 0, 3300)));
    assert_eq!(0, choose_walking_column(1000, &ChooserArgs::from_vals(1, 0, 4400)));
    assert_eq!(1, choose_walking_column(1000, &ChooserArgs::from_vals(1, 0, 5500)));
    assert_eq!(2, choose_walking_column(1000, &ChooserArgs::from_vals(1, 0, 6600)));
    assert_eq!(1, choose_walking_column(1000, &ChooserArgs::from_vals(1, 0, 7700)));
    assert_eq!(0, choose_walking_column(1000, &ChooserArgs::from_vals(1, 0, 8800)));
}

#[test]
fn walking_column_cycle_at_slot_boundaries() {
    // Sampled exactly at t = k * dt, the column cycle is 0, 1, 2, 1,
    // repeating with period 4 * dt.
    let expected = [0u32, 1, 2, 1, 0, 1, 2, 1, 0, 1, 2, 1];
    for (k, want) in expected.iter().enumerate() {
        let t = (k as u64) * 200;
        assert_eq!(*want, choose_walking_column(200, &ChooserArgs::from_vals(0, -7, t)));
    }
}

#[test]
fn row_precedence() {
    // Positive vx beats vy.
    assert_eq!(1, choose_walking_row(0, &ChooserArgs::from_vals(5, -3, 0)));
    assert_eq!(1, choose_walking_row(0, &ChooserArgs::from_vals(5, 3, 0)));
    // Negative vx beats vy.
    assert_eq!(2, choose_walking_row(0, &ChooserArgs::from_vals(-5, 3, 0)));
    assert_eq!(2, choose_walking_row(0, &ChooserArgs::from_vals(-5, -3, 0)));
    // With vx == 0 the row follows vy's sign.
    assert_eq!(3, choose_walking_row(0, &ChooserArgs::from_vals(0, 9, 0)));
    assert_eq!(0, choose_walking_row(3, &ChooserArgs::from_vals(0, -9, 0)));
    // Stationary keeps the previous facing, whatever it was.
    assert_eq!(2, choose_walking_row(2, &ChooserArgs::from_vals(0, 0, 123)));
    assert_eq!(0, choose_walking_row(0, &ChooserArgs::from_vals(0, 0, 456)));
}

#[test]
fn sheet_from_texture_divides_evenly() {
    let sheet = CharacterSheet::from_texture(96, 128, 3, 4).unwrap();
    assert_eq!(3, sheet.tiles_wide());
    assert_eq!(4, sheet.tiles_high());
    assert_eq!(32, sheet.tile_width());
    assert_eq!(32, sheet.tile_height());
}

#[test]
fn sheet_from_texture_rejects_uneven_width() {
    let r = CharacterSheet::from_texture(97, 128, 3, 4);
    assert_eq!(
        "texture width not divisible by tiles_wide",
        r.err().unwrap()
    );
}

#[test]
fn sheet_from_texture_rejects_uneven_height() {
    let r = CharacterSheet::from_texture(96, 127, 3, 4);
    assert_eq!(
        "texture height not divisible by tiles_high",
        r.err().unwrap()
    );
}

#[test]
fn sheet_sprite_rects() {
    let sheet = CharacterSheet::from_texture(96, 128, 3, 4).unwrap();
    let rect = sheet.sprite(2, 1).unwrap();
    assert_eq!(
        SpriteRect { x: 64, y: 32, width: 32, height: 32 },
        rect
    );
    assert_eq!(
        "tile_column must be less than tiles_wide()",
        sheet.sprite(3, 0).err().unwrap()
    );
    assert_eq!(
        "tile_row must be less than tiles_high()",
        sheet.sprite(0, 4).err().unwrap()
    );
}

#[test]
fn chooser_requires_3x4_sheet() {
    let square = CharacterSheet::from_texture(128, 128, 4, 4).unwrap();
    let r = WalkingSpriteChooser::from_sheet(200, &square);
    assert_eq!(
        "WalkingSpriteChooser::from_sheet() requires a 3x4 tile CharacterSheet",
        r.err().unwrap()
    );
}

#[test]
fn chooser_walks_through_cells() {
    let sheet = CharacterSheet::from_texture(96, 128, 3, 4).unwrap();
    let mut chooser = WalkingSpriteChooser::from_sheet(200, &sheet).unwrap();

    // Moving right at t = 0: row 1, column 0.
    let rect = chooser.choose_frame(ChooserArgs::from_vals(7, 0, 0)).unwrap();
    assert_eq!(SpriteRect { x: 0, y: 32, width: 32, height: 32 }, rect);

    // Stationary afterwards: the facing is retained and the idle column 1
    // is shown, regardless of elapsed time.
    let rect = chooser.choose_frame(ChooserArgs::from_vals(0, 0, 5555)).unwrap();
    assert_eq!(SpriteRect { x: 32, y: 32, width: 32, height: 32 }, rect);

    // Moving up (negative vy) in the third phase slot: row 0, column 2.
    let rect = chooser.choose_frame(ChooserArgs::from_vals(0, -7, 450)).unwrap();
    assert_eq!(SpriteRect { x: 64, y: 0, width: 32, height: 32 }, rect);
}

#[test]
fn chosen_cell_always_within_sheet() {
    // Every combination of movement and time stays within the 3x4 grid.
    let sheet = CharacterSheet::from_texture(96, 128, 3, 4).unwrap();
    let mut chooser = WalkingSpriteChooser::from_sheet(100, &sheet).unwrap();
    for vx in [-9i64, 0, 9] {
        for vy in [-9i64, 0, 9] {
            for t in [0u64, 50, 99, 100, 250, 399, 400, 12345] {
                let rect = chooser.choose_frame(ChooserArgs::from_vals(vx, vy, t)).unwrap();
                assert!(rect.x <= 64 && rect.y <= 96);
                assert_eq!(32, rect.width);
                assert_eq!(32, rect.height);
            }
        }
    }
}
