//! Sprite-sheet slicing, the walking-animation chooser state machine, and the
//! actor: a named position/velocity entity that applies controller intent,
//! checks walkability and selects the frame to draw.

use vstd::prelude::*;
use vstd::arithmetic::div_mod::{
    lemma_div_by_multiple, lemma_fundamental_div_mod, lemma_fundamental_div_mod_converse,
    lemma_mod_bound, lemma_mod_multiples_vanish, lemma_multiply_divide_lt, lemma_small_mod,
};
use vstd::arithmetic::mul::lemma_mul_strict_inequality;

use crate::controller::Controller;
use crate::input::Input;
use crate::tilesheet::Tilesheet;

verus! {

/// A cell's pixel boundaries within a sheet texture: position of its top-left
/// corner and its size. Used by the render layer as the source rectangle when
/// it draws the cell.
#[derive(Clone, Copy, Debug, PartialEq, Eq, Structural)]
pub struct SpriteRect {
    pub x: u32,
    pub y: u32,
    pub width: u32,
    pub height: u32,
}

/// One texture sliced into a uniform grid of addressable tiles. The texture
/// itself stays with the render layer; the sheet holds its pixel geometry.
pub struct CharacterSheet {
    tiles_wide: u32,
    tiles_high: u32,
    tile_width: u32,
    tile_height: u32,
}

impl CharacterSheet {
    /// Number of tile columns in the sheet.
    pub closed spec fn spec_tiles_wide(&self) -> u32 {
        self.tiles_wide
    }

    /// Number of tile rows in the sheet.
    pub closed spec fn spec_tiles_high(&self) -> u32 {
        self.tiles_high
    }

    /// Width of one tile in pixels.
    pub closed spec fn spec_tile_width(&self) -> u32 {
        self.tile_width
    }

    /// Height of one tile in pixels.
    pub closed spec fn spec_tile_height(&self) -> u32 {
        self.tile_height
    }

    /// Well-formedness: the grid is nonempty and the whole sheet fits the
    /// pixel coordinate space, so every cell's boundaries do too.
    pub closed spec fn wf(&self) -> bool {
        &&& self.tiles_wide >= 1
        &&& self.tiles_high >= 1
        &&& self.tile_width * self.tiles_wide <= u32::MAX
        &&& self.tile_height * self.tiles_high <= u32::MAX
    }

    /// The pixel boundaries of the cell in column `col`, row `row`.
    pub open spec fn spec_rect(&self, col: int, row: int) -> SpriteRect {
        SpriteRect {
            x: (self.spec_tile_width() * col) as u32,
            y: (self.spec_tile_height() * row) as u32,
            width: self.spec_tile_width(),
            height: self.spec_tile_height(),
        }
    }

    pub fn tiles_wide(&self) -> (r: u32)
        ensures
            r == self.spec_tiles_wide(),
    {
        self.tiles_wide
    }

    pub fn tiles_high(&self) -> (r: u32)
        ensures
            r == self.spec_tiles_high(),
    {
        self.tiles_high
    }

    pub fn tile_width(&self) -> (r: u32)
        ensures
            r == self.spec_tile_width(),
    {
        self.tile_width
    }

    pub fn tile_height(&self) -> (r: u32)
        ensures
            r == self.spec_tile_height(),
    {
        self.tile_height
    }

    /// Create a character sheet from a texture's pixel dimensions.
    ///
    /// `width`, `height`: pixel size of the full character sheet texture.
    /// `tiles_wide`: number of tile columns in the texture.
    /// `tiles_high`: number of tile rows in the texture.
    ///
    /// Total tile count = `tiles_wide * tiles_high`.
    /// Returns an error if `width % tiles_wide != 0` or
    /// `height % tiles_high != 0`.
    /// Otherwise, returns the newly created `CharacterSheet` with the derived
    /// per-tile pixel size.
    pub fn from_texture(width: u32, height: u32, tiles_wide: u32, tiles_high: u32) -> (r: Result<
        Self,
        String,
    >)
        requires
            tiles_wide >= 1,
            tiles_high >= 1,
        ensures
            r is Ok <==> (width % tiles_wide == 0 && height % tiles_high == 0),
            r matches Ok(s) ==> {
                &&& s.wf()
                &&& s.spec_tiles_wide() == tiles_wide
                &&& s.spec_tiles_high() == tiles_high
                &&& s.spec_tile_width() == width / tiles_wide
                &&& s.spec_tile_height() == height / tiles_high
            },
            width % tiles_wide != 0 ==> (r matches Err(m) && m@
                == "texture width not divisible by tiles_wide"@),
            width % tiles_wide == 0 && height % tiles_high != 0 ==> (r matches Err(m) && m@
                == "texture height not divisible by tiles_high"@),
    {
        if width % tiles_wide != 0 {
            return Err("texture width not divisible by tiles_wide".to_owned());
        }
        if height % tiles_high != 0 {
            return Err("texture height not divisible by tiles_high".to_owned());
        }
        let tile_width = width / tiles_wide;
        let tile_height = height / tiles_high;
        proof {
            lemma_fundamental_div_mod(width as int, tiles_wide as int);
            lemma_fundamental_div_mod(height as int, tiles_high as int);
            assert(tile_width * tiles_wide == tiles_wide * tile_width) by (nonlinear_arith);
            assert(tile_height * tiles_high == tiles_high * tile_height) by (nonlinear_arith);
        }
        Ok(CharacterSheet { tiles_wide, tiles_high, tile_width, tile_height })
    }

    /// The source rectangle of the cell in column `tile_column`, row
    /// `tile_row`, or an error when the cell lies outside the grid.
    pub fn sprite(&self, tile_column: u32, tile_row: u32) -> (r: Result<SpriteRect, String>)
        requires
            self.wf(),
        ensures
            r is Ok <==> (tile_column < self.spec_tiles_wide() && tile_row
                < self.spec_tiles_high()),
            r matches Ok(rect) ==> rect == self.spec_rect(tile_column as int, tile_row as int),
            tile_column >= self.spec_tiles_wide() ==> (r matches Err(m) && m@
                == "tile_column must be less than tiles_wide()"@),
            tile_column < self.spec_tiles_wide() && tile_row >= self.spec_tiles_high() ==> (
            r matches Err(m) && m@ == "tile_row must be less than tiles_high()"@),
    {
        if tile_column >= self.tiles_wide {
            return Err("tile_column must be less than tiles_wide()".to_owned());
        }
        if tile_row >= self.tiles_high {
            return Err("tile_row must be less than tiles_high()".to_owned());
        }
        proof {
            assert(self.tile_width * tile_column <= u32::MAX) by (nonlinear_arith)
                requires
                    tile_column < self.tiles_wide,
                    self.tile_width * self.tiles_wide <= u32::MAX,
            ;
            assert(self.tile_height * tile_row <= u32::MAX) by (nonlinear_arith)
                requires
                    tile_row < self.tiles_high,
                    self.tile_height * self.tiles_high <= u32::MAX,
            ;
        }
        Ok(SpriteRect {
            x: self.tile_width * tile_column,
            y: self.tile_height * tile_row,
            width: self.tile_width,
            height: self.tile_height,
        })
    }
}

/// The arguments one frame choice is made from: the actor's velocity in
/// pixels per second and the cumulative game time in milliseconds.
#[derive(Clone, Copy, Debug, PartialEq, Eq, Structural)]
pub struct ChooserArgs {
    pub vx: i64,
    pub vy: i64,
    pub game_time_ms: u64,
}

impl ChooserArgs {
    pub fn from_vals(vx: i64, vy: i64, game_time_ms: u64) -> (r: Self)
        ensures
            r == (ChooserArgs { vx, vy, game_time_ms }),
    {
        ChooserArgs { vx, vy, game_time_ms }
    }
}

/// The phase slot of the walk cycle at game time `t_ms`: the cycle has four
/// slots of `dt_ms` milliseconds each, so the slot is in `{0, 1, 2, 3}`.
pub open spec fn walking_phase(dt_ms: u64, t_ms: u64) -> int
    recommends
        dt_ms > 0,
{
    (t_ms as int % (4 * dt_ms as int)) / (dt_ms as int)
}

/// The sheet column shown in phase slot `phase`: the mirrored walk cycle
/// 0, 1, 2, 1 (contact, mid, contact, mid), so slot 3 reuses the middle pose
/// rather than revisiting slot 0's.
pub open spec fn phase_column(phase: int) -> u32 {
    if phase == 0 {
        0u32
    } else if phase == 1 {
        1u32
    } else if phase == 2 {
        2u32
    } else {
        1u32
    }
}

/// The column of the walking sheet at game time `t_ms`: the idle (middle)
/// column when the actor is stationary, else the column of the current phase
/// slot.
pub open spec fn spec_walking_column(dt_ms: u64, vx: i64, vy: i64, t_ms: u64) -> u32 {
    if vx == 0 && vy == 0 {
        1u32
    } else {
        phase_column(walking_phase(dt_ms, t_ms))
    }
}

/// Selects the phase column of the walking sheet for velocity and game time
/// `args`. `dt_ms` is the duration of one phase slot. A stationary actor
/// always gets the idle column, 1; a moving one cycles 0, 1, 2, 1 as game
/// time advances in steps of `dt_ms`.
pub fn choose_walking_column(dt_ms: u64, args: &ChooserArgs) -> (r: u32)
    requires
        dt_ms > 0,
    ensures
        r == spec_walking_column(dt_ms, args.vx, args.vy, args.game_time_ms),
        args.vx == 0 && args.vy == 0 ==> r == 1,
        r < 3,
{
    if args.vx == 0 && args.vy == 0 {
        1  // Stationary
    } else {
        let period: u128 = 4u128 * (dt_ms as u128);
        let modulo: u128 = (args.game_time_ms as u128) % period;
        proof {
            lemma_mod_bound(args.game_time_ms as int, 4 * dt_ms as int);
            lemma_multiply_divide_lt(modulo as int, dt_ms as int, 4);
        }
        let factor: u64 = (modulo / (dt_ms as u128)) as u64;
        if factor == 0 {
            0
        } else if factor == 1 {
            1
        } else if factor == 2 {
            2
        } else {
            1
        }
    }
}

/// The row (facing direction) of the walking sheet for velocity `(vx, vy)`,
/// given the row of the previous choice. Horizontal movement beats vertical;
/// a stationary actor keeps its previous facing.
pub open spec fn spec_walking_row(previous_row: u32, vx: i64, vy: i64) -> u32 {
    if vx > 0 {
        1u32
    } else if vx < 0 {
        2u32
    } else if vy > 0 {
        3u32
    } else if vy < 0 {
        0u32
    } else {
        previous_row
    }
}

/// Selects the facing row of the walking sheet: row 1 when moving in positive
/// x, row 2 in negative x, row 3 in positive y, row 0 in negative y, and the
/// previous row when stationary.
pub fn choose_walking_row(previous_row: u32, args: &ChooserArgs) -> (r: u32)
    ensures
        r == spec_walking_row(previous_row, args.vx, args.vy),
        previous_row < 4 ==> r < 4,
        args.vx > 0 ==> r == 1,
        args.vx < 0 ==> r == 2,
        args.vx == 0 && args.vy > 0 ==> r == 3,
        args.vx == 0 && args.vy < 0 ==> r == 0,
        args.vx == 0 && args.vy == 0 ==> r == previous_row,
{
    if args.vx > 0 {
        1  // Right
    } else if args.vx < 0 {
        2  // Left
    } else if args.vy > 0 {
        3  // Down
    } else if args.vy < 0 {
        0  // Up
    } else {
        previous_row
    }
}

/// For every positive slot duration and every walking (nonzero) velocity, the
/// column sequence sampled at `t = k * dt_ms` is the cycle 0, 1, 2, 1: it
/// depends only on `k % 4`, so it is periodic with period `4 * dt_ms`.
pub proof fn lemma_walking_cycle(dt_ms: u64, k: nat, vx: i64, vy: i64)
    requires
        dt_ms > 0,
        !(vx == 0 && vy == 0),
        k * dt_ms <= u64::MAX,
    ensures
        spec_walking_column(dt_ms, vx, vy, (k * dt_ms) as u64) == seq![0u32, 1u32, 2u32, 1u32][(
        k % 4) as int],
{
    let d = dt_ms as int;
    let t = (k * dt_ms) as int;
    let q = (k / 4) as int;
    let s = (k % 4) as int;
    assert(k == 4 * q + s) by {
        lemma_fundamental_div_mod(k as int, 4);
    }
    assert(t == (4 * d) * q + s * d) by (nonlinear_arith)
        requires
            t == (4 * q + s) * d,
            d == dt_ms,
    ;
    assert(t % (4 * d) == (s * d) % (4 * d)) by {
        lemma_mod_multiples_vanish(q, s * d, 4 * d);
    }
    assert(s * d < 4 * d) by {
        lemma_mul_strict_inequality(s, 4, d);
    }
    assert(s * d >= 0) by (nonlinear_arith)
        requires
            s >= 0,
            d > 0,
    ;
    assert((s * d) % (4 * d) == s * d) by {
        lemma_small_mod((s * d) as nat, (4 * d) as nat);
    }
    assert((s * d) / d == s) by {
        lemma_div_by_multiple(s, d);
    }
    assert(walking_phase(dt_ms, (k * dt_ms) as u64) == s);
}

/// For every facing kept below four and every positive slot duration, the
/// chosen cell index `row * 3 + column` lies within the twelve cells of the
/// fixed 3x4 sheet.
pub proof fn lemma_cell_index_in_range(
    previous_row: u32,
    dt_ms: u64,
    vx: i64,
    vy: i64,
    t_ms: u64,
)
    requires
        previous_row < 4,
        dt_ms > 0,
    ensures
        0 <= spec_walking_row(previous_row, vx, vy) * 3 + spec_walking_column(
            dt_ms,
            vx,
            vy,
            t_ms,
        ) < 12,
{
}

/// The walking column is periodic in game time with period `4 * dt_ms`.
pub proof fn lemma_walking_period(dt_ms: u64, vx: i64, vy: i64, t_ms: u64)
    requires
        dt_ms > 0,
        t_ms + 4 * dt_ms <= u64::MAX,
    ensures
        spec_walking_column(dt_ms, vx, vy, (t_ms + 4 * dt_ms) as u64) == spec_walking_column(
            dt_ms,
            vx,
            vy,
            t_ms,
        ),
{
    let d = dt_ms as int;
    let t = t_ms as int;
    assert((t + 4 * d) % (4 * d) == t % (4 * d)) by {
        lemma_mod_multiples_vanish(1, t, 4 * d);
    }
}

/// The mathematical model of a walking-sprite chooser: its cell list, its
/// phase-slot duration and the facing row of its previous choice.
pub ghost struct ChooserView {
    pub sprites: Seq<SpriteRect>,
    pub dt_ms: u64,
    pub previous_row: u32,
}

impl ChooserView {
    /// Well-formedness: the facing is one of the four sheet rows, the slot
    /// duration is positive, and the cell list is either the full 3x4 sheet
    /// or empty (the "nothing to draw" degenerate case).
    pub open spec fn wf(self) -> bool {
        &&& self.previous_row < 4
        &&& self.dt_ms > 0
        &&& (self.sprites.len() == 12 || self.sprites.len() == 0)
    }
}

/// The walking-animation chooser: the only stateful, history-dependent entity
/// of the core. It owns the twelve cells of a 3x4 walking sheet in row-major
/// order and remembers the facing row of its previous choice.
pub struct WalkingSpriteChooser {
    sprite: Vec<SpriteRect>,
    dt_ms: u64,  // time between sprite transitions, in milliseconds
    previous_row: u32,  // previous row used from the sprite sheet
}

impl View for WalkingSpriteChooser {
    type V = ChooserView;

    closed spec fn view(&self) -> ChooserView {
        ChooserView { sprites: self.sprite@, dt_ms: self.dt_ms, previous_row: self.previous_row }
    }
}

impl WalkingSpriteChooser {
    /// Slices a 3-column, 4-row character sheet into the chooser's cell list,
    /// row-major, starting with an upward facing. `dt_ms` is the duration of
    /// one phase slot of the walk cycle in milliseconds. Any other sheet
    /// shape is rejected: this chooser is hard-wired to the 3x4 layout.
    pub fn from_sheet(dt_ms: u64, sheet: &CharacterSheet) -> (r: Result<Self, String>)
        requires
            dt_ms > 0,
            sheet.wf(),
        ensures
            r is Ok <==> (sheet.spec_tiles_wide() == 3 && sheet.spec_tiles_high() == 4),
            r matches Ok(c) ==> c@ == (ChooserView {
                sprites: Seq::new(12, |i: int| sheet.spec_rect(i % 3, i / 3)),
                dt_ms,
                previous_row: 0u32,
            }),
            r matches Ok(c) ==> c@.wf(),
            !(sheet.spec_tiles_wide() == 3 && sheet.spec_tiles_high() == 4) ==> (r matches Err(m)
                && m@ == "WalkingSpriteChooser::from_sheet() requires a 3x4 tile CharacterSheet"@),
    {
        if sheet.tiles_high() != 4 || sheet.tiles_wide() != 3 {
            return Err(
                "WalkingSpriteChooser::from_sheet() requires a 3x4 tile CharacterSheet".to_owned(),
            );
        }

        let mut sprite_list: Vec<SpriteRect> = Vec::new();
        let mut row: u32 = 0;
        while row < 4
            invariant
                row <= 4,
                sheet.wf(),
                sheet.spec_tiles_wide() == 3,
                sheet.spec_tiles_high() == 4,
                sprite_list@.len() == row * 3,
                forall|i: int|
                    0 <= i < sprite_list@.len() ==> sprite_list@[i] == sheet.spec_rect(
                        i % 3,
                        i / 3,
                    ),
            decreases 4 - row,
        {
            let mut col: u32 = 0;
            while col < 3
                invariant
                    row < 4,
                    col <= 3,
                    sheet.wf(),
                    sheet.spec_tiles_wide() == 3,
                    sheet.spec_tiles_high() == 4,
                    sprite_list@.len() == row * 3 + col,
                    forall|i: int|
                        0 <= i < sprite_list@.len() ==> sprite_list@[i] == sheet.spec_rect(
                            i % 3,
                            i / 3,
                        ),
                decreases 3 - col,
            {
                let sprite = match sheet.sprite(col, row) {
                    Ok(s) => s,
                    Err(e) => {
                        return Err(e);
                    },
                };
                proof {
                    lemma_fundamental_div_mod_converse(
                        row as int * 3 + col as int,
                        3,
                        row as int,
                        col as int,
                    );
                }
                sprite_list.push(sprite);
                col = col + 1;
            }
            row = row + 1;
        }

        let chooser = WalkingSpriteChooser { sprite: sprite_list, dt_ms, previous_row: 0 };
        proof {
            assert(chooser@.sprites =~= Seq::new(12, |i: int| sheet.spec_rect(i % 3, i / 3)));
        }
        Ok(chooser)
    }

    /// One step of the chooser state machine: selects the facing row from the
    /// velocity in `args` (committing it as the new previous facing) and the
    /// phase column from the game time, and returns the cell at
    /// `row * 3 + column`. An empty cell list yields `None` ("no frame
    /// available") and leaves the chooser unchanged.
    pub fn choose_frame(&mut self, args: ChooserArgs) -> (r: Option<SpriteRect>)
        requires
            old(self)@.wf(),
        ensures
            final(self)@.wf(),
            final(self)@.sprites == old(self)@.sprites,
            final(self)@.dt_ms == old(self)@.dt_ms,
            old(self)@.sprites.len() == 0 ==> r is None && final(self)@ == old(self)@,
            old(self)@.sprites.len() != 0 ==> ({
                let row = spec_walking_row(old(self)@.previous_row, args.vx, args.vy);
                let col = spec_walking_column(old(self)@.dt_ms, args.vx, args.vy, args.game_time_ms);
                &&& final(self)@.previous_row == row
                &&& r == Some(old(self)@.sprites[row * 3 + col])
            }),
    {
        match self.sprite.len() {
            0 => None,
            _ => {
                let column = choose_walking_column(self.dt_ms, &args);
                self.previous_row = choose_walking_row(self.previous_row, &args);
                let idx = (self.previous_row * 3 + column) as usize;
                Some(self.sprite[idx])
            },
        }
    }
}

/// A recoverable failure of `Actor::draw`.
#[derive(Clone, Copy, Debug, PartialEq, Eq, Structural)]
pub enum ActorDrawError {
    /// The selected chooser has an empty cell list; skip drawing this frame.
    NothingToDraw,
    /// No chooser of the given name was inserted; a programming-invariant
    /// violation in the caller.
    NoSuchName,
}

/// The mathematical model of an actor: position in millipixels, velocity in
/// pixels per second, and the named animation choosers.
pub ghost struct ActorView {
    pub x: i64,
    pub y: i64,
    pub vx: i64,
    pub vy: i64,
    pub choosers: Seq<(Seq<char>, ChooserView)>,
}

/// Whether the chooser table `m` holds an entry named `name`.
pub open spec fn has_chooser(m: Seq<(Seq<char>, ChooserView)>, name: Seq<char>) -> bool {
    exists|i: int| 0 <= i < m.len() && (#[trigger] m[i]).0 == name
}

/// The position of the entry named `name` in the chooser table `m`. Entry
/// names are unique in a well-formed actor, so the position is determined.
pub open spec fn chooser_index(m: Seq<(Seq<char>, ChooserView)>, name: Seq<char>) -> int {
    choose|i: int| 0 <= i < m.len() && (#[trigger] m[i]).0 == name
}

/// The map layer the walkability check is made against.
pub const GROUND_LAYER_INDEX: usize = 0;

/// One velocity component of the controller intent:
/// `walk_rate * (pos - neg)`, each flag contributing one.
pub open spec fn spec_axis(walk_rate: u32, pos: bool, neg: bool) -> int {
    (if pos {
        walk_rate as int
    } else {
        0
    }) - (if neg {
        walk_rate as int
    } else {
        0
    })
}

/// Saturation of an unbounded position to the representable range.
pub open spec fn clip_i64(v: int) -> i64 {
    if v > i64::MAX {
        i64::MAX
    } else if v < i64::MIN {
        i64::MIN
    } else {
        v as i64
    }
}

/// Truncating conversion from millipixels to whole pixels. It rounds toward
/// zero, as truncation of a fractional pixel coordinate does.
pub open spec fn mpx_to_px(v: i64) -> int {
    if v >= 0 {
        v as int / 1000
    } else {
        0 - ((0 - v as int) / 1000)
    }
}

/// What one control step does to an actor at `(x, y)`: the intended velocity
/// is read off the four directional flags times the walk rate; the proposed
/// position adds a full tick's displacement on both axes; the position is
/// committed only when the ground layer is walkable at the proposed point,
/// while the velocity always reflects the intent. Returns
/// `(x, y, vx, vy)` after the step.
pub open spec fn control_spec(
    x: i64,
    y: i64,
    input: Input,
    walk_rate: u32,
    dt_ms: u32,
    tilesheet: Tilesheet,
) -> (i64, i64, i64, i64) {
    let vy = spec_axis(walk_rate, input.up, input.down);
    let vx = spec_axis(walk_rate, input.left, input.right);
    let nx = clip_i64(x + dt_ms * vx);
    let ny = clip_i64(y + dt_ms * vy);
    if tilesheet.spec_walkable(GROUND_LAYER_INDEX as int, mpx_to_px(nx), mpx_to_px(ny)) {
        (nx, ny, vx as i64, vy as i64)
    } else {
        (x, y, vx as i64, vy as i64)
    }
}

fn saturate_i64(v: i128) -> (r: i64)
    ensures
        r == clip_i64(v as int),
{
    if v > i64::MAX as i128 {
        i64::MAX
    } else if v < i64::MIN as i128 {
        i64::MIN
    } else {
        v as i64
    }
}

fn to_px(v: i64) -> (r: i64)
    ensures
        r == mpx_to_px(v),
{
    if v >= 0 {
        let a: u64 = v as u64;
        let q: u64 = a / 1000;
        q as i64
    } else {
        let a: u64 = (-(v as i128)) as u64;
        let q: u64 = a / 1000;
        -(q as i64)
    }
}

/// A named position/velocity entity owning a set of named animation choosers.
/// Position is in millipixels; velocity in pixels per second. Position is
/// mutated only by the controller-driven `control` step, gated by the
/// walkability check.
pub struct Actor {
    /// Position, in millipixels.
    pub x: i64,
    pub y: i64,
    /// Velocity, in pixels per second.
    pub vx: i64,
    pub vy: i64,
    chooser_map: Vec<(String, WalkingSpriteChooser)>,
}

impl View for Actor {
    type V = ActorView;

    closed spec fn view(&self) -> ActorView {
        ActorView {
            x: self.x,
            y: self.y,
            vx: self.vx,
            vy: self.vy,
            choosers: self.chooser_map@.map_values(
                |p: (String, WalkingSpriteChooser)| (p.0@, p.1@),
            ),
        }
    }
}

impl Actor {
    /// Well-formedness: chooser names are unique and every chooser is
    /// well-formed.
    pub open spec fn wf(&self) -> bool {
        &&& forall|i: int|
            0 <= i < self@.choosers.len() ==> (#[trigger] self@.choosers[i]).1.wf()
        &&& forall|i: int, j: int|
            0 <= i < j < self@.choosers.len() ==> (#[trigger] self@.choosers[i]).0 != (
            #[trigger] self@.choosers[j]).0
    }

    pub fn new() -> (r: Self)
        ensures
            r@ == (ActorView {
                x: 0i64,
                y: 0i64,
                vx: 0i64,
                vy: 0i64,
                choosers: Seq::<(Seq<char>, ChooserView)>::empty(),
            }),
            r.wf(),
    {
        let a = Actor { x: 0, y: 0, vx: 0, vy: 0, chooser_map: Vec::new() };
        proof {
            assert(a@.choosers =~= Seq::<(Seq<char>, ChooserView)>::empty());
        }
        a
    }

    /// The position of the chooser named `name`, or `None` when the actor
    /// holds none of that name.
    fn find_chooser(&self, name: &String) -> (r: Option<usize>)
        ensures
            match r {
                Some(j) => j < self@.choosers.len() && self@.choosers[j as int].0 == name@,
                None => !has_chooser(self@.choosers, name@),
            },
    {
        let mut j: usize = 0;
        while j < self.chooser_map.len()
            invariant
                j <= self.chooser_map@.len(),
                forall|k: int| 0 <= k < j ==> (#[trigger] self@.choosers[k]).0 != name@,
            decreases self.chooser_map@.len() - j,
        {
            if self.chooser_map[j].0 == *name {
                return Some(j);
            }
            j = j + 1;
        }
        None
    }

    /// Insert a named chooser. The given `name` is used as a handle to
    /// `draw()`. If `name` already existed in the chooser map, the previous
    /// chooser is returned. Otherwise returns `None`.
    pub fn insert_chooser(&mut self, name: String, chooser: WalkingSpriteChooser) -> (r: Option<
        WalkingSpriteChooser,
    >)
        requires
            old(self).wf(),
            chooser@.wf(),
        ensures
            final(self).wf(),
            final(self)@.x == old(self)@.x,
            final(self)@.y == old(self)@.y,
            final(self)@.vx == old(self)@.vx,
            final(self)@.vy == old(self)@.vy,
            has_chooser(old(self)@.choosers, name@) ==> ({
                let i = chooser_index(old(self)@.choosers, name@);
                &&& (r matches Some(prev) && prev@ == old(self)@.choosers[i].1)
                &&& final(self)@.choosers == old(self)@.choosers.update(i, (name@, chooser@))
            }),
            !has_chooser(old(self)@.choosers, name@) ==> r is None && final(self)@.choosers == old(
                self,
            )@.choosers.push((name@, chooser@)),
            has_chooser(final(self)@.choosers, name@),
    {
        match self.find_chooser(&name) {
            Some(j) => {
                let ghost oldmap = self@.choosers;
                let ghost i = chooser_index(oldmap, name@);
                proof {
                    assert(oldmap[j as int].0 == name@);
                    assert(has_chooser(oldmap, name@));
                    if i != j {
                        if i < j {
                            assert(oldmap[i].0 != oldmap[j as int].0);
                        } else {
                            assert(oldmap[j as int].0 != oldmap[i].0);
                        }
                        assert(false);
                    }
                }
                let pair = self.chooser_map.remove(j);
                self.chooser_map.insert(j, (name, chooser));
                proof {
                    assert(self@.choosers =~= oldmap.update(j as int, (name@, chooser@)));
                    assert forall|k1: int, k2: int|
                        0 <= k1 < k2 < self@.choosers.len() implies (#[trigger] self@.choosers[
                        k1]).0 != (#[trigger] self@.choosers[k2]).0 by {
                        assert(oldmap[k1].0 != oldmap[k2].0);
                    }
                    assert(self@.choosers[j as int].0 == name@);
                }
                Some(pair.1)
            },
            None => {
                let ghost oldmap = self@.choosers;
                self.chooser_map.push((name, chooser));
                proof {
                    assert(self@.choosers =~= oldmap.push((name@, chooser@)));
                    assert(self@.choosers[oldmap.len() as int].0 == name@);
                }
                None
            },
        }
    }

    /// Applies the controller intent for one tick: sets the velocity from the
    /// directional flags times the walk rate, proposes the full displacement
    /// of the tick on both axes, and commits it only when the ground layer is
    /// walkable at the proposed point. The velocity always reflects the
    /// intent, so facing and animation follow it even when the move is
    /// rejected.
    pub fn control(&mut self, controller: &Controller, tilesheet: &Tilesheet)
        requires
            tilesheet.wf(),
        ensures
            ({
                let t = control_spec(
                    old(self)@.x,
                    old(self)@.y,
                    controller.input,
                    controller.walk_rate,
                    controller.dt_ms,
                    *tilesheet,
                );
                &&& final(self)@.x == t.0
                &&& final(self)@.y == t.1
                &&& final(self)@.vx == t.2
                &&& final(self)@.vy == t.3
            }),
            final(self)@.choosers == old(self)@.choosers,
            old(self).wf() ==> final(self).wf(),
    {
        let rate = controller.walk_rate as i64;
        let vy: i64 = (if controller.input.up {
            rate
        } else {
            0
        }) - (if controller.input.down {
            rate
        } else {
            0
        });
        let vx: i64 = (if controller.input.left {
            rate
        } else {
            0
        }) - (if controller.input.right {
            rate
        } else {
            0
        });
        self.vy = vy;
        self.vx = vx;
        let dt = controller.dt_ms as i128;
        proof {
            assert(dt * vy <= dt * (u32::MAX as i128) && dt * vy >= dt * (-(u32::MAX as i128)))
                by (nonlinear_arith)
                requires
                    dt >= 0,
                    -(u32::MAX as i128) <= vy <= u32::MAX as i128,
            ;
            assert(dt * (u32::MAX as i128) <= (u32::MAX as i128) * (u32::MAX as i128))
                by (nonlinear_arith)
                requires
                    0 <= dt <= u32::MAX as i128,
            ;
            assert(dt * vx <= dt * (u32::MAX as i128) && dt * vx >= dt * (-(u32::MAX as i128)))
                by (nonlinear_arith)
                requires
                    dt >= 0,
                    -(u32::MAX as i128) <= vx <= u32::MAX as i128,
            ;
            assert(dt * (-(u32::MAX as i128)) >= -((u32::MAX as i128) * (u32::MAX as i128)))
                by (nonlinear_arith)
                requires
                    0 <= dt <= u32::MAX as i128,
            ;
        }
        let proposed_y: i64 = saturate_i64(self.y as i128 + dt * (vy as i128));
        let proposed_x: i64 = saturate_i64(self.x as i128 + dt * (vx as i128));
        if tilesheet.is_walkable(GROUND_LAYER_INDEX, to_px(proposed_x), to_px(proposed_y)) {
            self.x = proposed_x;
            self.y = proposed_y;
        }
        proof {
            assert(self@.choosers == old(self)@.choosers);
            if old(self).wf() {
                assert forall|i: int|
                    0 <= i < self@.choosers.len() implies (#[trigger] self@.choosers[
                i]).1.wf() by {
                    assert(old(self)@.choosers[i].1.wf());
                }
                assert forall|i: int, j: int|
                    0 <= i < j < self@.choosers.len() implies (#[trigger] self@.choosers[i]).0 != (
                #[trigger] self@.choosers[j]).0 by {
                    assert(old(self)@.choosers[i].0 != old(self)@.choosers[j].0);
                }
            }
        }
    }

    /// Selects the frame to draw for the animation named `name` at game time
    /// `game_time_ms`: steps that chooser with the actor's current velocity
    /// and returns the chosen cell, whose rectangle the render layer draws.
    /// An unknown name is reported with `NoSuchName`; a chooser with an empty
    /// cell list with `NothingToDraw`.
    pub fn draw(&mut self, name: &str, game_time_ms: u64) -> (r: Result<
        SpriteRect,
        ActorDrawError,
    >)
        requires
            old(self).wf(),
        ensures
            final(self).wf(),
            final(self)@.x == old(self)@.x,
            final(self)@.y == old(self)@.y,
            final(self)@.vx == old(self)@.vx,
            final(self)@.vy == old(self)@.vy,
            !has_chooser(old(self)@.choosers, name@) ==> r == Err::<SpriteRect, ActorDrawError>(
                ActorDrawError::NoSuchName,
            ) && final(self)@ == old(self)@,
            has_chooser(old(self)@.choosers, name@) ==> ({
                let i = chooser_index(old(self)@.choosers, name@);
                let c = old(self)@.choosers[i].1;
                &&& c.sprites.len() == 0 ==> r == Err::<SpriteRect, ActorDrawError>(
                    ActorDrawError::NothingToDraw,
                ) && final(self)@ == old(self)@
                &&& c.sprites.len() != 0 ==> ({
                    let row = spec_walking_row(c.previous_row, old(self)@.vx, old(self)@.vy);
                    let col = spec_walking_column(
                        c.dt_ms,
                        old(self)@.vx,
                        old(self)@.vy,
                        game_time_ms,
                    );
                    &&& r == Ok::<SpriteRect, ActorDrawError>(c.sprites[row * 3 + col])
                    &&& final(self)@.choosers == old(self)@.choosers.update(
                        i,
                        (old(self)@.choosers[i].0, (ChooserView { previous_row: row, ..c })),
                    )
                })
            }),
    {
        let owned: String = name.to_owned();
        // Draw the correct frame from the correct animation.
        match self.find_chooser(&owned) {
            Some(j) => {
                let ghost oldmap = self@.choosers;
                let ghost i = chooser_index(oldmap, name@);
                proof {
                    assert(oldmap[j as int].0 == name@);
                    assert(has_chooser(oldmap, name@));
                    if i != j {
                        if i < j {
                            assert(oldmap[i].0 != oldmap[j as int].0);
                        } else {
                            assert(oldmap[j as int].0 != oldmap[i].0);
                        }
                        assert(false);
                    }
                }
                let args = ChooserArgs::from_vals(self.vx, self.vy, game_time_ms);
                let (nm, mut chooser) = self.chooser_map.remove(j);
                let choice = chooser.choose_frame(args);
                self.chooser_map.insert(j, (nm, chooser));
                proof {
                    assert(self@.choosers =~= oldmap.update(j as int, (nm@, chooser@)));
                    assert forall|k1: int, k2: int|
                        0 <= k1 < k2 < self@.choosers.len() implies (#[trigger] self@.choosers[
                        k1]).0 != (#[trigger] self@.choosers[k2]).0 by {
                        assert(oldmap[k1].0 != oldmap[k2].0);
                    }
                    if oldmap[j as int].1.sprites.len() == 0 {
                        assert(self@.choosers =~= oldmap);
                    } else {
                        assert(chooser@ == (ChooserView {
                            previous_row: spec_walking_row(
                                oldmap[j as int].1.previous_row,
                                old(self)@.vx,
                                old(self)@.vy,
                            ),
                            ..oldmap[j as int].1
                        }));
                    }
                }
                match choice {
                    Some(rect) => Ok(rect),
                    None => Err(ActorDrawError::NothingToDraw),
                }
            },
            None => Err(ActorDrawError::NoSuchName),
        }
    }
}

} // verus!
