//! Game-state orchestration: one tick folds a window event into the
//! controller, advances the cumulative game time, and drives the hero's
//! control step against the map. The window layer pumps the events, renders
//! what the accessors expose, and sends the returned input bits to the
//! network layer.

use vstd::prelude::*;

use crate::actor::{control_spec, Actor, CharacterSheet, ChooserView, SpriteRect, WalkingSpriteChooser};
use crate::controller::{event_result, spec_default_keybindings, ControlEvent, Controller};
use crate::input::input_idle;
use crate::tilesheet::Tilesheet;

verus! {

/// Duration of one phase slot of the hero's walk cycle, in milliseconds.
pub const HERO_WALK_SLOT_MS: u64 = 200;

/// `a + b`, saturated at the top of the counter's range.
pub open spec fn sat_add_u64(a: u64, b: u64) -> u64 {
    if a + b > u64::MAX {
        u64::MAX
    } else {
        (a + b) as u64
    }
}

/// The cell rectangle the hero's walk chooser holds at position `i`, for a
/// character sheet of the given pixel size sliced 3 wide and 4 high.
pub open spec fn hero_cell_rect(sheet_width: u32, sheet_height: u32, i: int) -> SpriteRect {
    SpriteRect {
        x: ((sheet_width / 3) * (i % 3)) as u32,
        y: ((sheet_height / 4) * (i / 3)) as u32,
        width: sheet_width / 3,
        height: sheet_height / 4,
    }
}

pub struct Game {
    tilesheet: Tilesheet,
    /// Total elapsed game time, in milliseconds.
    game_time_ms: u64,
    controller: Controller,
    hero: Actor,
}

impl Game {
    pub closed spec fn spec_tilesheet(&self) -> Tilesheet {
        self.tilesheet
    }

    pub closed spec fn spec_game_time_ms(&self) -> u64 {
        self.game_time_ms
    }

    pub closed spec fn spec_controller(&self) -> Controller {
        self.controller
    }

    pub closed spec fn spec_hero(&self) -> Actor {
        self.hero
    }

    /// Well-formedness: the map model and the hero are well-formed.
    pub open spec fn wf(&self) -> bool {
        &&& self.spec_tilesheet().wf()
        &&& self.spec_hero().wf()
    }

    /// Assembles a game: the map model, a fresh controller, and the hero at
    /// the origin with its "walk" chooser sliced from a 3-wide, 4-high
    /// character sheet of the given pixel size. Fails when the sheet does not
    /// divide evenly into that grid.
    pub fn new(tilesheet: Tilesheet, hero_sheet_width: u32, hero_sheet_height: u32) -> (r: Result<
        Game,
        String,
    >)
        requires
            tilesheet.wf(),
        ensures
            r is Ok <==> (hero_sheet_width % 3 == 0 && hero_sheet_height % 4 == 0),
            r matches Ok(g) ==> {
                &&& g.wf()
                &&& g.spec_tilesheet() == tilesheet
                &&& g.spec_game_time_ms() == 0
                &&& g.spec_controller().input == input_idle()
                &&& g.spec_controller().keybinding@ == spec_default_keybindings()
                &&& g.spec_controller().walk_rate == 90u32
                &&& g.spec_controller().dt_ms == 0u32
                &&& g.spec_hero()@.x == 0 && g.spec_hero()@.y == 0
                &&& g.spec_hero()@.vx == 0 && g.spec_hero()@.vy == 0
                &&& g.spec_hero()@.choosers.len() == 1
                &&& g.spec_hero()@.choosers[0].0 == "walk"@
                &&& g.spec_hero()@.choosers[0].1 == (ChooserView {
                    sprites: Seq::new(
                        12,
                        |i: int| hero_cell_rect(hero_sheet_width, hero_sheet_height, i),
                    ),
                    dt_ms: HERO_WALK_SLOT_MS,
                    previous_row: 0u32,
                })
            },
    {
        let hero_sheet = match CharacterSheet::from_texture(
            hero_sheet_width,
            hero_sheet_height,
            3,
            4,
        ) {
            Ok(s) => s,
            Err(e) => {
                return Err(e);
            },
        };
        let walk = match WalkingSpriteChooser::from_sheet(HERO_WALK_SLOT_MS, &hero_sheet) {
            Ok(c) => c,
            Err(e) => {
                return Err(e);
            },
        };
        proof {
            assert(Seq::new(12, |i: int| hero_sheet.spec_rect(i % 3, i / 3)) =~= Seq::new(
                12,
                |i: int| hero_cell_rect(hero_sheet_width, hero_sheet_height, i),
            ));
        }
        let mut hero = Actor::new();
        hero.insert_chooser("walk".to_owned(), walk);
        Ok(
            Game {
                tilesheet,
                game_time_ms: 0,
                controller: Controller::new(),
                hero,
            },
        )
    }

    /// One tick, strictly ordered: fold the event into the controller,
    /// advance the cumulative game time by the (possibly new) delta time,
    /// and drive the hero's control step against the map. Returns the input
    /// snapshot in its wire order for the network layer to send; a failed
    /// send is dropped for the tick, so nothing of it comes back here.
    pub fn next(&mut self, event: &ControlEvent) -> (bits: Vec<bool>)
        requires
            old(self).wf(),
        ensures
            final(self).wf(),
            final(self).spec_tilesheet() == old(self).spec_tilesheet(),
            final(self).spec_controller().keybinding@ == old(
                self,
            ).spec_controller().keybinding@,
            final(self).spec_controller().walk_rate == old(self).spec_controller().walk_rate,
            final(self).spec_game_time_ms() >= old(self).spec_game_time_ms(),
            ({
                let res = event_result(
                    old(self).spec_controller().keybinding@,
                    old(self).spec_controller().input,
                    old(self).spec_controller().dt_ms,
                    *event,
                );
                let t = control_spec(
                    old(self).spec_hero()@.x,
                    old(self).spec_hero()@.y,
                    res.0,
                    old(self).spec_controller().walk_rate,
                    res.1,
                    old(self).spec_tilesheet(),
                );
                &&& final(self).spec_controller().input == res.0
                &&& final(self).spec_controller().dt_ms == res.1
                &&& final(self).spec_game_time_ms() == sat_add_u64(
                    old(self).spec_game_time_ms(),
                    res.1 as u64,
                )
                &&& bits@ == res.0.bits()
                &&& final(self).spec_hero()@.x == t.0
                &&& final(self).spec_hero()@.y == t.1
                &&& final(self).spec_hero()@.vx == t.2
                &&& final(self).spec_hero()@.vy == t.3
                &&& final(self).spec_hero()@.choosers == old(self).spec_hero()@.choosers
            }),
    {
        self.controller.process_event(event);
        let dt: u64 = self.controller.dt_ms as u64;
        if self.game_time_ms > u64::MAX - dt {
            self.game_time_ms = u64::MAX;
        } else {
            self.game_time_ms = self.game_time_ms + dt;
        }
        let bits = self.controller.input.to_bits();
        self.hero.control(&self.controller, &self.tilesheet);
        bits
    }

    pub fn game_time_ms(&self) -> (r: u64)
        ensures
            r == self.spec_game_time_ms(),
    {
        self.game_time_ms
    }

    /// The map model, for the render layer to read.
    pub fn tilesheet(&self) -> (r: &Tilesheet)
        ensures
            *r == self.spec_tilesheet(),
    {
        &self.tilesheet
    }

    /// The controller, for the render layer to read.
    pub fn controller(&self) -> (r: &Controller)
        ensures
            *r == self.spec_controller(),
    {
        &self.controller
    }

    pub fn hero(&self) -> (r: &Actor)
        ensures
            *r == self.spec_hero(),
    {
        &self.hero
    }

    /// Exclusive access to the hero, for the render layer to select and draw
    /// the current frame.
    pub fn hero_mut(&mut self) -> (r: &mut Actor)
        ensures
            *r == old(self).spec_hero(),
            final(self).spec_hero() == *final(r),
            final(self).spec_tilesheet() == old(self).spec_tilesheet(),
            final(self).spec_controller() == old(self).spec_controller(),
            final(self).spec_game_time_ms() == old(self).spec_game_time_ms(),
    {
        &mut self.hero
    }
}

} // verus!
