//! Tile map abstraction: parsed map geometry (tile size, layer grids,
//! per-tile properties) plus the walkability predicate keyed by world
//! coordinate. The map file parsing and the tileset image stay with the
//! asset-loading layer, which hands the decoded geometry to `from_parts`.

use vstd::prelude::*;

use crate::actor::SpriteRect;

verus! {

/// A map background colour, one byte per channel.
#[derive(Clone, Copy, Debug, PartialEq, Eq, Structural)]
pub struct Colour {
    pub red: u8,
    pub green: u8,
    pub blue: u8,
}

/// The value of a per-tile custom property. A float-valued property is
/// coerced by the asset-loading layer into `BoolValue` (nonzero means true)
/// before it reaches the model.
#[derive(Debug)]
pub enum PropertyValue {
    BoolValue(bool),
    IntValue(i64),
    ColorValue(u32),
    StringValue(String),
}

/// Robustification rule that converts any valid property value into a bool:
/// nonzero numbers and colours are true, and every string but the literal
/// "false" is true.
pub open spec fn spec_bool_property(value: PropertyValue) -> bool {
    match value {
        PropertyValue::BoolValue(b) => b,
        PropertyValue::IntValue(i) => i != 0,
        PropertyValue::ColorValue(c) => c != 0,
        PropertyValue::StringValue(s) => s@ != "false"@,
    }
}

/// Truncating integer division: the quotient is rounded toward zero, as
/// truncation of a fractional coordinate does.
pub open spec fn div_trunc(a: int, b: int) -> int
    recommends
        b > 0,
{
    if a >= 0 {
        a / b
    } else {
        0 - ((0 - a) / b)
    }
}

/// The "walkable" property the table `props` holds for tile id `gid`: the
/// value of the first pair with that id, if any.
pub open spec fn walk_prop_of(props: Seq<(u32, PropertyValue)>, gid: u32) -> Option<PropertyValue>
    decreases props.len(),
{
    if props.len() == 0 {
        None
    } else if props[0].0 == gid {
        Some(props[0].1)
    } else {
        walk_prop_of(props.skip(1), gid)
    }
}

/// Parsed map geometry: tile size, the pixel size of the tileset image, the
/// tile grids of the layers (layer, then row, then column, holding tile ids;
/// id 0 marks an empty cell), the per-tile "walkable" properties, and the
/// optional background colour.
pub struct Tilesheet {
    tile_width: u32,
    tile_height: u32,
    image_width: u32,
    image_height: u32,
    layers: Vec<Vec<Vec<u32>>>,
    walk_props: Vec<(u32, PropertyValue)>,
    background: Option<Colour>,
}

fn div_px(v: i64, d: u32) -> (r: i64)
    requires
        d >= 1,
    ensures
        r == div_trunc(v as int, d as int),
{
    if v >= 0 {
        let a: u64 = v as u64;
        let q: u64 = a / (d as u64);
        proof {
            vstd::arithmetic::div_mod::lemma_div_is_ordered_by_denominator(a as int, 1, d as int);
        }
        q as i64
    } else {
        let a: u64 = (-(v as i128)) as u64;
        let q: u64 = a / (d as u64);
        proof {
            vstd::arithmetic::div_mod::lemma_div_is_ordered_by_denominator(a as int, 1, d as int);
        }
        let neg: i128 = -(q as i128);
        neg as i64
    }
}

impl Tilesheet {
    /// Width of one map tile in pixels.
    pub closed spec fn spec_tile_width(&self) -> u32 {
        self.tile_width
    }

    /// Height of one map tile in pixels.
    pub closed spec fn spec_tile_height(&self) -> u32 {
        self.tile_height
    }

    /// Width of the tileset image in pixels.
    pub closed spec fn spec_image_width(&self) -> u32 {
        self.image_width
    }

    /// Height of the tileset image in pixels.
    pub closed spec fn spec_image_height(&self) -> u32 {
        self.image_height
    }

    /// The layer grids: layer, then row, then column.
    pub closed spec fn spec_layers(&self) -> Seq<Seq<Seq<u32>>> {
        self.layers.deep_view()
    }

    /// The per-tile "walkable" property table.
    pub closed spec fn spec_walk_props(&self) -> Seq<(u32, PropertyValue)> {
        self.walk_props@
    }

    /// The background colour of the map, if it names one.
    pub closed spec fn spec_background(&self) -> Option<Colour> {
        self.background
    }

    /// Well-formedness: tiles have a nonzero pixel size, so coordinates can
    /// be divided by it.
    pub closed spec fn wf(&self) -> bool {
        &&& self.tile_width >= 1
        &&& self.tile_height >= 1
    }

    /// How many tile columns the tileset image holds.
    pub open spec fn spec_map_width_in_tiles(&self) -> u32 {
        self.spec_image_width() / self.spec_tile_width()
    }

    /// How many tiles the tileset image holds in all.
    pub open spec fn spec_sheet_tiles(&self) -> int {
        self.spec_map_width_in_tiles() * (self.spec_image_height() / self.spec_tile_height())
    }

    /// Assembles the model from decoded map geometry. The asset-loading
    /// layer parses the map file and the tileset image and hands their
    /// plain values over.
    pub fn from_parts(
        tile_width: u32,
        tile_height: u32,
        image_width: u32,
        image_height: u32,
        layers: Vec<Vec<Vec<u32>>>,
        walk_props: Vec<(u32, PropertyValue)>,
        background: Option<Colour>,
    ) -> (r: Self)
        requires
            tile_width >= 1,
            tile_height >= 1,
        ensures
            r.wf(),
            r.spec_tile_width() == tile_width,
            r.spec_tile_height() == tile_height,
            r.spec_image_width() == image_width,
            r.spec_image_height() == image_height,
            r.spec_layers() == layers.deep_view(),
            r.spec_walk_props() == walk_props@,
            r.spec_background() == background,
    {
        Tilesheet {
            tile_width,
            tile_height,
            image_width,
            image_height,
            layers,
            walk_props,
            background,
        }
    }

    /// How many layers the map holds.
    pub fn layer_count(&self) -> (r: usize)
        ensures
            r == self.spec_layers().len(),
    {
        self.layers.len()
    }

    /// The rows of layer `layer_number`, outermost first: each row holds the
    /// tile ids of its columns.
    pub fn layer_tile_iter(&self, layer_number: usize) -> (r: &Vec<Vec<u32>>)
        requires
            layer_number < self.spec_layers().len(),
        ensures
            r.deep_view() == self.spec_layers()[layer_number as int],
    {
        &self.layers[layer_number]
    }

    /// The background colour the map names, or mid grey when it names none.
    pub fn background_color(&self) -> (r: Colour)
        ensures
            r == match self.spec_background() {
                Some(c) => c,
                None => (Colour { red: 127, green: 127, blue: 127 }),
            },
    {
        match &self.background {
            Some(c) => *c,
            None => Colour { red: 127, green: 127, blue: 127 },
        }
    }

    pub fn tile_width(&self) -> (r: u32)
        ensures
            r == self.spec_tile_width(),
    {
        self.tile_width
    }

    pub fn tile_height(&self) -> (r: u32)
        ensures
            r == self.spec_tile_height(),
    {
        self.tile_height
    }

    pub fn image_width(&self) -> (r: u32)
        ensures
            r == self.spec_image_width(),
    {
        self.image_width
    }

    pub fn image_height(&self) -> (r: u32)
        ensures
            r == self.spec_image_height(),
    {
        self.image_height
    }

    fn map_width_in_tiles(&self) -> (r: u32)
        requires
            self.wf(),
        ensures
            r == self.spec_map_width_in_tiles(),
    {
        self.image_width / self.tile_width
    }

    /// The pixel boundaries of tile `tile` within the tileset image, row by
    /// row. Used to render a tile. Note: this is NOT in map coordinates, and
    /// tile ids count from 1 (0 marks an empty cell), so `tile` must name a
    /// tile of the sheet.
    pub fn tile_rect(&self, tile: u32) -> (r: SpriteRect)
        requires
            self.wf(),
            self.spec_map_width_in_tiles() >= 1,
            1 <= tile,
            tile - 1 < self.spec_sheet_tiles(),
        ensures
            r == (SpriteRect {
                x: (((tile - 1) as int % self.spec_map_width_in_tiles() as int)
                    * self.spec_tile_width() as int) as u32,
                y: (((tile - 1) as int / self.spec_map_width_in_tiles() as int)
                    * self.spec_tile_height() as int) as u32,
                width: self.spec_tile_width(),
                height: self.spec_tile_height(),
            }),
    {
        let tile = tile - 1;  // tile ids count from 1; we want from 0
        let w = self.map_width_in_tiles();
        proof {
            let t = tile as int;
            let wi = w as int;
            let tw = self.tile_width as int;
            let th = self.tile_height as int;
            let rows = self.image_height as int / th;
            assert(t % wi < wi && t % wi >= 0) by (nonlinear_arith)
                requires
                    wi >= 1,
                    t >= 0,
            ;
            assert((t % wi) * tw <= (wi - 1) * tw) by (nonlinear_arith)
                requires
                    t % wi <= wi - 1,
                    tw >= 0,
            ;
            assert(wi * tw <= self.image_width) by {
                vstd::arithmetic::div_mod::lemma_fundamental_div_mod(
                    self.image_width as int,
                    tw,
                );
                vstd::arithmetic::div_mod::lemma_mod_bound(self.image_width as int, tw);
                assert(wi * tw == tw * wi) by (nonlinear_arith);
            }
            assert((wi - 1) * tw <= wi * tw) by (nonlinear_arith)
                requires
                    tw >= 0,
            ;
            assert(t / wi <= rows - 1) by (nonlinear_arith)
                requires
                    t < wi * rows,
                    wi >= 1,
                    t >= 0,
            ;
            assert((t / wi) * th <= (rows - 1) * th) by (nonlinear_arith)
                requires
                    t / wi <= rows - 1,
                    th >= 0,
                    t / wi >= 0,
            ;
            assert(rows * th <= self.image_height) by {
                vstd::arithmetic::div_mod::lemma_fundamental_div_mod(
                    self.image_height as int,
                    th,
                );
                vstd::arithmetic::div_mod::lemma_mod_bound(self.image_height as int, th);
                assert(rows * th == th * rows) by (nonlinear_arith);
            }
            assert((rows - 1) * th <= rows * th) by (nonlinear_arith)
                requires
                    th >= 0,
            ;
        }
        let x = tile % w * self.tile_width;
        let y = tile / w * self.tile_height;
        SpriteRect { x, y, width: self.tile_width, height: self.tile_height }
    }

    /// The tile id the map holds at pixel coordinate `(x_px, y_px)` of layer
    /// `layer_index`, or `None` when the coordinate or the layer lies outside
    /// the map. The coordinate is converted to a cell by truncating division
    /// by the tile size, as truncation of a fractional coordinate does.
    pub open spec fn spec_tile_id(&self, layer_index: int, x_px: int, y_px: int) -> Option<u32> {
        if layer_index < 0 || layer_index >= self.spec_layers().len() {
            None
        } else {
            let layer = self.spec_layers()[layer_index];
            let row_index = div_trunc(y_px, self.spec_tile_height() as int);
            if row_index < 0 || row_index >= layer.len() {
                None
            } else {
                let row = layer[row_index];
                let col_index = div_trunc(x_px, self.spec_tile_width() as int);
                if col_index < 0 || col_index >= row.len() {
                    None
                } else {
                    Some(row[col_index])
                }
            }
        }
    }

    fn tile_id_from_map_coordinate(&self, layer_index: usize, x_px: i64, y_px: i64) -> (r: Option<
        u32,
    >)
        requires
            self.wf(),
        ensures
            r == self.spec_tile_id(layer_index as int, x_px as int, y_px as int),
    {
        if layer_index >= self.layers.len() {
            return None;
        }
        let layer = &self.layers[layer_index];
        let row_index = div_px(y_px, self.tile_height);
        if row_index < 0 || (row_index as u64) >= (layer.len() as u64) {
            return None;
        }
        let row = &layer[row_index as usize];
        let col_index = div_px(x_px, self.tile_width);
        if col_index < 0 || (col_index as u64) >= (row.len() as u64) {
            return None;
        }
        Some(row[col_index as usize])
    }

    /// Whether an actor may occupy the map cell at pixel coordinate
    /// `(x_px, y_px)` of layer `layer_index`. Fail-open: a coordinate outside
    /// the map, an empty cell (tile id 0) and a tile without a "walkable"
    /// property are all walkable; otherwise the property decides, coerced to
    /// a boolean.
    pub open spec fn spec_walkable(&self, layer_index: int, x_px: int, y_px: int) -> bool {
        match self.spec_tile_id(layer_index, x_px, y_px) {
            None => true,
            Some(gid) => if gid == 0 {
                true
            } else {
                match walk_prop_of(self.spec_walk_props(), gid) {
                    Some(p) => spec_bool_property(p),
                    None => true,
                }
            },
        }
    }

    /// Looks tile id `gid` up in the "walkable" property table: the value of
    /// the first pair with that id, or `None` when the tile has no such
    /// property.
    fn walk_prop(&self, gid: u32) -> (r: Option<&PropertyValue>)
        ensures
            match r {
                Some(p) => walk_prop_of(self.spec_walk_props(), gid) == Some(*p),
                None => walk_prop_of(self.spec_walk_props(), gid) is None,
            },
    {
        let mut i: usize = 0;
        proof {
            assert(self.walk_props@.skip(0) =~= self.walk_props@);
        }
        while i < self.walk_props.len()
            invariant
                i <= self.walk_props@.len(),
                walk_prop_of(self.walk_props@, gid) == walk_prop_of(
                    self.walk_props@.skip(i as int),
                    gid,
                ),
            decreases self.walk_props@.len() - i,
        {
            if self.walk_props[i].0 == gid {
                assert(self.walk_props@.skip(i as int)[0] == self.walk_props@[i as int]);
                return Some(&self.walk_props[i].1);
            }
            proof {
                assert(self.walk_props@.skip(i as int).skip(1) =~= self.walk_props@.skip(
                    i as int + 1,
                ));
            }
            i = i + 1;
        }
        proof {
            assert(self.walk_props@.skip(i as int).len() == 0);
        }
        None
    }

    fn bool_property(value: &PropertyValue) -> (r: bool)
        ensures
            r == spec_bool_property(*value),
    {
        match value {
            PropertyValue::BoolValue(b) => *b,
            PropertyValue::IntValue(i) => *i != 0,
            PropertyValue::ColorValue(c) => *c != 0,
            PropertyValue::StringValue(s) => {
                let f: String = "false".to_owned();
                !(*s == f)
            },
        }
    }

    /// The walkability predicate: see `spec_walkable`.
    pub fn is_walkable(&self, layer_index: usize, x_px: i64, y_px: i64) -> (r: bool)
        requires
            self.wf(),
        ensures
            r == self.spec_walkable(layer_index as int, x_px as int, y_px as int),
    {
        // get tile ID for map(x,y)
        let tile_gid = match self.tile_id_from_map_coordinate(layer_index, x_px, y_px) {
            Some(t) => t,
            None => {
                return true;
            },
        };
        // an empty cell has no tile to block on
        if tile_gid == 0 {
            return true;
        }
        // get the property for the tile ID
        match self.walk_prop(tile_gid) {
            Some(walkable) => Tilesheet::bool_property(walkable),
            None => true,  // assume walkable if no such property is set
        }
    }
}

} // verus!
