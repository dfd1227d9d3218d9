//! The glyph atlas of the lyrics renderer: a shelf packer that places glyph
//! bitmaps into one square texture, the conversion of a one-channel distance
//! field into RGBA texels, the per-vertex flag word, the quad indices, and
//! the store of glyph bitmaps that were generated ahead of time.
//!
//! The packer keeps every glyph, with its gutter, inside the atlas and away
//! from every other glyph.

use vstd::prelude::*;

verus! {

/// Side of the square atlas texture, in texels.
pub const ATLAS_SIZE: u32 = 4096;

/// Free texels kept around each glyph so that bilinear sampling does not
/// bleed between neighbours.
pub const ATLAS_GUTTER: u32 = 4;

/// A shelf of the atlas: a band of rows filled from left to right.
#[derive(Debug, Clone, Copy, PartialEq, Eq, Structural)]
pub struct AtlasRow {
    pub y: u32,
    pub height: u32,
    pub x_cursor: u32,
}

/// A rectangle handed out by the packer, gutter included, with the shelf
/// it lies on.
pub struct PackedRect {
    pub row: nat,
    pub x: nat,
    pub y: nat,
    pub w: nat,
    pub h: nat,
}

/// Two rectangles share no texel.
pub open spec fn disjoint(a: PackedRect, b: PackedRect) -> bool {
    a.x + a.w <= b.x || b.x + b.w <= a.x || a.y + a.h <= b.y || b.y + b.h <= a.y
}

/// The shelf packer of the glyph atlas.
pub struct SdfAtlas {
    pub rows: Vec<AtlasRow>,
    pub y_cursor: u32,
    pub width: u32,
    pub height: u32,
    /// Set when a glyph did not fit: the atlas must be cleared and refilled.
    pub needs_rebuild: bool,
    /// The rectangles handed out since the last clear.
    pub placed: Ghost<Seq<PackedRect>>,
}

/// The first shelf, in order, that is tall enough and has room left.
pub open spec fn fits(r: AtlasRow, pw: int, ph: int, width: int) -> bool {
    r.height >= ph && r.x_cursor + pw <= width
}

pub open spec fn first_fit(rows: Seq<AtlasRow>, pw: int, ph: int, width: int) -> Option<int> {
    if exists|i: int| 0 <= i < rows.len() && fits(rows[i], pw, ph, width) {
        Some(
            choose|i: int|
                0 <= i < rows.len() && fits(rows[i], pw, ph, width) && forall|j: int|
                    0 <= j < i ==> !fits(#[trigger] rows[j], pw, ph, width),
        )
    } else {
        None
    }
}

impl SdfAtlas {
    /// The packer's invariant: shelves are stacked from the top without
    /// overlap below the cursor, each within the width; every rectangle
    /// lies on its shelf left of the shelf's cursor; rectangles are pairwise
    /// disjoint.
    pub open spec fn wf(&self) -> bool {
        let rows = self.rows@;
        let placed = self.placed@;
        &&& self.y_cursor <= self.height
        &&& forall|i: int|
            0 <= i < rows.len() ==> #[trigger] rows[i].y + rows[i].height <= self.y_cursor
                && rows[i].x_cursor <= self.width
        &&& forall|i: int, j: int|
            0 <= i < j < rows.len() ==> #[trigger] rows[i].y + rows[i].height <= #[trigger] rows[j].y
        &&& forall|k: int|
            0 <= k < placed.len() ==> {
                let p = #[trigger] placed[k];
                &&& p.row < rows.len()
                &&& p.y == rows[p.row as int].y
                &&& p.h <= rows[p.row as int].height
                &&& p.x + p.w <= rows[p.row as int].x_cursor
            }
        &&& forall|a: int, b: int|
            0 <= a < b < placed.len() ==> disjoint(#[trigger] placed[a], #[trigger] placed[b])
    }

    /// Every rectangle handed out lies inside the atlas.
    pub proof fn lemma_placed_in_bounds(&self, k: int)
        requires
            self.wf(),
            0 <= k < self.placed@.len(),
        ensures
            self.placed@[k].x + self.placed@[k].w <= self.width,
            self.placed@[k].y + self.placed@[k].h <= self.height,
    {
        let p = self.placed@[k];
        assert(self.rows@[p.row as int].y + self.rows@[p.row as int].height <= self.y_cursor);
    }

    /// An empty atlas of the standard size.
    pub fn new() -> (r: Self)
        ensures
            r.wf(),
            r.width == ATLAS_SIZE,
            r.height == ATLAS_SIZE,
            r.rows@.len() == 0,
            r.y_cursor == 0,
            !r.needs_rebuild,
            r.placed@.len() == 0,
    {
        SdfAtlas {
            rows: Vec::new(),
            y_cursor: 0,
            width: ATLAS_SIZE,
            height: ATLAS_SIZE,
            needs_rebuild: false,
            placed: Ghost(Seq::empty()),
        }
    }

    /// Whether the atlas ran full and must be rebuilt.
    pub fn needs_rebuild(&self) -> (r: bool)
        ensures
            r == self.needs_rebuild,
    {
        self.needs_rebuild
    }

    /// Empties the atlas.
    pub fn clear(&mut self)
        ensures
            final(self).wf(),
            final(self).rows@.len() == 0,
            final(self).y_cursor == 0,
            !final(self).needs_rebuild,
            final(self).placed@.len() == 0,
            final(self).width == old(self).width,
            final(self).height == old(self).height,
    {
        self.rows.clear();
        self.y_cursor = 0;
        self.needs_rebuild = false;
        self.placed = Ghost(Seq::empty());
    }

    /// Finds room for a glyph of the given size with shelf packing: on the
    /// first shelf that is tall enough and has room left, else on a new
    /// shelf below the others. Returns the glyph's position (inside its
    /// gutter), or nothing when the atlas is full, which marks it for a
    /// rebuild. A glyph must be narrower than the atlas (with its gutter): a
    /// wider one could not be written to the texture.
    pub fn allocate(&mut self, width: u32, height: u32) -> (r: Option<(u32, u32)>)
        requires
            old(self).wf(),
            width + 2 * ATLAS_GUTTER <= old(self).width,
            height + 2 * ATLAS_GUTTER <= u32::MAX,
        ensures
            final(self).wf(),
            final(self).width == old(self).width,
            final(self).height == old(self).height,
            ({
                let pw = width + 2 * ATLAS_GUTTER;
                let ph = height + 2 * ATLAS_GUTTER;
                let ff = first_fit(old(self).rows@, pw, ph, old(self).width as int);
                match r {
                    Some((x, y)) => {
                        let p = final(self).placed@.last();
                        &&& final(self).placed@ == old(self).placed@.push(p)
                        &&& p.w == pw && p.h == ph
                        &&& x == p.x + ATLAS_GUTTER && y == p.y + ATLAS_GUTTER
                        &&& final(self).needs_rebuild == old(self).needs_rebuild
                        &&& match ff {
                            Some(i) => p.row == i && p.x == old(self).rows@[i].x_cursor,
                            None => p.row == old(self).rows@.len() && p.x == 0 && p.y
                                == old(self).y_cursor,
                        }
                    },
                    None => {
                        &&& ff is None
                        &&& old(self).y_cursor + ph > old(self).height
                        &&& final(self).needs_rebuild
                        &&& final(self).placed@ == old(self).placed@
                        &&& final(self).rows@ == old(self).rows@
                    },
                }
            }),
    {
        let padded_width = width + ATLAS_GUTTER * 2;
        let padded_height = height + ATLAS_GUTTER * 2;
        let ghost pw = padded_width as int;
        let ghost ph = padded_height as int;
        let n = self.rows.len();
        let mut i: usize = 0;
        while i < n
            invariant
                n == self.rows@.len(),
                i <= n,
                self.wf(),
                padded_width == width + 2 * ATLAS_GUTTER,
                padded_width <= self.width,
                pw == padded_width as int,
                ph == padded_height as int,
                padded_height == height + 2 * ATLAS_GUTTER,
                forall|j: int| 0 <= j < i ==> !fits(#[trigger] self.rows@[j], pw, ph, self.width as int),
                self.rows@ == old(self).rows@,
                self.placed@ == old(self).placed@,
                self.width == old(self).width,
                self.height == old(self).height,
                self.y_cursor == old(self).y_cursor,
                self.needs_rebuild == old(self).needs_rebuild,
            decreases n - i,
        {
            let row = self.rows[i];
            assert(row.x_cursor <= self.width);
            if row.height >= padded_height && padded_width <= self.width - row.x_cursor {
                let x = row.x_cursor + ATLAS_GUTTER;
                let y = row.y + ATLAS_GUTTER;
                let ghost rows0 = self.rows@;
                let ghost p = PackedRect {
                    row: i as nat,
                    x: row.x_cursor as nat,
                    y: row.y as nat,
                    w: pw as nat,
                    h: ph as nat,
                };
                assert(first_fit(rows0, pw, ph, self.width as int) == Some(i as int)) by {
                    assert(fits(rows0[i as int], pw, ph, self.width as int));
                    let c = choose|c: int|
                        0 <= c < rows0.len() && fits(rows0[c], pw, ph, self.width as int) && forall|
                            j: int,
                        | 0 <= j < c ==> !fits(#[trigger] rows0[j], pw, ph, self.width as int);
                    if c < i {
                    } else if c > i {
                        assert(!fits(rows0[i as int], pw, ph, self.width as int));
                    }
                }
                let new_row = AtlasRow { y: row.y, height: row.height, x_cursor: row.x_cursor + padded_width };
                self.rows.set(i, new_row);
                proof {
                    let placed0 = self.placed@;
                    self.placed@ = placed0.push(p);
                    assert forall|a: int, b: int|
                        0 <= a < b < self.placed@.len() implies disjoint(
                        #[trigger] self.placed@[a],
                        #[trigger] self.placed@[b],
                    ) by {
                        if b == placed0.len() {
                            let q = placed0[a];
                            if q.row != i {
                                if q.row < i {
                                    assert(rows0[q.row as int].y + rows0[q.row as int].height
                                        <= rows0[i as int].y);
                                } else {
                                    assert(rows0[i as int].y + rows0[i as int].height
                                        <= rows0[q.row as int].y);
                                }
                            }
                        } else {
                            assert(disjoint(placed0[a], placed0[b]));
                        }
                    }
                    assert forall|k: int| 0 <= k < self.placed@.len() implies {
                        let p = #[trigger] self.placed@[k];
                        &&& p.row < self.rows@.len()
                        &&& p.y == self.rows@[p.row as int].y
                        &&& p.h <= self.rows@[p.row as int].height
                        &&& p.x + p.w <= self.rows@[p.row as int].x_cursor
                    } by {
                        if k < placed0.len() {
                            let q = placed0[k];
                            assert(q.row < rows0.len());
                        }
                    }
                    assert forall|a: int, b: int| 0 <= a < b < self.rows@.len() implies #[trigger] self.rows@[a].y
                        + self.rows@[a].height <= #[trigger] self.rows@[b].y by {
                        assert(rows0[a].y + rows0[a].height <= rows0[b].y);
                    }
                    assert forall|a: int| 0 <= a < self.rows@.len() implies #[trigger] self.rows@[a].y
                        + self.rows@[a].height <= self.y_cursor && self.rows@[a].x_cursor
                        <= self.width by {
                        assert(rows0[a].y + rows0[a].height <= self.y_cursor);
                    }
                }
                return Some((x, y));
            }
            i = i + 1;
        }
        let ghost rows0 = self.rows@;
        assert(first_fit(rows0, pw, ph, self.width as int) is None) by {
            if exists|c: int| 0 <= c < rows0.len() && fits(rows0[c], pw, ph, self.width as int) {
                let c = choose|c: int| 0 <= c < rows0.len() && fits(rows0[c], pw, ph, self.width as int);
                assert(!fits(rows0[c], pw, ph, self.width as int));
            }
        }
        if padded_height <= self.height - self.y_cursor {
            let row = AtlasRow { y: self.y_cursor, height: padded_height, x_cursor: padded_width };
            let x = ATLAS_GUTTER;
            let y = self.y_cursor + ATLAS_GUTTER;
            let ghost p = PackedRect {
                row: rows0.len(),
                x: 0,
                y: self.y_cursor as nat,
                w: pw as nat,
                h: ph as nat,
            };
            let ghost yc = self.y_cursor;
            self.y_cursor = self.y_cursor + padded_height;
            self.rows.push(row);
            proof {
                let placed0 = self.placed@;
                self.placed@ = placed0.push(p);
                assert forall|a: int, b: int|
                    0 <= a < b < self.placed@.len() implies disjoint(
                    #[trigger] self.placed@[a],
                    #[trigger] self.placed@[b],
                ) by {
                    if b == placed0.len() {
                        let q = placed0[a];
                        assert(rows0[q.row as int].y + rows0[q.row as int].height <= yc);
                    } else {
                        assert(disjoint(placed0[a], placed0[b]));
                    }
                }
                assert forall|k: int| 0 <= k < self.placed@.len() implies {
                    let p = #[trigger] self.placed@[k];
                    &&& p.row < self.rows@.len()
                    &&& p.y == self.rows@[p.row as int].y
                    &&& p.h <= self.rows@[p.row as int].height
                    &&& p.x + p.w <= self.rows@[p.row as int].x_cursor
                } by {
                    if k < placed0.len() {
                        let q = placed0[k];
                        assert(q.row < rows0.len());
                        assert(self.rows@[q.row as int] == rows0[q.row as int]);
                    }
                }
                assert forall|a: int, b: int| 0 <= a < b < self.rows@.len() implies #[trigger] self.rows@[a].y
                    + self.rows@[a].height <= #[trigger] self.rows@[b].y by {
                    if b < rows0.len() {
                        assert(rows0[a].y + rows0[a].height <= rows0[b].y);
                    } else {
                        assert(rows0[a].y + rows0[a].height <= yc);
                    }
                }
                assert forall|a: int| 0 <= a < self.rows@.len() implies #[trigger] self.rows@[a].y
                    + self.rows@[a].height <= self.y_cursor && self.rows@[a].x_cursor
                    <= self.width by {
                    if a < rows0.len() {
                        assert(rows0[a].y + rows0[a].height <= yc);
                    }
                }
            }
            return Some((x, y));
        }
        self.needs_rebuild = true;
        None
    }
}


/// Any two rectangles that the packer handed out since the last clear
/// share no texel, and each lies inside the atlas.
pub proof fn lemma_packed_glyphs_disjoint(atlas: &SdfAtlas, a: int, b: int)
    requires
        atlas.wf(),
        0 <= a < atlas.placed@.len(),
        0 <= b < atlas.placed@.len(),
        a != b,
    ensures
        disjoint(atlas.placed@[a], atlas.placed@[b]),
        atlas.placed@[a].x + atlas.placed@[a].w <= atlas.width,
        atlas.placed@[a].y + atlas.placed@[a].h <= atlas.height,
{
    if a < b {
        assert(disjoint(atlas.placed@[a], atlas.placed@[b]));
    } else {
        assert(disjoint(atlas.placed@[b], atlas.placed@[a]));
    }
    atlas.lemma_placed_in_bounds(a);
}

/// Where a glyph went in the atlas, in texels, with its metrics.
#[derive(Debug, Clone, Copy, PartialEq, Eq, Structural)]
pub struct GlyphPlacement {
    pub x: u32,
    pub y: u32,
    pub width: u32,
    pub height: u32,
    pub offset_x: i32,
    pub offset_y: i32,
}

impl SdfAtlas {
    /// Places a glyph bitmap: an empty one (a space) takes no room and sits
    /// at the origin; any other gets room from `allocate`, or nothing when
    /// the atlas is full.
    pub fn place_glyph(&mut self, width: u32, height: u32, offset_x: i32, offset_y: i32) -> (r:
        Option<GlyphPlacement>)
        requires
            old(self).wf(),
            width + 2 * ATLAS_GUTTER <= old(self).width,
            height + 2 * ATLAS_GUTTER <= u32::MAX,
        ensures
            final(self).wf(),
            (width == 0 || height == 0) ==> r == Some(
                GlyphPlacement { x: 0, y: 0, width: 0, height: 0, offset_x, offset_y },
            ) && final(self).placed@ == old(self).placed@,
            (width != 0 && height != 0) ==> match r {
                Some(g) => g.width == width && g.height == height && g.offset_x == offset_x
                    && g.offset_y == offset_y && final(self).placed@.len() == old(self).placed@.len()
                    + 1 && g.x == final(self).placed@.last().x + ATLAS_GUTTER
                    && g.y == final(self).placed@.last().y + ATLAS_GUTTER,
                None => final(self).needs_rebuild && final(self).placed@ == old(self).placed@,
            },
    {
        if width == 0 || height == 0 {
            return Some(GlyphPlacement { x: 0, y: 0, width: 0, height: 0, offset_x, offset_y });
        }
        match self.allocate(width, height) {
            Some((x, y)) => Some(GlyphPlacement { x, y, width, height, offset_x, offset_y }),
            None => None,
        }
    }

    /// Places a glyph bitmap like `place_glyph`; when the atlas is full it
    /// is emptied (every glyph has to be uploaded again) and the glyph is
    /// placed once more, at the top left. Nothing comes back only for a
    /// glyph taller than the whole atlas.
    pub fn place_glyph_or_clear(&mut self, width: u32, height: u32, offset_x: i32, offset_y: i32) -> (r:
        Option<GlyphPlacement>)
        requires
            old(self).wf(),
            width + 2 * ATLAS_GUTTER <= old(self).width,
            height + 2 * ATLAS_GUTTER <= u32::MAX,
        ensures
            final(self).wf(),
            final(self).width == old(self).width,
            final(self).height == old(self).height,
            (width == 0 || height == 0) ==> r == Some(
                GlyphPlacement { x: 0, y: 0, width: 0, height: 0, offset_x, offset_y },
            ) && final(self).placed@ == old(self).placed@,
            (width != 0 && height != 0) ==> ({
                let ph = height + 2 * ATLAS_GUTTER;
                let full = first_fit(old(self).rows@, width + 2 * ATLAS_GUTTER, ph, old(self).width as int)
                    is None && old(self).y_cursor + ph > old(self).height;
                &&& !full ==> final(self).needs_rebuild == old(self).needs_rebuild
                &&& full ==> (r is Some ==> !final(self).needs_rebuild)
                &&& !full ==> (r matches Some(g) && g.width == width && g.height == height
                    && g.offset_x == offset_x && g.offset_y == offset_y
                    && final(self).placed@ == old(self).placed@.push(final(self).placed@.last())
                    && g.x == final(self).placed@.last().x + ATLAS_GUTTER
                    && g.y == final(self).placed@.last().y + ATLAS_GUTTER)
                &&& full ==> (r is Some <==> ph <= old(self).height)
                &&& full ==> (r matches Some(g) ==> g.width == width && g.height == height
                    && g.offset_x == offset_x && g.offset_y == offset_y && final(self).placed@.len() == 1
                    && g.x == ATLAS_GUTTER && g.y == ATLAS_GUTTER)
                &&& full ==> (r is None ==> final(self).placed@.len() == 0 && final(self).needs_rebuild)
            }),
    {
        if width == 0 || height == 0 {
            return Some(GlyphPlacement { x: 0, y: 0, width: 0, height: 0, offset_x, offset_y });
        }
        match self.allocate(width, height) {
            Some((x, y)) => Some(GlyphPlacement { x, y, width, height, offset_x, offset_y }),
            None => {
                self.clear();
                assert(first_fit(self.rows@, width + 2 * ATLAS_GUTTER, height + 2 * ATLAS_GUTTER, self.width as int) is None);
                match self.allocate(width, height) {
                    Some((x, y)) => {
                        assert(self.placed@.len() == 1);
                        Some(GlyphPlacement { x, y, width, height, offset_x, offset_y })
                    },
                    None => None,
                }
            },
        }
    }
}

/// The RGBA texels of a one-channel distance field: the value in red, green
/// and blue, and full opacity.
pub open spec fn rgba_of(sdf: Seq<u8>) -> Seq<u8> {
    Seq::new(
        (sdf.len() * 4) as nat,
        |i: int|
            if i % 4 == 3 {
                255u8
            } else {
                sdf[i / 4]
            },
    )
}

/// Converts a one-channel distance field into RGBA texels.
pub fn sdf_to_rgba(sdf: &[u8]) -> (r: Vec<u8>)
    requires
        sdf@.len() * 4 <= usize::MAX,
    ensures
        r@ == rgba_of(sdf@),
{
    let mut rgba: Vec<u8> = Vec::new();
    let mut i: usize = 0;
    while i < sdf.len()
        invariant
            i <= sdf@.len(),
            sdf@.len() * 4 <= usize::MAX,
            rgba@ == rgba_of(sdf@.take(i as int)),
        decreases sdf.len() - i,
    {
        let v = sdf[i];
        rgba.push(v);
        rgba.push(v);
        rgba.push(v);
        rgba.push(255);
        assert(rgba@ =~= rgba_of(sdf@.take(i + 1)));
        i = i + 1;
    }
    assert(sdf@.take(sdf@.len() as int) =~= sdf@);
    rgba
}

/// Index into the index buffer of the glyph quads.
pub type GlyphIndex = u32;

/// The indices of a quad's two triangles: 0-1-2 and 2-3-0 from its first
/// vertex.
pub fn quad_indices(base_vertex: u32) -> (r: [GlyphIndex; 6])
    requires
        base_vertex + 3 <= u32::MAX,
    ensures
        r@ == seq![
            base_vertex,
            (base_vertex + 1) as u32,
            (base_vertex + 2) as u32,
            (base_vertex + 2) as u32,
            (base_vertex + 3) as u32,
            base_vertex,
        ],
{
    let r = [
        base_vertex,
        base_vertex + 1,
        base_vertex + 2,
        base_vertex + 2,
        base_vertex + 3,
        base_vertex,
    ];
    assert(r@ =~= seq![
        base_vertex,
        (base_vertex + 1) as u32,
        (base_vertex + 2) as u32,
        (base_vertex + 2) as u32,
        (base_vertex + 3) as u32,
        base_vertex,
    ]);
    r
}

/// Bits of a glyph vertex's flag word.
pub const FLAG_ACTIVE: u32 = 1;
pub const FLAG_EMPHASIZE: u32 = 2;
pub const FLAG_BG: u32 = 4;
pub const FLAG_DUET: u32 = 8;
pub const FLAG_TRANSLATION: u32 = 16;
pub const FLAG_ROMANIZED: u32 = 32;

/// The flag word of a glyph vertex, as the shader reads it.
#[derive(Debug, Clone, Copy, PartialEq, Eq, Structural)]
pub struct GlyphFlags {
    pub bits: u32,
}

/// A flag word with one bit set or cleared.
pub open spec fn with_bit(flags: u32, bit: u32, on: bool) -> u32 {
    if on {
        flags | bit
    } else {
        flags & !bit
    }
}

fn set_bit(flags: u32, bit: u32, on: bool) -> (r: u32)
    ensures
        r == with_bit(flags, bit, on),
{
    if on {
        flags | bit
    } else {
        flags & !bit
    }
}

impl GlyphFlags {
    /// No flag set.
    pub fn new() -> (r: Self)
        ensures
            r.bits == 0,
    {
        GlyphFlags { bits: 0 }
    }

    pub fn set_active(&mut self, active: bool)
        ensures
            final(self).bits == with_bit(old(self).bits, FLAG_ACTIVE, active),
    {
        self.bits = set_bit(self.bits, FLAG_ACTIVE, active);
    }

    pub fn set_emphasize(&mut self, emphasize: bool)
        ensures
            final(self).bits == with_bit(old(self).bits, FLAG_EMPHASIZE, emphasize),
    {
        self.bits = set_bit(self.bits, FLAG_EMPHASIZE, emphasize);
    }

    pub fn set_bg(&mut self, is_bg: bool)
        ensures
            final(self).bits == with_bit(old(self).bits, FLAG_BG, is_bg),
    {
        self.bits = set_bit(self.bits, FLAG_BG, is_bg);
    }

    pub fn set_duet(&mut self, is_duet: bool)
        ensures
            final(self).bits == with_bit(old(self).bits, FLAG_DUET, is_duet),
    {
        self.bits = set_bit(self.bits, FLAG_DUET, is_duet);
    }

    pub fn set_translation(&mut self, is_translation: bool)
        ensures
            final(self).bits == with_bit(old(self).bits, FLAG_TRANSLATION, is_translation),
    {
        self.bits = set_bit(self.bits, FLAG_TRANSLATION, is_translation);
    }

    pub fn set_romanized(&mut self, is_romanized: bool)
        ensures
            final(self).bits == with_bit(old(self).bits, FLAG_ROMANIZED, is_romanized),
    {
        self.bits = set_bit(self.bits, FLAG_ROMANIZED, is_romanized);
    }

    /// Whether a flag bit is set.
    pub fn has(&self, bit: u32) -> (r: bool)
        ensures
            r == (self.bits & bit != 0),
    {
        self.bits & bit != 0
    }
}

/// Setting a flag bit makes it read back as set or cleared, and leaves
/// every other bit of the word as it was.
pub proof fn lemma_flag_bits_independent(flags: u32, i: u32, j: u32, on: bool)
    requires
        i < 32,
        j < 32,
        i != j,
    ensures
        (with_bit(flags, 1u32 << i, on) & (1u32 << i) != 0) == on,
        with_bit(flags, 1u32 << i, on) & (1u32 << j) == flags & (1u32 << j),
{
    if on {
        assert(((flags | (1u32 << i)) & (1u32 << i) != 0)) by (bit_vector)
            requires
                i < 32,
        ;
        assert((flags | (1u32 << i)) & (1u32 << j) == flags & (1u32 << j)) by (bit_vector)
            requires
                i < 32,
                j < 32,
                i != j,
        ;
    } else {
        assert(((flags & !(1u32 << i)) & (1u32 << i) == 0)) by (bit_vector)
            requires
                i < 32,
        ;
        assert((flags & !(1u32 << i)) & (1u32 << j) == flags & (1u32 << j)) by (bit_vector)
            requires
                i < 32,
                j < 32,
                i != j,
        ;
    }
}

/// The key of a glyph bitmap: the font, the glyph, the size and the
/// sub-pixel offsets it was rasterized at.
#[derive(Debug, Clone, Copy, PartialEq, Eq, Hash, Structural)]
pub struct GlyphKey {
    pub font_id: u64,
    pub glyph_id: u16,
    pub font_size_bits: u32,
    pub x_bin: u8,
    pub y_bin: u8,
    pub flags: u8,
}

/// A one-channel distance field bitmap of a glyph, with its bearings.
#[derive(Debug)]
pub struct SdfBitmap {
    pub width: u32,
    pub height: u32,
    pub bearing_x: i32,
    pub bearing_y: i32,
    pub data: Vec<u8>,
}

/// A glyph bitmap that was generated ahead of time, off the render thread.
#[derive(Debug)]
pub struct PreGeneratedSdf {
    pub bitmap: SdfBitmap,
}

/// A bitmap as plain values.
pub struct SdfBitmapView {
    pub width: u32,
    pub height: u32,
    pub bearing_x: i32,
    pub bearing_y: i32,
    pub data: Seq<u8>,
}

impl View for SdfBitmap {
    type V = SdfBitmapView;

    open spec fn view(&self) -> SdfBitmapView {
        SdfBitmapView {
            width: self.width,
            height: self.height,
            bearing_x: self.bearing_x,
            bearing_y: self.bearing_y,
            data: self.data@,
        }
    }
}

/// The bitmaps generated ahead of time, waiting to be uploaded, one per key.
#[derive(Debug)]
pub struct PreGeneratedStore {
    pub entries: Vec<(GlyphKey, PreGeneratedSdf)>,
}

pub open spec fn entry_view(e: (GlyphKey, PreGeneratedSdf)) -> (GlyphKey, SdfBitmapView) {
    (e.0, e.1.bitmap@)
}

/// The position of a key among the entries, if it is there.
pub open spec fn key_index(s: Seq<(GlyphKey, SdfBitmapView)>, k: GlyphKey) -> Option<int> {
    if exists|i: int| 0 <= i < s.len() && s[i].0 == k {
        Some(choose|i: int| 0 <= i < s.len() && s[i].0 == k)
    } else {
        None
    }
}

/// No key occurs twice.
pub open spec fn keys_unique(s: Seq<(GlyphKey, SdfBitmapView)>) -> bool {
    forall|i: int, j: int| 0 <= i < j < s.len() ==> #[trigger] s[i].0 != #[trigger] s[j].0
}

/// The entries after storing a bitmap under a key: it replaces the bitmap
/// that the key had, or is added at the end.
pub open spec fn stored(
    s: Seq<(GlyphKey, SdfBitmapView)>,
    k: GlyphKey,
    b: SdfBitmapView,
) -> Seq<(GlyphKey, SdfBitmapView)> {
    match key_index(s, k) {
        Some(i) => s.update(i, (k, b)),
        None => s.push((k, b)),
    }
}

/// The entries after taking a key's bitmap out, and the bitmap.
pub open spec fn taken(s: Seq<(GlyphKey, SdfBitmapView)>, k: GlyphKey) -> (
    Seq<(GlyphKey, SdfBitmapView)>,
    Option<SdfBitmapView>,
) {
    match key_index(s, k) {
        Some(i) => (s.remove(i), Some(s[i].1)),
        None => (s, None),
    }
}

/// The bitmap a key holds among the entries, if any.
pub open spec fn lookup(s: Seq<(GlyphKey, SdfBitmapView)>, k: GlyphKey) -> Option<SdfBitmapView> {
    match key_index(s, k) {
        Some(i) => Some(s[i].1),
        None => None,
    }
}

/// The keys that hold a bitmap among the entries.
pub open spec fn key_set(s: Seq<(GlyphKey, SdfBitmapView)>) -> Set<GlyphKey> {
    Set::new(|k: GlyphKey| key_index(s, k) is Some)
}

/// A batch of bitmaps to import, as plain values.
pub open spec fn batch_view(v: Seq<(GlyphKey, SdfBitmap)>) -> Seq<(GlyphKey, SdfBitmapView)> {
    v.map_values(|e: (GlyphKey, SdfBitmap)| (e.0, e.1@))
}

/// `f` is the store `s` after importing the batch `m`: one entry per key,
/// and each key holds its bitmap of the batch if the batch has it, else
/// what it held in `s`.
pub open spec fn imported(
    s: Seq<(GlyphKey, SdfBitmapView)>,
    m: Seq<(GlyphKey, SdfBitmapView)>,
    f: Seq<(GlyphKey, SdfBitmapView)>,
) -> bool {
    &&& keys_unique(f)
    &&& forall|k: GlyphKey|
        #[trigger] lookup(f, k) == (if lookup(m, k) is Some {
            lookup(m, k)
        } else {
            lookup(s, k)
        })
}

impl View for PreGeneratedStore {
    type V = Seq<(GlyphKey, SdfBitmapView)>;

    open spec fn view(&self) -> Seq<(GlyphKey, SdfBitmapView)> {
        self.entries@.map_values(|e: (GlyphKey, PreGeneratedSdf)| entry_view(e))
    }
}

impl PreGeneratedStore {
    /// An empty store.
    pub fn new() -> (r: Self)
        ensures
            r@.len() == 0,
    {
        let r = PreGeneratedStore { entries: Vec::new() };
        assert(r@ =~= Seq::<(GlyphKey, SdfBitmapView)>::empty());
        r
    }

    fn find(&self, key: GlyphKey) -> (r: Option<usize>)
        ensures
            r matches Some(i) ==> i < self@.len() && self@[i as int].0 == key,
            r is None ==> key_index(self@, key) is None,
    {
        let mut i: usize = 0;
        while i < self.entries.len()
            invariant
                i <= self.entries@.len(),
                forall|j: int| 0 <= j < i ==> self@[j].0 != key,
            decreases self.entries.len() - i,
        {
            if self.entries[i].0 == key {
                return Some(i);
            }
            i = i + 1;
        }
        None
    }

    /// Stores a bitmap under its key, replacing an earlier one.
    pub fn insert(&mut self, key: GlyphKey, bitmap: SdfBitmap)
        requires
            keys_unique(old(self)@),
        ensures
            final(self)@ == stored(old(self)@, key, bitmap@),
            keys_unique(final(self)@),
    {
        let ghost b = bitmap@;
        let ghost s0 = self@;
        match self.find(key) {
            Some(i) => {
                proof {
                    assert(key_index(s0, key) == Some(i as int)) by {
                        let c = choose|c: int| 0 <= c < s0.len() && s0[c].0 == key;
                        if c != i as int {
                            if c < i {
                                assert(s0[c].0 != s0[i as int].0);
                            } else {
                                assert(s0[i as int].0 != s0[c].0);
                            }
                        }
                    }
                }
                self.entries.set(i, (key, PreGeneratedSdf { bitmap }));
                assert(self@ =~= s0.update(i as int, (key, b)));
            },
            None => {
                self.entries.push((key, PreGeneratedSdf { bitmap }));
                assert(self@ =~= s0.push((key, b)));
                assert(forall|j: int| 0 <= j < s0.len() ==> s0[j].0 != key);
            },
        }
    }

    /// Stores a batch of bitmaps, each under its key (no key twice in the
    /// batch): every imported key holds its imported bitmap afterwards, and
    /// every other key keeps what it held.
    pub fn import(&mut self, bitmaps: Vec<(GlyphKey, SdfBitmap)>)
        requires
            keys_unique(old(self)@),
            keys_unique(batch_view(bitmaps@)),
        ensures
            imported(old(self)@, batch_view(bitmaps@), final(self)@),
            final(self)@.len() == key_set(old(self)@).union(key_set(batch_view(bitmaps@))).len(),
    {
        let ghost s_before = self@;
        let ghost m_before = batch_view(bitmaps@);
        let mut bitmaps = bitmaps;
        let ghost all = batch_view(bitmaps@);
        let n = bitmaps.len();
        let mut i: usize = 0;
        assert(all.subrange(0, n as int) =~= all);
        while i < n
            invariant
                n == all.len(),
                i <= n,
                batch_view(bitmaps@) == all.subrange(0, n - i),
                bitmaps@.len() == n - i,
                keys_unique(all),
                imported(old(self)@, all.subrange(n - i, n as int), self@),
            decreases n - i,
        {
            let ghost s0 = self@;
            let ghost before = bitmaps@;
            let (key, bitmap) = bitmaps.pop().unwrap();
            let ghost j: int = n - i - 1;
            proof {
                assert(batch_view(before)[j] == all.subrange(0, n - i)[j]);
                assert(before[j].0 == key && before[j].1@ == bitmap@);
                assert(key == all[j].0 && bitmap@ == all[j].1);
                assert(batch_view(bitmaps@) =~= all.subrange(0, j));
            }
            let ghost b = bitmap@;
            self.insert(key, bitmap);
            proof {
                assert forall|k: GlyphKey|
                    #[trigger] lookup(self@, k) == (if lookup(all.subrange(j, n as int), k) is Some {
                        lookup(all.subrange(j, n as int), k)
                    } else {
                        lookup(old(self)@, k)
                    }) by {
                    lemma_lookup_stored(s0, key, b, k);
                    lemma_lookup_front(all, j, k);
                    assert(lookup(s0, k) == (if lookup(all.subrange(j + 1, n as int), k) is Some {
                        lookup(all.subrange(j + 1, n as int), k)
                    } else {
                        lookup(old(self)@, k)
                    }));
                }
            }
            i = i + 1;
        }
        assert(all.subrange(0, n as int) =~= all);
        proof {
            lemma_import_size(s_before, m_before, self@);
        }
    }

    /// Takes a key's bitmap out of the store, if it is there.
    pub fn take(&mut self, key: GlyphKey) -> (r: Option<PreGeneratedSdf>)
        requires
            keys_unique(old(self)@),
        ensures
            (final(self)@, match r {
                Some(p) => Some(p.bitmap@),
                None => None,
            }) == taken(old(self)@, key),
            keys_unique(final(self)@),
    {
        let ghost s0 = self@;
        match self.find(key) {
            Some(i) => {
                proof {
                    assert(key_index(s0, key) == Some(i as int)) by {
                        let c = choose|c: int| 0 <= c < s0.len() && s0[c].0 == key;
                        if c != i as int {
                            if c < i {
                                assert(s0[c].0 != s0[i as int].0);
                            } else {
                                assert(s0[i as int].0 != s0[c].0);
                            }
                        }
                    }
                }
                let (_, sdf) = self.entries.remove(i);
                assert(self@ =~= s0.remove(i as int));
                assert forall|a: int, b: int| 0 <= a < b < self@.len() implies #[trigger] self@[a].0
                    != #[trigger] self@[b].0 by {
                    let a0 = if a < i { a } else { a + 1 };
                    let b0 = if b < i { b } else { b + 1 };
                    assert(s0[a0].0 != s0[b0].0);
                }
                Some(sdf)
            },
            None => None,
        }
    }

    /// The number of stored bitmaps.
    pub fn len(&self) -> (r: usize)
        ensures
            r == self@.len(),
    {
        self.entries.len()
    }

    /// Drops every stored bitmap.
    pub fn clear(&mut self)
        ensures
            final(self)@.len() == 0,
    {
        self.entries.clear();
        assert(self@ =~= Seq::<(GlyphKey, SdfBitmapView)>::empty());
    }
}

/// Stores bitmaps generated ahead of time for the renderer to pick up: each
/// under its key, every other key keeping what it held.
pub fn import_to_global_cache(store: &mut PreGeneratedStore, bitmaps: Vec<(GlyphKey, SdfBitmap)>)
    requires
        keys_unique(old(store)@),
        keys_unique(batch_view(bitmaps@)),
    ensures
        imported(old(store)@, batch_view(bitmaps@), final(store)@),
        final(store)@.len() == key_set(old(store)@).union(key_set(batch_view(bitmaps@))).len(),
{
    let ghost s = store@;
    let ghost m = batch_view(bitmaps@);
    store.import(bitmaps);
    proof {
        lemma_import_size(s, m, store@);
    }
}

/// The bitmap of a glyph taken out as plain values.
pub open spec fn taken_bitmap(r: Option<PreGeneratedSdf>) -> Option<SdfBitmapView> {
    match r {
        Some(p) => Some(p.bitmap@),
        None => None,
    }
}

/// Where the bitmap of a glyph that the atlas lacks comes from: the
/// renderer's own pre-generated bitmaps first, then the shared store. The
/// bitmap is taken out of the store that had it; `None` means neither had
/// it and it has to be generated now.
pub fn take_pre_generated(local: &mut PreGeneratedStore, global: &mut PreGeneratedStore, key: GlyphKey) -> (r:
    Option<PreGeneratedSdf>)
    requires
        keys_unique(old(local)@),
        keys_unique(old(global)@),
    ensures
        keys_unique(final(local)@),
        keys_unique(final(global)@),
        lookup(old(local)@, key) is Some ==> (final(local)@, taken_bitmap(r)) == taken(old(local)@, key)
            && final(global)@ == old(global)@,
        lookup(old(local)@, key) is None ==> final(local)@ == old(local)@ && (final(global)@, taken_bitmap(
            r,
        )) == taken(old(global)@, key),
{
    match local.take(key) {
        Some(p) => Some(p),
        None => global.take(key),
    }
}

/// Takes a pre-generated bitmap out of the store.
pub fn take_from_global_cache(store: &mut PreGeneratedStore, key: GlyphKey) -> (r: Option<
    PreGeneratedSdf,
>)
    requires
        keys_unique(old(store)@),
    ensures
        (final(store)@, match r {
            Some(p) => Some(p.bitmap@),
            None => None,
        }) == taken(old(store)@, key),
        keys_unique(final(store)@),
{
    store.take(key)
}

/// Empties the store of pre-generated bitmaps.
pub fn clear_global_cache(store: &mut PreGeneratedStore)
    ensures
        final(store)@.len() == 0,
{
    store.clear();
}

/// The number of pre-generated bitmaps waiting.
pub fn global_cache_size(store: &PreGeneratedStore) -> (r: usize)
    ensures
        r == store@.len(),
{
    store.len()
}

/// A bitmap stored under a key is what taking that key gives back, and the
/// store keeps one bitmap per key.
pub proof fn lemma_take_after_store(s: Seq<(GlyphKey, SdfBitmapView)>, k: GlyphKey, b: SdfBitmapView)
    requires
        keys_unique(s),
    ensures
        keys_unique(stored(s, k, b)),
        taken(stored(s, k, b), k).1 == Some(b),
        taken(stored(s, k, b), k).0.len() == s.len() - (if key_index(s, k) is Some {
            1int
        } else {
            0
        }),
{
    let t = stored(s, k, b);
    match key_index(s, k) {
        Some(i) => {
            assert(t[i].0 == k);
            let c = choose|c: int| 0 <= c < t.len() && t[c].0 == k;
            if c != i {
                assert(s[c].0 == k);
                if c < i {
                    assert(s[c].0 != s[i].0);
                } else {
                    assert(s[i].0 != s[c].0);
                }
            }
        },
        None => {
            assert(forall|j: int| 0 <= j < s.len() ==> s[j].0 != k);
            assert(t[s.len() as int].0 == k);
            let c = choose|c: int| 0 <= c < t.len() && t[c].0 == k;
            if c != s.len() {
                assert(s[c].0 == k);
            }
        },
    }
}

/// Where keys are unique, the entry that holds a key is the one it is found at.
proof fn lemma_key_index_at(s: Seq<(GlyphKey, SdfBitmapView)>, k: GlyphKey, i: int)
    requires
        keys_unique(s),
        0 <= i < s.len(),
        s[i].0 == k,
    ensures
        key_index(s, k) == Some(i),
{
    let c = choose|c: int| 0 <= c < s.len() && s[c].0 == k;
    if c != i {
        if c < i {
            assert(s[c].0 != s[i].0);
        } else {
            assert(s[i].0 != s[c].0);
        }
    }
}

/// Storing a bitmap under a key changes what that key holds and nothing else.
pub proof fn lemma_lookup_stored(s: Seq<(GlyphKey, SdfBitmapView)>, k: GlyphKey, b: SdfBitmapView, k2: GlyphKey)
    requires
        keys_unique(s),
    ensures
        keys_unique(stored(s, k, b)),
        lookup(stored(s, k, b), k2) == (if k2 == k {
            Some(b)
        } else {
            lookup(s, k2)
        }),
{
    lemma_take_after_store(s, k, b);
    let t = stored(s, k, b);
    match key_index(s, k) {
        Some(i) => {
            assert(s[i].0 == k);
            if k2 == k {
                lemma_key_index_at(t, k, i);
            } else {
                match key_index(s, k2) {
                    Some(x) => {
                        assert(s[x].0 == k2);
                        lemma_key_index_at(t, k2, x);
                    },
                    None => {
                        assert(forall|x: int| 0 <= x < t.len() ==> t[x].0 != k2);
                    },
                }
            }
        },
        None => {
            if k2 == k {
                lemma_key_index_at(t, k, s.len() as int);
            } else {
                match key_index(s, k2) {
                    Some(x) => {
                        assert(s[x].0 == k2);
                        lemma_key_index_at(t, k2, x);
                    },
                    None => {
                        assert(forall|x: int| 0 <= x < t.len() ==> t[x].0 != k2);
                    },
                }
            }
        },
    }
}

/// In a batch without repeated keys, the entries from position `j` on give
/// a key the bitmap at `j` if that is its entry, else what the later
/// entries give it.
proof fn lemma_lookup_front(t: Seq<(GlyphKey, SdfBitmapView)>, j: int, k: GlyphKey)
    requires
        keys_unique(t),
        0 <= j < t.len(),
    ensures
        lookup(t.subrange(j, t.len() as int), k) == (if t[j].0 == k {
            Some(t[j].1)
        } else {
            lookup(t.subrange(j + 1, t.len() as int), k)
        }),
{
    let u = t.subrange(j, t.len() as int);
    let w = t.subrange(j + 1, t.len() as int);
    assert forall|a: int, b: int| 0 <= a < b < u.len() implies #[trigger] u[a].0 != #[trigger] u[b].0 by {
        assert(u[a] == t[j + a]);
        assert(u[b] == t[j + b]);
    }
    assert forall|a: int, b: int| 0 <= a < b < w.len() implies #[trigger] w[a].0 != #[trigger] w[b].0 by {
        assert(w[a] == t[j + 1 + a]);
        assert(w[b] == t[j + 1 + b]);
    }
    assert(u[0] == t[j]);
    if t[j].0 == k {
        lemma_key_index_at(u, k, 0);
    } else {
        match key_index(w, k) {
            Some(x) => {
                assert(w[x].0 == k);
                assert(u[x + 1] == w[x]);
                lemma_key_index_at(u, k, x + 1);
            },
            None => {
                assert forall|x: int| 0 <= x < u.len() implies u[x].0 != k by {
                    if x > 0 {
                        assert(u[x] == w[x - 1]);
                    }
                }
            },
        }
    }
}

/// Taking a key out leaves it holding nothing, keeps what every other key
/// holds, and hands out what the key held.
pub proof fn lemma_lookup_taken(s: Seq<(GlyphKey, SdfBitmapView)>, k: GlyphKey, k2: GlyphKey)
    requires
        keys_unique(s),
    ensures
        keys_unique(taken(s, k).0),
        taken(s, k).1 == lookup(s, k),
        lookup(taken(s, k).0, k2) == (if k2 == k {
            None
        } else {
            lookup(s, k2)
        }),
{
    match key_index(s, k) {
        Some(i) => {
            assert(s[i].0 == k);
            let t = s.remove(i);
            assert forall|a: int, b: int| 0 <= a < b < t.len() implies #[trigger] t[a].0
                != #[trigger] t[b].0 by {
                let a0 = if a < i { a } else { a + 1 };
                let b0 = if b < i { b } else { b + 1 };
                assert(s[a0].0 != s[b0].0);
            }
            if k2 == k {
                assert forall|x: int| 0 <= x < t.len() implies t[x].0 != k by {
                    let x0 = if x < i { x } else { x + 1 };
                    assert(t[x] == s[x0]);
                    if x0 < i {
                        assert(s[x0].0 != s[i].0);
                    } else {
                        assert(s[i].0 != s[x0].0);
                    }
                }
            } else {
                match key_index(s, k2) {
                    Some(x) => {
                        assert(s[x].0 == k2);
                        let x1 = if x < i { x } else { x - 1 };
                        assert(t[x1] == s[x]);
                        lemma_key_index_at(t, k2, x1);
                    },
                    None => {
                        assert forall|x: int| 0 <= x < t.len() implies t[x].0 != k2 by {
                            let x0 = if x < i { x } else { x + 1 };
                            assert(t[x] == s[x0]);
                        }
                    },
                }
            }
        },
        None => {},
    }
}

/// Where keys are unique, the store holds as many entries as keys.
pub proof fn lemma_key_count(s: Seq<(GlyphKey, SdfBitmapView)>)
    requires
        keys_unique(s),
    ensures
        key_set(s).finite(),
        s.len() == key_set(s).len(),
{
    let ks = s.map_values(|e: (GlyphKey, SdfBitmapView)| e.0);
    assert forall|i: int, j: int| 0 <= i < ks.len() && 0 <= j < ks.len() && i != j implies ks[i]
        != ks[j] by {
        if i < j {
            assert(s[i].0 != s[j].0);
        } else {
            assert(s[j].0 != s[i].0);
        }
    }
    ks.unique_seq_to_set();
    assert forall|k: GlyphKey| key_set(s).contains(k) <==> ks.to_set().contains(k) by {
        if key_index(s, k) is Some {
            let i = key_index(s, k)->0;
            assert(ks[i] == k);
        }
        if ks.contains(k) {
            let i = choose|i: int| 0 <= i < ks.len() && ks[i] == k;
            assert(s[i].0 == k);
        }
    }
    assert(key_set(s) =~= ks.to_set());
}

/// After an import, the store holds one bitmap for each key it held before
/// or that the batch brought: keys already there are overwritten, not
/// counted twice.
pub proof fn lemma_import_size(
    s: Seq<(GlyphKey, SdfBitmapView)>,
    m: Seq<(GlyphKey, SdfBitmapView)>,
    f: Seq<(GlyphKey, SdfBitmapView)>,
)
    requires
        keys_unique(s),
        keys_unique(m),
        imported(s, m, f),
    ensures
        f.len() == key_set(s).union(key_set(m)).len(),
{
    assert forall|k: GlyphKey| key_set(f).contains(k) <==> key_set(s).union(key_set(m)).contains(k) by {
        assert(lookup(f, k) == (if lookup(m, k) is Some {
            lookup(m, k)
        } else {
            lookup(s, k)
        }));
    }
    assert(key_set(f) =~= key_set(s).union(key_set(m)));
    lemma_key_count(f);
}

/// After an import that brought bitmap `b` under key `k`, taking `k` hands
/// out `b` and leaves one entry fewer; taking `k` again hands out nothing.
pub proof fn lemma_import_then_take(
    s: Seq<(GlyphKey, SdfBitmapView)>,
    m: Seq<(GlyphKey, SdfBitmapView)>,
    f: Seq<(GlyphKey, SdfBitmapView)>,
    k: GlyphKey,
    b: SdfBitmapView,
)
    requires
        keys_unique(s),
        keys_unique(m),
        imported(s, m, f),
        lookup(m, k) == Some(b),
    ensures
        taken(f, k).1 == Some(b),
        taken(f, k).0.len() == f.len() - 1,
        taken(taken(f, k).0, k).1 is None,
{
    assert(lookup(f, k) == Some(b));
    lemma_lookup_taken(f, k, k);
    lemma_lookup_taken(taken(f, k).0, k, k);
}


/// A render target of the per-line blur pool, as far as reuse goes.
#[derive(Debug, Clone, Copy, PartialEq, Eq, Structural)]
pub struct PoolSlot {
    pub width: u32,
    pub height: u32,
    pub in_use: bool,
}

/// How a slot was obtained.
#[derive(Debug, Clone, Copy, PartialEq, Eq, Structural)]
pub enum SlotSource {
    /// A free slot of the requested size is reused as it is.
    Reused,
    /// A free slot of another size gets a new texture.
    Recreated,
    /// No slot was free: a new one is added.
    Created,
}

/// The pool of line textures of the blur renderer.
#[derive(Debug)]
pub struct TexturePool {
    pub slots: Vec<PoolSlot>,
}

/// Whether a slot can take a line: it is free and, where `same_size`, of
/// the line's size.
pub open spec fn takes(s: PoolSlot, w: u32, h: u32, same_size: bool) -> bool {
    !s.in_use && (!same_size || (s.width == w && s.height == h))
}

impl TexturePool {
    pub fn new() -> (r: Self)
        ensures
            r.slots@.len() == 0,
    {
        TexturePool { slots: Vec::new() }
    }

    fn find_free(&self, width: u32, height: u32, same_size: bool) -> (r: Option<usize>)
        ensures
            match r {
                Some(i) => i < self.slots@.len() && takes(self.slots@[i as int], width, height, same_size)
                    && forall|j: int| 0 <= j < i ==> !takes(#[trigger] self.slots@[j], width, height, same_size),
                None => forall|j: int|
                    0 <= j < self.slots@.len() ==> !takes(#[trigger] self.slots@[j], width, height, same_size),
            },
    {
        let mut i: usize = 0;
        while i < self.slots.len()
            invariant
                i <= self.slots@.len(),
                forall|j: int| 0 <= j < i ==> !takes(#[trigger] self.slots@[j], width, height, same_size),
            decreases self.slots.len() - i,
        {
            let t = self.slots[i];
            if !t.in_use && (!same_size || (t.width == width && t.height == height)) {
                return Some(i);
            }
            i = i + 1;
        }
        None
    }

    /// Hands out a slot for a line of the given size: the first free slot
    /// of that size, else the first free slot (which gets a new texture),
    /// else a new slot at the end. The slot is then in use and of the size.
    pub fn acquire(&mut self, width: u32, height: u32) -> (r: (usize, SlotSource))
        ensures
            r.0 < final(self).slots@.len(),
            final(self).slots@[r.0 as int] == (PoolSlot { width, height, in_use: true }),
            forall|j: int|
                0 <= j < old(self).slots@.len() && j != r.0 ==> final(self).slots@[j] == old(self).slots@[j],
            r.1 == SlotSource::Reused ==> takes(old(self).slots@[r.0 as int], width, height, true)
                && forall|j: int| 0 <= j < r.0 ==> !takes(#[trigger] old(self).slots@[j], width, height, true),
            r.1 == SlotSource::Recreated ==> takes(old(self).slots@[r.0 as int], width, height, false)
                && (forall|j: int|
                0 <= j < old(self).slots@.len() ==> !takes(#[trigger] old(self).slots@[j], width, height, true))
                && forall|j: int| 0 <= j < r.0 ==> !takes(#[trigger] old(self).slots@[j], width, height, false),
            r.1 == SlotSource::Created ==> r.0 == old(self).slots@.len() && (forall|j: int|
                0 <= j < old(self).slots@.len() ==> !takes(#[trigger] old(self).slots@[j], width, height, false)),
            r.1 != SlotSource::Created ==> final(self).slots@.len() == old(self).slots@.len(),
            r.1 == SlotSource::Created ==> final(self).slots@.len() == old(self).slots@.len() + 1,
    {
        match self.find_free(width, height, true) {
            Some(i) => {
                self.slots.set(i, PoolSlot { width, height, in_use: true });
                (i, SlotSource::Reused)
            },
            None => match self.find_free(width, height, false) {
                Some(i) => {
                    self.slots.set(i, PoolSlot { width, height, in_use: true });
                    (i, SlotSource::Recreated)
                },
                None => {
                    let idx = self.slots.len();
                    self.slots.push(PoolSlot { width, height, in_use: true });
                    (idx, SlotSource::Created)
                },
            },
        }
    }

    /// Frees every slot for the next frame.
    pub fn release_all(&mut self)
        ensures
            final(self).slots@.len() == old(self).slots@.len(),
            forall|j: int|
                0 <= j < final(self).slots@.len() ==> final(self).slots@[j] == (PoolSlot {
                    in_use: false,
                    ..old(self).slots@[j]
                }),
    {
        let mut i: usize = 0;
        while i < self.slots.len()
            invariant
                i <= self.slots@.len(),
                self.slots@.len() == old(self).slots@.len(),
                forall|j: int|
                    0 <= j < self.slots@.len() ==> self.slots@[j] == (if j < i {
                        PoolSlot { in_use: false, ..old(self).slots@[j] }
                    } else {
                        old(self).slots@[j]
                    }),
            decreases self.slots.len() - i,
        {
            let t = self.slots[i];
            self.slots.set(i, PoolSlot { in_use: false, ..t });
            i = i + 1;
        }
    }
}

/// A slot in use is never handed out again before the pool is released.
pub proof fn lemma_slot_in_use_not_reacquired(slots: Seq<PoolSlot>, k: int, w: u32, h: u32)
    requires
        0 <= k < slots.len(),
        slots[k].in_use,
    ensures
        !takes(slots[k], w, h, true),
        !takes(slots[k], w, h, false),
{
}

} // verus!
