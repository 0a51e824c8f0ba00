//! The glyph cache: a generation-scoped texture atlas.
//!
//! Glyph slots are packed row by row into a fixed-width grid of cells inside
//! one backing texture. Within a generation the atlas is append-only: a region
//! handed out stays valid and identical until the generation changes. A
//! font-size change replaces the whole atlas and increments the generation,
//! invalidating every region of the prior generation at once.

use vstd::prelude::*;
use std::collections::HashMap;
use crate::geometry::CellSize;
use crate::Error;

verus! {

broadcast use vstd::std_specs::hash::group_hash_axioms;

/// The style attributes that select a distinct glyph image.
#[derive(Debug, Clone, Copy, PartialEq, Eq, Structural)]
pub struct StyleFlags {
    pub bold: bool,
    pub italic: bool,
    pub underline: bool,
}

impl StyleFlags {
    /// The plain style: no attribute set.
    pub fn plain() -> (s: StyleFlags)
        ensures
            s == (StyleFlags { bold: false, italic: false, underline: false }),
    {
        StyleFlags { bold: false, italic: false, underline: false }
    }
}

/// The location and metrics of one rasterized glyph inside the atlas
/// texture, scoped to the generation it was created in.
#[derive(Debug, Clone, Copy, PartialEq, Eq, Structural)]
pub struct AtlasRegion {
    /// Left edge inside the atlas texture, in pixels.
    pub x: u32,
    /// Top edge inside the atlas texture, in pixels.
    pub y: u32,
    /// Width of the region, in pixels: one cell width.
    pub width: u32,
    /// Height of the region, in pixels: one cell height.
    pub height: u32,
    /// The cache generation this region belongs to.
    pub generation: u64,
}

/// Number of glyph cells in one atlas row; fixed, so that growing the atlas
/// by appending rows never moves a region already handed out.
pub const ATLAS_COLS: u32 = 32;

/// Number of glyph rows a fresh atlas starts with.
pub const ATLAS_INITIAL_ROWS: u32 = 32;

/// The largest number of glyph rows the atlas may grow to; beyond it the
/// backing texture would exceed device limits.
pub const ATLAS_MAX_ROWS: u32 = 32768;

/// The three style bits packed into an integer, injectively.
pub open spec fn spec_style_bits(style: StyleFlags) -> int {
    (if style.bold {
        4int
    } else {
        0int
    }) + (if style.italic {
        2int
    } else {
        0int
    }) + (if style.underline {
        1int
    } else {
        0int
    })
}

/// The cache key for a (character, style) pair within the current
/// generation, packed injectively into one integer.
pub open spec fn spec_glyph_code(ch: char, style: StyleFlags) -> u64 {
    ((ch as int) * 8 + spec_style_bits(style)) as u64
}

/// Computes the cache key of a (character, style) pair.
pub fn glyph_code(ch: char, style: StyleFlags) -> (code: u64)
    ensures
        code == spec_glyph_code(ch, style),
{
    let bits: u64 = (if style.bold {
        4u64
    } else {
        0u64
    }) + (if style.italic {
        2u64
    } else {
        0u64
    }) + (if style.underline {
        1u64
    } else {
        0u64
    });
    (ch as u64) * 8 + bits
}

/// Distinct (character, style) pairs have distinct cache keys: the key
/// packing loses nothing.
pub proof fn lemma_glyph_code_injective(c1: char, s1: StyleFlags, c2: char, s2: StyleFlags)
    requires
        spec_glyph_code(c1, s1) == spec_glyph_code(c2, s2),
    ensures
        c1 == c2,
        s1 == s2,
{
    assert(0 <= spec_style_bits(s1) < 8);
    assert(0 <= spec_style_bits(s2) < 8);
    assert((c1 as int) * 8 + spec_style_bits(s1) == (c2 as int) * 8 + spec_style_bits(s2));
    assert(c1 as int == c2 as int && spec_style_bits(s1) == spec_style_bits(s2))
        by (nonlinear_arith)
        requires
            (c1 as int) * 8 + spec_style_bits(s1) == (c2 as int) * 8 + spec_style_bits(s2),
            0 <= spec_style_bits(s1) < 8,
            0 <= spec_style_bits(s2) < 8,
    ;
}

/// The mathematical state of the glyph cache: what the atlas holds, how far
/// it is filled, and which generation it is in.
pub struct CacheModel {
    pub cell: CellSize,
    pub generation: u64,
    pub rows: u32,
    pub next_slot: u32,
    pub entries: Map<u64, AtlasRegion>,
}

/// The region a given slot index occupies: slots fill a row of
/// `ATLAS_COLS` cells before starting the next row.
pub open spec fn spec_region_for_slot(slot: int, cell: CellSize, generation: u64) -> AtlasRegion {
    AtlasRegion {
        x: ((slot % (ATLAS_COLS as int)) * cell.width) as u32,
        y: ((slot / (ATLAS_COLS as int)) * cell.height) as u32,
        width: cell.width,
        height: cell.height,
        generation,
    }
}

impl CacheModel {
    /// The number of glyph slots the atlas currently has room for.
    pub open spec fn capacity(self) -> int {
        ATLAS_COLS * self.rows
    }

    /// Well-formedness: valid cell metrics, atlas dimensions within device
    /// limits, the fill level within capacity, and every stored region
    /// belonging to the current generation.
    pub open spec fn wf(self) -> bool {
        &&& self.cell.wf()
        &&& ATLAS_INITIAL_ROWS <= self.rows <= ATLAS_MAX_ROWS
        &&& self.next_slot <= self.capacity()
        &&& forall|code: u64|
            self.entries.contains_key(code) ==> (#[trigger] self.entries[code]).generation
                == self.generation
    }

    /// Whether a region may still be referenced against this cache: only
    /// regions of the current generation are valid.
    pub open spec fn region_current(self, region: AtlasRegion) -> bool {
        region.generation == self.generation
    }
}

/// What resolving `code` does to the cache, and what it returns: a hit
/// returns the stored region unchanged; a miss appends a slot (growing the
/// atlas by rows when it is full) and reports that the glyph must be
/// rasterized; a miss with the atlas at its maximum size fails and leaves
/// the cache unchanged.
pub open spec fn model_resolve(m: CacheModel, code: u64) -> (CacheModel, Result<
    (AtlasRegion, bool),
    Error,
>) {
    if m.entries.contains_key(code) {
        (m, Ok((m.entries[code], false)))
    } else if m.next_slot < ATLAS_COLS * ATLAS_MAX_ROWS {
        let region = spec_region_for_slot(m.next_slot as int, m.cell, m.generation);
        let grown = if m.next_slot < m.capacity() {
            m.rows
        } else if m.rows * 2 <= ATLAS_MAX_ROWS {
            (m.rows * 2) as u32
        } else {
            ATLAS_MAX_ROWS
        };
        (
            CacheModel {
                cell: m.cell,
                generation: m.generation,
                rows: grown,
                next_slot: (m.next_slot + 1) as u32,
                entries: m.entries.insert(code, region),
            },
            Ok((region, true)),
        )
    } else {
        (m, Err(Error::AtlasExhausted))
    }
}

/// What a font-size change does to the cache on success: a fresh, empty
/// atlas with the new cell metrics and the next generation.
pub open spec fn model_font_changed(m: CacheModel, cell: CellSize) -> CacheModel {
    CacheModel {
        cell,
        generation: (m.generation + 1) as u64,
        rows: ATLAS_INITIAL_ROWS,
        next_slot: 0,
        entries: Map::empty(),
    }
}

/// The glyph cache over a grid-packed atlas texture.
pub struct GlyphCache {
    cell: CellSize,
    generation: u64,
    rows: u32,
    next_slot: u32,
    map: HashMap<u64, AtlasRegion>,
}

impl GlyphCache {
    /// The mathematical state of this cache.
    pub closed spec fn model(self) -> CacheModel {
        CacheModel {
            cell: self.cell,
            generation: self.generation,
            rows: self.rows,
            next_slot: self.next_slot,
            entries: self.map@,
        }
    }

    /// Well-formedness of the cache: that of its model.
    pub open spec fn wf(self) -> bool {
        self.model().wf()
    }

    /// The atlas contents: cache key to region, all of the current
    /// generation.
    pub open spec fn entries(self) -> Map<u64, AtlasRegion> {
        self.model().entries
    }

    /// The current cell metrics, as a specification value.
    pub open spec fn spec_cell(self) -> CellSize {
        self.model().cell
    }

    /// The current generation, as a specification value.
    pub open spec fn spec_generation(self) -> u64 {
        self.model().generation
    }

    /// Creates a cache for the given cell metrics, in generation zero, with
    /// an empty atlas.
    pub fn new(cell: CellSize) -> (c: GlyphCache)
        requires
            cell.wf(),
        ensures
            c.wf(),
            c.model() == (CacheModel {
                cell,
                generation: 0,
                rows: ATLAS_INITIAL_ROWS,
                next_slot: 0,
                entries: Map::<u64, AtlasRegion>::empty(),
            }),
    {
        GlyphCache {
            cell,
            generation: 0,
            rows: ATLAS_INITIAL_ROWS,
            next_slot: 0,
            map: HashMap::new(),
        }
    }

    /// Returns the current cell pixel size; a pure query.
    pub fn cell_size(&self) -> (c: CellSize)
        ensures
            c == self.spec_cell(),
    {
        self.cell
    }

    /// Returns the current cache generation; a pure query.
    pub fn current_generation(&self) -> (g: u64)
        ensures
            g == self.spec_generation(),
    {
        self.generation
    }

    /// Resolves the atlas region for a (character, style) key in the current
    /// generation. On a hit the stored region is returned unchanged and
    /// nothing is rasterized; on a miss a fresh slot is appended (growing
    /// the atlas when full) and the second component is `true`: the caller
    /// must rasterize the glyph into the returned region. Fails only when
    /// the key is new and the atlas is already at its maximum size, leaving
    /// the cache unchanged.
    pub fn resolve(&mut self, ch: char, style: StyleFlags) -> (r: Result<(AtlasRegion, bool), Error>)
        requires
            old(self).wf(),
        ensures
            final(self).wf(),
            (final(self).model(), r) == model_resolve(
                old(self).model(),
                spec_glyph_code(ch, style),
            ),
    {
        let code = glyph_code(ch, style);
        match self.map.get(&code) {
            Some(region) => Ok((*region, false)),
            None => {
                let capacity = ATLAS_COLS * self.rows;
                if self.next_slot == capacity {
                    if self.rows >= ATLAS_MAX_ROWS {
                        return Err(Error::AtlasExhausted);
                    }
                    self.rows = if self.rows > ATLAS_MAX_ROWS / 2 {
                        ATLAS_MAX_ROWS
                    } else {
                        self.rows * 2
                    };
                }
                let slot = self.next_slot;
                proof {
                    assert(slot < ATLAS_COLS * self.rows);
                    vstd::arithmetic::mul::lemma_mul_upper_bound(
                        (slot % ATLAS_COLS) as int,
                        31,
                        self.cell.width as int,
                        4096,
                    );
                    vstd::arithmetic::mul::lemma_mul_upper_bound(
                        (slot / ATLAS_COLS) as int,
                        32767,
                        self.cell.height as int,
                        4096,
                    );
                }
                let region = AtlasRegion {
                    x: (slot % ATLAS_COLS) * self.cell.width,
                    y: (slot / ATLAS_COLS) * self.cell.height,
                    width: self.cell.width,
                    height: self.cell.height,
                    generation: self.generation,
                };
                self.map.insert(code, region);
                self.next_slot = slot + 1;
                proof {
                    assert forall|k: u64| self.map@.contains_key(k) implies (
                    #[trigger] self.map@[k]).generation == self.generation by {
                        if k != code {
                            assert(old(self).map@.contains_key(k));
                            assert(old(self).model().entries[k].generation == old(
                                self,
                            ).model().generation);
                        }
                    }
                }
                Ok((region, true))
            },
        }
    }

    /// Applies a font-size change given the outcome of loading the font at
    /// the new size: `Some(cell)` carries the new cell metrics, `None` means
    /// the font could not be loaded. On success the generation is
    /// incremented and the whole atlas is discarded; on failure the cache is
    /// left in its prior generation, unchanged.
    pub fn update_font_size(&mut self, metrics: Option<CellSize>) -> (r: Result<(), Error>)
        requires
            old(self).wf(),
            old(self).spec_generation() < u64::MAX,
            metrics matches Some(cell) ==> cell.wf(),
        ensures
            final(self).wf(),
            metrics is None ==> r == Err::<(), Error>(Error::Rasterization) && *final(self) == *old(
                self,
            ),
            metrics matches Some(cell) ==> r == Ok::<(), Error>(()) && final(self).model()
                == model_font_changed(old(self).model(), cell),
    {
        match metrics {
            None => Err(Error::Rasterization),
            Some(cell) => {
                self.cell = cell;
                self.generation = self.generation + 1;
                self.rows = ATLAS_INITIAL_ROWS;
                self.next_slot = 0;
                self.map = HashMap::new();
                Ok(())
            },
        }
    }
}

/// Resolving the same (character, style, generation) key twice returns the
/// identical atlas region: once the first resolution succeeds, a second
/// resolution returns the same region, rasterizes nothing, and leaves the
/// cache exactly as it was.
pub proof fn lemma_resolve_idempotent(m: CacheModel, code: u64)
    requires
        m.wf(),
        !(model_resolve(m, code).1 is Err),
    ensures
        ({
            let (m1, r1) = model_resolve(m, code);
            let (m2, r2) = model_resolve(m1, code);
            &&& m2 == m1
            &&& r2 == Ok::<(AtlasRegion, bool), Error>((r1->Ok_0.0, false))
        }),
{
}

/// A successful font-size change increments the generation and invalidates
/// every previously resolved atlas region: the new atlas is empty, and no
/// region of the prior generation is current against the new cache.
pub proof fn lemma_font_change_invalidates(m: CacheModel, cell: CellSize, region: AtlasRegion)
    requires
        m.wf(),
        m.generation < u64::MAX,
        region.generation == m.generation,
    ensures
        model_font_changed(m, cell).generation == m.generation + 1,
        model_font_changed(m, cell).entries === Map::empty(),
        !model_font_changed(m, cell).region_current(region),
{
}

} // verus!
