//! Turning a canvas of styled cells into a frame plan: per-cell instance
//! data over atlas regions, plus the list of glyphs that must be rasterized
//! and uploaded before the frame is drawn.

use vstd::prelude::*;
use vstd::set_lib::lemma_len_subset;
use crate::cache::{spec_glyph_code, AtlasRegion, GlyphCache, StyleFlags, ATLAS_COLS, ATLAS_MAX_ROWS};
use crate::geometry::GridSize;
use crate::Error;

verus! {

broadcast use vstd::seq_lib::seq_to_set_is_finite;

/// A color with alpha, eight bits per channel.
#[derive(Debug, Clone, Copy, PartialEq, Eq, Structural)]
pub struct Rgba {
    pub r: u8,
    pub g: u8,
    pub b: u8,
    pub a: u8,
}

/// One grid position of a canvas: a character with its style and colors.
#[derive(Debug, Clone, Copy, PartialEq, Eq, Structural)]
pub struct Cell {
    pub ch: char,
    pub style: StyleFlags,
    pub fg: Rgba,
    pub bg: Rgba,
}

/// The full grid of cells the application produced for one frame, in row
/// major order.
#[derive(Debug, Clone)]
pub struct Canvas {
    pub size: GridSize,
    pub cells: Vec<Cell>,
}

impl Canvas {
    /// The cell list covers the grid exactly.
    pub open spec fn wf(self) -> bool {
        self.cells@.len() == self.size.columns * self.size.rows
    }

    /// Executable twin of [`Self::wf`].
    pub fn check_wf(&self) -> (r: bool)
        ensures
            r == self.wf(),
    {
        proof {
            let c = self.size.columns as int;
            let rows = self.size.rows as int;
            assert(c * rows < 0x100000000000000000000000000000000int) by (nonlinear_arith)
                requires
                    0 <= c < 0x10000000000000000int,
                    0 <= rows < 0x10000000000000000int,
            ;
        }
        (self.cells.len() as u128) == (self.size.columns as u128) * (self.size.rows as u128)
    }
}

/// The per-cell data a draw call consumes: grid position, atlas region and
/// colors.
#[derive(Debug, Clone, Copy, PartialEq, Eq, Structural)]
pub struct CellInstance {
    pub column: usize,
    pub row: usize,
    pub region: AtlasRegion,
    pub fg: Rgba,
    pub bg: Rgba,
}

/// One glyph that must be rasterized and uploaded into its atlas region
/// before the frame is drawn.
#[derive(Debug, Clone, Copy, PartialEq, Eq, Structural)]
pub struct RasterCommand {
    pub ch: char,
    pub style: StyleFlags,
    pub region: AtlasRegion,
}

/// Everything the draw call needs for one frame.
#[derive(Debug, Clone)]
pub struct FramePlan {
    pub instances: Vec<CellInstance>,
    pub rasterizations: Vec<RasterCommand>,
}

/// The cache key of a cell's glyph.
pub open spec fn cell_code(c: Cell) -> u64 {
    spec_glyph_code(c.ch, c.style)
}

/// The cache key a raster command is for.
pub open spec fn cmd_code(cmd: RasterCommand) -> u64 {
    spec_glyph_code(cmd.ch, cmd.style)
}

/// The cache keys of a sequence of cells, in order.
pub open spec fn code_seq(cells: Seq<Cell>) -> Seq<u64> {
    cells.map_values(|c: Cell| cell_code(c))
}

/// The set of cache keys the first `n` cells need.
pub open spec fn prefix_codes(cells: Seq<Cell>, n: int) -> Set<u64> {
    code_seq(cells.take(n)).to_set()
}

/// The set of cache keys a whole canvas needs.
pub open spec fn canvas_codes(canvas: Canvas) -> Set<u64> {
    code_seq(canvas.cells@).to_set()
}

/// How many glyphs of the canvas are not in the atlas yet.
pub open spec fn missing_count(entries: Map<u64, AtlasRegion>, canvas: Canvas) -> int {
    canvas_codes(canvas).difference(entries.dom()).len() as int
}

/// Instance `i` of a plan renders cell `i` of the canvas: same colors, the
/// grid position of index `i`, and the atlas region the cache maps the
/// cell's glyph to.
pub open spec fn instance_ok(
    inst: CellInstance,
    canvas: Canvas,
    i: int,
    entries: Map<u64, AtlasRegion>,
) -> bool {
    let c = canvas.cells@[i];
    &&& inst.column == i % (canvas.size.columns as int)
    &&& inst.row == i / (canvas.size.columns as int)
    &&& inst.fg == c.fg
    &&& inst.bg == c.bg
    &&& entries.contains_key(cell_code(c))
    &&& inst.region == entries[cell_code(c)]
}

/// A raster command is for a glyph that was not in the atlas before the
/// frame, and its region is the one the cache now maps that glyph to.
pub open spec fn raster_ok(
    cmd: RasterCommand,
    old_entries: Map<u64, AtlasRegion>,
    new_entries: Map<u64, AtlasRegion>,
) -> bool {
    &&& !old_entries.contains_key(cmd_code(cmd))
    &&& new_entries.contains_key(cmd_code(cmd))
    &&& new_entries[cmd_code(cmd)] == cmd.region
}

/// Extending a prefix by one cell adds exactly that cell's code.
proof fn lemma_prefix_codes_step(cells: Seq<Cell>, i: int)
    requires
        0 <= i < cells.len(),
    ensures
        prefix_codes(cells, i + 1) == prefix_codes(cells, i).insert(cell_code(cells[i])),
{
    let a = prefix_codes(cells, i + 1);
    let b = prefix_codes(cells, i).insert(cell_code(cells[i]));
    let s1 = code_seq(cells.take(i + 1));
    let s0 = code_seq(cells.take(i));
    assert forall|x: u64| a.contains(x) implies b.contains(x) by {
        let j = choose|j: int| 0 <= j < s1.len() && s1[j] == x;
        if j < i {
            assert(s0[j] == x);
            assert(s0.contains(x));
        } else {
            assert(x == cell_code(cells[i]));
        }
    }
    assert forall|x: u64| b.contains(x) implies a.contains(x) by {
        if x == cell_code(cells[i]) {
            assert(s1[i] == x);
            assert(s1.contains(x));
        } else {
            let j = choose|j: int| 0 <= j < s0.len() && s0[j] == x;
            assert(s1[j] == x);
            assert(s1.contains(x));
        }
    }
    assert(a =~= b);
}

/// A prefix never needs a code the whole canvas does not need.
proof fn lemma_prefix_codes_subset(cells: Seq<Cell>, i: int)
    requires
        0 <= i <= cells.len(),
    ensures
        prefix_codes(cells, i).subset_of(code_seq(cells).to_set()),
{
    let s0 = code_seq(cells.take(i));
    let s = code_seq(cells);
    assert forall|x: u64| prefix_codes(cells, i).contains(x) implies s.to_set().contains(x) by {
        let j = choose|j: int| 0 <= j < s0.len() && s0[j] == x;
        assert(s[j] == x);
        assert(s.contains(x));
    }
}

/// The prefix of the whole sequence needs exactly the canvas's codes.
proof fn lemma_prefix_codes_all(cells: Seq<Cell>)
    ensures
        prefix_codes(cells, cells.len() as int) == code_seq(cells).to_set(),
{
    assert(cells.take(cells.len() as int) =~= cells);
}

/// A fresh prefix needs nothing.
proof fn lemma_prefix_codes_empty(cells: Seq<Cell>)
    ensures
        prefix_codes(cells, 0) == Set::<u64>::empty(),
        prefix_codes(cells, 0).len() == 0,
{
    let s = code_seq(cells.take(0));
    assert forall|x: u64| !s.to_set().contains(x) by {
        if s.contains(x) {
            let j = choose|j: int| 0 <= j < s.len() && s[j] == x;
        }
    }
    assert(prefix_codes(cells, 0) =~= Set::<u64>::empty());
}

/// Builds the frame plan for a canvas: resolves every cell's glyph through
/// the cache (appending atlas slots for the glyphs seen for the first time
/// this generation) and emits one instance per cell plus one raster command
/// per newly appended glyph. The cache generation is untouched and the
/// atlas is append-only: every region already handed out this generation is
/// preserved. Fails with `AtlasExhausted` exactly when the glyphs the
/// canvas needs do not fit the atlas at its maximum size.
pub fn plan_frame(cache: &mut GlyphCache, canvas: &Canvas) -> (r: Result<FramePlan, Error>)
    requires
        old(cache).wf(),
        canvas.wf(),
    ensures
        final(cache).wf(),
        final(cache).spec_generation() == old(cache).spec_generation(),
        final(cache).spec_cell() == old(cache).spec_cell(),
        old(cache).entries().submap_of(final(cache).entries()),
        r is Ok <==> old(cache).model().next_slot + missing_count(old(cache).entries(), *canvas)
            <= ATLAS_COLS * ATLAS_MAX_ROWS,
        r is Err ==> r == Err::<FramePlan, Error>(Error::AtlasExhausted),
        r matches Ok(plan) ==> {
            &&& final(cache).entries().dom() == old(cache).entries().dom().union(
                canvas_codes(*canvas),
            )
            &&& plan.instances@.len() == canvas.cells@.len()
            &&& forall|i: int|
                0 <= i < canvas.cells@.len() ==> instance_ok(
                    #[trigger] plan.instances@[i],
                    *canvas,
                    i,
                    final(cache).entries(),
                )
            &&& forall|j: int|
                0 <= j < plan.rasterizations@.len() ==> raster_ok(
                    #[trigger] plan.rasterizations@[j],
                    old(cache).entries(),
                    final(cache).entries(),
                )
            &&& forall|j1: int, j2: int|
                0 <= j1 < j2 < plan.rasterizations@.len() ==> cmd_code(plan.rasterizations@[j1])
                    != cmd_code(plan.rasterizations@[j2])
            &&& forall|code: u64|
                final(cache).entries().dom().contains(code) && !old(
                    cache,
                ).entries().dom().contains(code) ==> exists|j: int|
                    0 <= j < plan.rasterizations@.len() && cmd_code(
                        #[trigger] plan.rasterizations@[j],
                    ) == code
        },
{
    let n = canvas.cells.len();
    let columns = canvas.size.columns;
    let mut instances: Vec<CellInstance> = Vec::new();
    let mut rasterizations: Vec<RasterCommand> = Vec::new();
    let mut i: usize = 0;
    proof {
        lemma_prefix_codes_empty(canvas.cells@);
        assert(prefix_codes(canvas.cells@, 0).difference(old(cache).entries().dom())
            =~= Set::<u64>::empty());
    }
    while i < n
        invariant
            i <= n,
            n == canvas.cells@.len(),
            columns == canvas.size.columns,
            canvas.wf(),
            cache.wf(),
            cache.spec_generation() == old(cache).spec_generation(),
            cache.spec_cell() == old(cache).spec_cell(),
            old(cache).entries().submap_of(cache.entries()),
            cache.entries().dom() == old(cache).entries().dom().union(
                prefix_codes(canvas.cells@, i as int),
            ),
            cache.model().next_slot == old(cache).model().next_slot + prefix_codes(
                canvas.cells@,
                i as int,
            ).difference(old(cache).entries().dom()).len(),
            instances@.len() == i,
            forall|j: int|
                0 <= j < i ==> instance_ok(#[trigger] instances@[j], *canvas, j, cache.entries()),
            forall|j: int|
                0 <= j < rasterizations@.len() ==> raster_ok(
                    #[trigger] rasterizations@[j],
                    old(cache).entries(),
                    cache.entries(),
                ),
            forall|j1: int, j2: int|
                0 <= j1 < j2 < rasterizations@.len() ==> cmd_code(rasterizations@[j1]) != cmd_code(
                    rasterizations@[j2],
                ),
            forall|code: u64|
                cache.entries().dom().contains(code) && !old(cache).entries().dom().contains(code)
                    ==> exists|j: int|
                    0 <= j < rasterizations@.len() && cmd_code(#[trigger] rasterizations@[j])
                        == code,
        decreases n - i,
    {
        let cell = canvas.cells[i];
        proof {
            if columns == 0 {
                vstd::arithmetic::mul::lemma_mul_basics(canvas.size.rows as int);
            }
        }
        let column = i % columns;
        let row = i / columns;
        let ghost entries_before = cache.entries();
        let ghost next_before = cache.model().next_slot;
        let resolved = cache.resolve(cell.ch, cell.style);
        proof {
            lemma_prefix_codes_step(canvas.cells@, i as int);
            assert(code_seq(canvas.cells@.take(i as int)).to_set().finite());
        }
        match resolved {
            Err(e) => {
                proof {
                    let code = cell_code(canvas.cells@[i as int]);
                    let old_dom = old(cache).entries().dom();
                    let pref = prefix_codes(canvas.cells@, i as int).difference(old_dom);
                    let all = canvas_codes(*canvas).difference(old_dom);
                    lemma_prefix_codes_subset(canvas.cells@, i as int);
                    assert(code_seq(canvas.cells@)[i as int] == code);
                    assert(code_seq(canvas.cells@).contains(code));
                    assert(canvas_codes(*canvas).contains(code));
                    assert(code_seq(canvas.cells@).to_set().finite());
                    assert(!cache.entries().dom().contains(code));
                    assert(!pref.contains(code));
                    assert(!old_dom.contains(code));
                    assert(all.contains(code));
                    assert(pref.insert(code).subset_of(all));
                    assert(all.finite());
                    lemma_len_subset(pref.insert(code), all);
                    assert(all.len() >= pref.len() + 1);
                }
                return Err(e);
            },
            Ok((region, needs_raster)) => {
                proof {
                    let code = cell_code(canvas.cells@[i as int]);
                    let old_dom = old(cache).entries().dom();
                    let p0 = prefix_codes(canvas.cells@, i as int);
                    let p1 = prefix_codes(canvas.cells@, i as int + 1);
                    assert(p1 == p0.insert(code));
                    if entries_before.contains_key(code) {
                        assert(cache.entries() == entries_before);
                        assert(old_dom.union(p0).contains(code));
                        assert(old_dom.union(p1) =~= old_dom.union(p0));
                        assert(p1.difference(old_dom) =~= p0.difference(old_dom));
                    } else {
                        assert(cache.entries() == entries_before.insert(code, region));
                        assert(cache.entries().dom() =~= old_dom.union(p1));
                        assert(!p0.contains(code));
                        assert(!old_dom.contains(code));
                        assert(p1.difference(old_dom) =~= p0.difference(old_dom).insert(code));
                        assert(p0.difference(old_dom).finite());
                        assert(p1.difference(old_dom).len() == p0.difference(old_dom).len() + 1);
                        assert(old(cache).entries().submap_of(cache.entries())) by {
                            assert forall|k: u64| old(cache).entries().contains_key(k) implies
                                cache.entries().contains_key(k) && cache.entries()[k] == old(
                                cache,
                            ).entries()[k] by {
                                assert(entries_before.contains_key(k));
                            }
                        }
                        assert forall|j: int| 0 <= j < instances@.len() implies instance_ok(
                            #[trigger] instances@[j],
                            *canvas,
                            j,
                            cache.entries(),
                        ) by {
                            assert(instance_ok(instances@[j], *canvas, j, entries_before));
                            let cj = cell_code(canvas.cells@[j]);
                            assert(entries_before.contains_key(cj));
                            assert(cache.entries()[cj] == entries_before[cj]);
                        }
                        assert forall|j: int| 0 <= j < rasterizations@.len() implies raster_ok(
                            #[trigger] rasterizations@[j],
                            old(cache).entries(),
                            cache.entries(),
                        ) by {
                            assert(raster_ok(rasterizations@[j], old(cache).entries(),
                                entries_before));
                            let cj = cmd_code(rasterizations@[j]);
                            assert(entries_before.contains_key(cj));
                            assert(cache.entries()[cj] == entries_before[cj]);
                        }
                    }
                }
                let ghost rasters_before = rasterizations@;
                if needs_raster {
                    rasterizations.push(RasterCommand { ch: cell.ch, style: cell.style, region });
                    proof {
                        let code = cell_code(canvas.cells@[i as int]);
                        assert(rasterizations@ == rasters_before.push(
                            RasterCommand { ch: cell.ch, style: cell.style, region },
                        ));
                        assert(cmd_code(rasterizations@[rasterizations@.len() - 1]) == code);
                        assert forall|j: int| 0 <= j < rasterizations@.len() implies raster_ok(
                            #[trigger] rasterizations@[j],
                            old(cache).entries(),
                            cache.entries(),
                        ) by {
                            if j < rasterizations@.len() - 1 {
                                assert(rasterizations@[j] == rasters_before[j]);
                                assert(raster_ok(rasters_before[j], old(cache).entries(),
                                    cache.entries()));
                            } else {
                                assert(cache.entries().contains_key(code));
                                assert(cache.entries()[code] == region);
                                assert(!entries_before.contains_key(code));
                                assert(!old(cache).entries().contains_key(code)) by {
                                    if old(cache).entries().contains_key(code) {
                                        assert(entries_before.contains_key(code));
                                    }
                                }
                            }
                        }
                        assert forall|j1: int, j2: int|
                            0 <= j1 < j2 < rasterizations@.len() implies cmd_code(
                            rasterizations@[j1],
                        ) != cmd_code(rasterizations@[j2]) by {
                            if j2 == rasterizations@.len() - 1 {
                                assert(rasterizations@[j1] == rasters_before[j1]);
                                assert(raster_ok(rasters_before[j1], old(cache).entries(),
                                    entries_before));
                                assert(entries_before.contains_key(cmd_code(rasters_before[j1])));
                            } else {
                                assert(rasterizations@[j1] == rasters_before[j1]);
                                assert(rasterizations@[j2] == rasters_before[j2]);
                            }
                        }
                    }
                }
                proof {
                    let code = cell_code(canvas.cells@[i as int]);
                    assert forall|c: u64|
                        cache.entries().dom().contains(c) && !old(
                            cache,
                        ).entries().dom().contains(c) implies exists|j: int|
                        0 <= j < rasterizations@.len() && cmd_code(#[trigger] rasterizations@[j])
                            == c by {
                        if entries_before.dom().contains(c) {
                            let j = choose|j: int|
                                0 <= j < rasters_before.len() && cmd_code(rasters_before[j]) == c;
                            assert(rasterizations@[j] == rasters_before[j]);
                            assert(cmd_code(rasterizations@[j]) == c);
                        } else {
                            assert(c == code);
                            let j = rasterizations@.len() - 1;
                            assert(cmd_code(rasterizations@[j]) == c);
                        }
                    }
                }
                instances.push(CellInstance { column, row, region, fg: cell.fg, bg: cell.bg });
                proof {
                    let code = cell_code(canvas.cells@[i as int]);
                    assert(instances@[i as int].region == region);
                    assert(cache.entries().contains_key(code));
                    assert(cache.entries()[code] == region);
                }
            },
        }
        i = i + 1;
    }
    proof {
        lemma_prefix_codes_all(canvas.cells@);
    }
    let ghost rs = rasterizations@;
    let plan = FramePlan { instances, rasterizations };
    proof {
        assert(plan.rasterizations@ == rs);
        assert forall|code: u64|
            cache.entries().dom().contains(code) && !old(cache).entries().dom().contains(
                code,
            ) implies exists|j: int|
            0 <= j < plan.rasterizations@.len() && cmd_code(#[trigger] plan.rasterizations@[j])
                == code by {
            let j = choose|j: int| 0 <= j < rs.len() && cmd_code(rs[j]) == code;
            assert(cmd_code(plan.rasterizations@[j]) == code);
        }
    }
    Ok(plan)
}

} // verus!
