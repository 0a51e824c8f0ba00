use glyphgrid::cache::{GlyphCache, StyleFlags};
use glyphgrid::geometry::{CellSize, GridSize};
use glyphgrid::surface::{plan_frame, Canvas, Cell, Rgba};
use glyphgrid::Error;

fn cell8x16() -> CellSize {
    CellSize { width: 8, height: 16 }
}

fn white() -> Rgba {
    Rgba { r: 255, g: 255, b: 255, a: 255 }
}

fn black() -> Rgba {
    Rgba { r: 0, g: 0, b: 0, a: 255 }
}

fn plain_cell(ch: char) -> Cell {
    Cell { ch, style: StyleFlags::plain(), fg: white(), bg: black() }
}

#[test]
fn resolving_twice_returns_identical_region_without_rasterizing() {
    let mut cache = GlyphCache::new(cell8x16());
    let (first, rasterize_first) = cache.resolve('a', StyleFlags::plain()).unwrap();
    let (second, rasterize_second) = cache.resolve('a', StyleFlags::plain()).unwrap();
    assert!(rasterize_first);
    assert!(!rasterize_second);
    assert_eq!(first, second);
}

#[test]
fn distinct_styles_get_distinct_regions() {
    let mut cache = GlyphCache::new(cell8x16());
    let bold = StyleFlags { bold: true, italic: false, underline: false };
    let (plain_region, _) = cache.resolve('a', StyleFlags::plain()).unwrap();
    let (bold_region, rasterize_bold) = cache.resolve('a', bold).unwrap();
    assert!(rasterize_bold);
    assert_ne!(plain_region, bold_region);
}

#[test]
fn regions_are_cell_sized_and_packed_in_rows() {
    let mut cache = GlyphCache::new(cell8x16());
    let (first, _) = cache.resolve('a', StyleFlags::plain()).unwrap();
    let (second, _) = cache.resolve('b', StyleFlags::plain()).unwrap();
    assert_eq!((first.x, first.y), (0, 0));
    assert_eq!((first.width, first.height), (8, 16));
    assert_eq!((second.x, second.y), (8, 0));
    assert_eq!(second.generation, 0);
}

#[test]
fn font_change_bumps_generation_and_invalidates_regions() {
    let mut cache = GlyphCache::new(cell8x16());
    let (before, _) = cache.resolve('a', StyleFlags::plain()).unwrap();
    assert_eq!(cache.current_generation(), 0);
    cache.update_font_size(Some(CellSize { width: 10, height: 20 })).unwrap();
    assert_eq!(cache.current_generation(), 1);
    assert_eq!(cache.cell_size(), CellSize { width: 10, height: 20 });
    let (after, rasterize_again) = cache.resolve('a', StyleFlags::plain()).unwrap();
    assert!(rasterize_again);
    assert_ne!(before.generation, after.generation);
}

#[test]
fn failed_font_load_leaves_cache_unchanged() {
    let mut cache = GlyphCache::new(cell8x16());
    let (before, _) = cache.resolve('a', StyleFlags::plain()).unwrap();
    let result = cache.update_font_size(None);
    assert_eq!(result, Err(Error::Rasterization));
    assert_eq!(cache.current_generation(), 0);
    assert_eq!(cache.cell_size(), cell8x16());
    let (after, rasterize_again) = cache.resolve('a', StyleFlags::plain()).unwrap();
    assert!(!rasterize_again);
    assert_eq!(before, after);
}

#[test]
fn atlas_exhaustion_is_reported() {
    let mut cache = GlyphCache::new(cell8x16());
    let capacity: u32 = 32 * 32768;
    let mut inserted: u32 = 0;
    let mut code: u32 = 0;
    while inserted < capacity {
        if let Some(ch) = char::from_u32(code) {
            let _ = cache.resolve(ch, StyleFlags::plain()).unwrap();
            inserted += 1;
        }
        code += 1;
    }
    let overflow = cache.resolve('a', StyleFlags { bold: true, italic: true, underline: true });
    assert_eq!(overflow.unwrap_err(), Error::AtlasExhausted);
}

#[test]
fn frame_plan_renders_every_cell_and_rasterizes_each_glyph_once() {
    let mut cache = GlyphCache::new(cell8x16());
    let canvas = Canvas {
        size: GridSize { columns: 2, rows: 2 },
        cells: vec![plain_cell('h'), plain_cell('i'), plain_cell('h'), plain_cell('!')],
    };
    assert!(canvas.check_wf());
    let plan = plan_frame(&mut cache, &canvas).unwrap();
    assert_eq!(plan.instances.len(), 4);
    assert_eq!(plan.rasterizations.len(), 3);
    assert_eq!((plan.instances[0].column, plan.instances[0].row), (0, 0));
    assert_eq!((plan.instances[1].column, plan.instances[1].row), (1, 0));
    assert_eq!((plan.instances[2].column, plan.instances[2].row), (0, 1));
    assert_eq!((plan.instances[3].column, plan.instances[3].row), (1, 1));
    assert_eq!(plan.instances[0].region, plan.instances[2].region);
    assert_ne!(plan.instances[0].region, plan.instances[1].region);
    assert_eq!(plan.instances[0].fg, white());
    assert_eq!(plan.instances[0].bg, black());
}

#[test]
fn second_frame_of_same_canvas_rasterizes_nothing() {
    let mut cache = GlyphCache::new(cell8x16());
    let canvas = Canvas {
        size: GridSize { columns: 3, rows: 1 },
        cells: vec![plain_cell('a'), plain_cell('b'), plain_cell('c')],
    };
    let first = plan_frame(&mut cache, &canvas).unwrap();
    let second = plan_frame(&mut cache, &canvas).unwrap();
    assert_eq!(first.rasterizations.len(), 3);
    assert_eq!(second.rasterizations.len(), 0);
    assert_eq!(first.instances, second.instances);
}

#[test]
fn canvas_well_formedness_is_checked() {
    let short = Canvas {
        size: GridSize { columns: 2, rows: 2 },
        cells: vec![plain_cell('x')],
    };
    assert!(!short.check_wf());
    let exact = Canvas {
        size: GridSize { columns: 2, rows: 1 },
        cells: vec![plain_cell('x'), plain_cell('y')],
    };
    assert!(exact.check_wf());
}

#[test]
fn cell_size_limits_are_enforced() {
    assert!(CellSize { width: 1, height: 1 }.check_wf());
    assert!(CellSize { width: 4096, height: 4096 }.check_wf());
    assert!(!CellSize { width: 0, height: 16 }.check_wf());
    assert!(!CellSize { width: 8, height: 4097 }.check_wf());
}

#[test]
fn empty_canvas_plans_an_empty_frame() {
    let mut cache = GlyphCache::new(cell8x16());
    let canvas = Canvas { size: GridSize { columns: 0, rows: 0 }, cells: vec![] };
    assert!(canvas.check_wf());
    let plan = plan_frame(&mut cache, &canvas).unwrap();
    assert_eq!(plan.instances.len(), 0);
    assert_eq!(plan.rasterizations.len(), 0);
}
