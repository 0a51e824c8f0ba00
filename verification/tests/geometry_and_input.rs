use glyphgrid::font;
use glyphgrid::geometry::{grid_size_for, CellSize, GridSize, PixelSize};
use glyphgrid::input::{accelerator, map_key, AbstractKey, KeyCode, Modifiers};

fn ctrl() -> Modifiers {
    Modifiers { ctrl: true, shift: false, alt: false, logo: false }
}

#[test]
fn grid_for_1280x1024_with_8x16_cells() {
    let grid = grid_size_for(
        PixelSize { width: 1280, height: 1024 },
        CellSize { width: 8, height: 16 },
    );
    assert_eq!(grid, GridSize { columns: 160, rows: 64 });
}

#[test]
fn grid_uses_floor_division() {
    let grid = grid_size_for(
        PixelSize { width: 1283, height: 1039 },
        CellSize { width: 8, height: 16 },
    );
    assert_eq!(grid, GridSize { columns: 160, rows: 64 });
}

#[test]
fn grid_for_zero_window_is_zero() {
    let grid = grid_size_for(
        PixelSize { width: 0, height: 0 },
        CellSize { width: 8, height: 16 },
    );
    assert_eq!(grid, GridSize { columns: 0, rows: 0 });
}

#[test]
fn font_size_steps_and_clamps() {
    assert_eq!(font::increased(16), 17);
    assert_eq!(font::decreased(16), 15);
    assert_eq!(font::increased(font::MAX_FONT_SIZE), font::MAX_FONT_SIZE);
    assert_eq!(font::decreased(font::MIN_FONT_SIZE), font::MIN_FONT_SIZE);
    assert_eq!(font::increased(191), 192);
    assert_eq!(font::decreased(2), 1);
}

#[test]
fn plain_chars_map_to_char_events() {
    let none = Modifiers::none();
    assert_eq!(map_key(KeyCode::Char('a'), none), Some(AbstractKey::Char('a')));
    assert_eq!(map_key(KeyCode::Space, none), Some(AbstractKey::Char(' ')));
    assert_eq!(map_key(KeyCode::Enter, none), Some(AbstractKey::Char('\n')));
    assert_eq!(map_key(KeyCode::Equals, none), Some(AbstractKey::Char('=')));
    assert_eq!(map_key(KeyCode::Minus, none), Some(AbstractKey::Char('-')));
}

#[test]
fn modified_chars_map_to_ctrl_and_alt() {
    let alt = Modifiers { ctrl: false, shift: false, alt: true, logo: false };
    assert_eq!(map_key(KeyCode::Char('c'), ctrl()), Some(AbstractKey::Ctrl('c')));
    assert_eq!(map_key(KeyCode::Char('x'), alt), Some(AbstractKey::Alt('x')));
}

#[test]
fn navigation_keys_map_directly() {
    let none = Modifiers::none();
    assert_eq!(map_key(KeyCode::Left, none), Some(AbstractKey::Left));
    assert_eq!(map_key(KeyCode::Escape, none), Some(AbstractKey::Esc));
    assert_eq!(map_key(KeyCode::Backspace, none), Some(AbstractKey::Backspace));
    assert_eq!(map_key(KeyCode::Function(5), none), Some(AbstractKey::Function(5)));
}

#[test]
fn unrecognized_combinations_are_dropped() {
    let logo = Modifiers { ctrl: false, shift: false, alt: false, logo: true };
    assert_eq!(map_key(KeyCode::Char('a'), logo), None);
    assert_eq!(map_key(KeyCode::Function(13), Modifiers::none()), None);
    assert_eq!(map_key(KeyCode::Function(0), Modifiers::none()), None);
}

#[test]
fn accelerators_are_ctrl_equals_and_ctrl_minus() {
    assert!(accelerator(KeyCode::Equals, ctrl()));
    assert!(accelerator(KeyCode::Minus, ctrl()));
    assert!(!accelerator(KeyCode::Equals, Modifiers::none()));
    assert!(!accelerator(KeyCode::Char('='), ctrl()));
}
