use glyphgrid::geometry::{CellSize, GridSize, PixelSize};
use glyphgrid::input::{AbstractKey, KeyCode, Modifiers};
use glyphgrid::scheduler::{Effect, Event, LoopState, RenderOutcome, Scheduler};

fn window() -> PixelSize {
    PixelSize { width: 1280, height: 1024 }
}

fn cell8x16() -> CellSize {
    CellSize { width: 8, height: 16 }
}

fn fresh() -> Scheduler {
    Scheduler::new(window(), cell8x16())
}

fn press_ctrl(s: &mut Scheduler, key: KeyCode) -> Vec<Effect> {
    let m = Modifiers { ctrl: true, shift: false, alt: false, logo: false };
    let none = s.step(Event::ModifiersChanged { modifiers: m });
    assert!(none.is_empty());
    s.step(Event::KeyPressed { key })
}

/// Drives one successful font change: the accelerator press, then the font
/// loaded at the requested size with cells scaled proportionally.
fn change_font(s: &mut Scheduler, key: KeyCode) -> Vec<Effect> {
    let effects = press_ctrl(s, key);
    assert_eq!(effects.len(), 1);
    let requested = match effects[0] {
        Effect::ReloadFont { size } => size,
        other => panic!("expected a font reload, got {:?}", other),
    };
    let cell = CellSize { width: (requested as u32 + 1) / 2, height: requested as u32 };
    s.step(Event::FontLoaded { cell })
}

#[test]
fn starts_idle_with_default_font() {
    let s = fresh();
    assert_eq!(s.state(), LoopState::Idle);
    assert_eq!(s.font_size(), 16);
    assert_eq!(s.current_grid_size(), GridSize { columns: 160, rows: 64 });
}

#[test]
fn close_request_always_exits() {
    let mut s = fresh();
    assert!(s.step(Event::CloseRequested).is_empty());
    assert_eq!(s.state(), LoopState::Exiting);

    let mut busy = fresh();
    busy.step(Event::AppPolled { dirty: true, exit: false });
    assert_eq!(busy.state(), LoopState::FrameRequested);
    busy.step(Event::CloseRequested);
    assert_eq!(busy.state(), LoopState::Exiting);
}

#[test]
fn accelerator_is_consumed_not_forwarded() {
    let mut s = fresh();
    let effects = press_ctrl(&mut s, KeyCode::Equals);
    assert_eq!(effects, vec![Effect::ReloadFont { size: 17 }]);
    for effect in &effects {
        assert!(!matches!(effect, Effect::DeliverInput { .. }));
        assert!(!matches!(effect, Effect::ForwardMessage));
    }
}

#[test]
fn ordinary_keys_are_mapped_and_delivered() {
    let mut s = fresh();
    let effects = s.step(Event::KeyPressed { key: KeyCode::Char('x') });
    assert_eq!(effects, vec![Effect::DeliverInput { key: AbstractKey::Char('x') }]);
    let polled = s.step(Event::AppPolled { dirty: true, exit: false });
    assert_eq!(polled, vec![Effect::RequestRedraw]);
    assert_eq!(s.state(), LoopState::FrameRequested);
}

#[test]
fn unmapped_keys_still_poll_the_application() {
    let mut s = fresh();
    let logo = Modifiers { ctrl: false, shift: false, alt: false, logo: true };
    s.step(Event::ModifiersChanged { modifiers: logo });
    let effects = s.step(Event::KeyPressed { key: KeyCode::Char('a') });
    assert_eq!(effects, vec![Effect::PollApp]);
}

#[test]
fn five_increase_presses_reach_21_points_one_generation_each() {
    let mut s = fresh();
    for expected in [17u16, 18, 19, 20, 21] {
        let effects = change_font(&mut s, KeyCode::Equals);
        assert_eq!(s.font_size(), expected);
        assert_eq!(effects.len(), 2);
        assert!(matches!(effects[0], Effect::NotifyAppResize { .. }));
        assert_eq!(effects[1], Effect::RequestRedraw);
    }
    assert_eq!(s.font_size(), 21);
    assert_eq!(s.cache.current_generation(), 5);
    assert_eq!(s.cache.cell_size(), CellSize { width: 11, height: 21 });
    let grid = GridSize { columns: 1280 / 11, rows: 1024 / 21 };
    assert_eq!(s.current_grid_size(), grid);
}

#[test]
fn font_size_clamps_at_both_ends() {
    let mut s = fresh();
    for _ in 0..200 {
        change_font(&mut s, KeyCode::Equals);
    }
    assert_eq!(s.font_size(), 192);
    for _ in 0..400 {
        change_font(&mut s, KeyCode::Minus);
    }
    assert_eq!(s.font_size(), 1);
}

#[test]
fn failed_font_load_reports_and_keeps_the_old_state() {
    let mut s = fresh();
    let effects = press_ctrl(&mut s, KeyCode::Equals);
    assert_eq!(effects, vec![Effect::ReloadFont { size: 17 }]);
    let failed = s.step(Event::FontLoadFailed);
    assert_eq!(failed, vec![Effect::ReportFontLoadFailure]);
    assert_eq!(s.font_size(), 16);
    assert_eq!(s.cache.current_generation(), 0);
    assert_eq!(s.cache.cell_size(), cell8x16());
}

#[test]
fn resize_reconfigures_surface_and_notifies_grid() {
    let mut s = fresh();
    let size = PixelSize { width: 800, height: 600 };
    let effects = s.step(Event::Resized { size });
    assert_eq!(
        effects,
        vec![
            Effect::ConfigureSurface { size },
            Effect::NotifyAppResize { grid: GridSize { columns: 100, rows: 37 } },
        ],
    );
    assert_eq!(s.surface_size(), size);
    assert_eq!(s.window_size(), size);
}

#[test]
fn minimized_resize_skips_surface_reconfiguration_and_recovers() {
    let mut s = fresh();
    let zero = PixelSize { width: 0, height: 0 };
    let effects = s.step(Event::Resized { size: zero });
    assert_eq!(
        effects,
        vec![Effect::NotifyAppResize { grid: GridSize { columns: 0, rows: 0 } }],
    );
    assert_eq!(s.surface_size(), window());
    assert_eq!(s.window_size(), zero);

    let restored = PixelSize { width: 640, height: 480 };
    let effects = s.step(Event::Resized { size: restored });
    assert_eq!(effects[0], Effect::ConfigureSurface { size: restored });
    assert_eq!(s.surface_size(), restored);
}

#[test]
fn scale_change_behaves_like_a_resize() {
    let mut s = fresh();
    let size = PixelSize { width: 2560, height: 2048 };
    let effects = s.step(Event::ScaleFactorChanged { size });
    assert_eq!(effects[0], Effect::ConfigureSurface { size });
    assert_eq!(
        effects[1],
        Effect::NotifyAppResize { grid: GridSize { columns: 320, rows: 128 } },
    );
}

#[test]
fn surface_lost_reconfigures_and_next_frame_draws() {
    let mut s = fresh();
    s.step(Event::AppPolled { dirty: true, exit: false });
    let effects = s.step(Event::RenderCompleted { outcome: RenderOutcome::SurfaceLost });
    assert_eq!(effects, vec![Effect::ConfigureSurface { size: window() }]);
    assert_eq!(s.state(), LoopState::FrameRequested);
    let redraw = s.step(Event::RedrawRequested);
    assert_eq!(redraw, vec![Effect::Draw]);
}

#[test]
fn out_of_memory_terminates_once_with_no_further_gpu_calls() {
    let mut s = fresh();
    let effects = s.step(Event::RenderCompleted { outcome: RenderOutcome::OutOfMemory });
    assert!(effects.is_empty());
    assert_eq!(s.state(), LoopState::Exiting);
    assert!(s.step(Event::RedrawRequested).is_empty());
    assert!(s.step(Event::RenderCompleted { outcome: RenderOutcome::SurfaceLost }).is_empty());
    assert!(s.step(Event::AppPolled { dirty: true, exit: false }).is_empty());
    assert_eq!(s.state(), LoopState::Exiting);
}

#[test]
fn transient_render_errors_are_skipped() {
    let mut s = fresh();
    let effects = s.step(Event::RenderCompleted { outcome: RenderOutcome::Transient });
    assert!(effects.is_empty());
    assert_eq!(s.state(), LoopState::Idle);
}

#[test]
fn app_exit_paths_lead_to_exiting() {
    let mut s = fresh();
    s.step(Event::MessageArrived);
    s.step(Event::AppPolled { dirty: false, exit: true });
    assert_eq!(s.state(), LoopState::Exiting);

    let mut drawing = fresh();
    drawing.step(Event::DrawExiting);
    assert_eq!(drawing.state(), LoopState::Exiting);
}

#[test]
fn drained_events_return_to_idle() {
    let mut s = fresh();
    s.step(Event::AppPolled { dirty: true, exit: false });
    assert_eq!(s.state(), LoopState::FrameRequested);
    s.step(Event::RenderCompleted { outcome: RenderOutcome::Success });
    s.step(Event::EventsDrained);
    assert_eq!(s.state(), LoopState::Idle);
}

#[test]
fn messages_are_forwarded_then_polled() {
    let mut s = fresh();
    let effects = s.step(Event::MessageArrived);
    assert_eq!(effects, vec![Effect::ForwardMessage]);
    let quiet = s.step(Event::AppPolled { dirty: false, exit: false });
    assert!(quiet.is_empty());
    assert_eq!(s.state(), LoopState::Idle);
}
