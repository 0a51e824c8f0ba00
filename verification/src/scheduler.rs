//! The redraw scheduler: an explicit state machine over a closed set of
//! window, application and render events.
//!
//! Each event is handled by one transition `(state, event) -> (state,
//! effects)`. The effects name the outside work the loop driver must
//! perform — deliver an input to the application, reload the font, request a
//! redraw, reconfigure the GPU surface — and the outcomes of that work come
//! back as further events. The machine itself never blocks and never touches
//! a window or a device, so it is checked in full here.

use vstd::prelude::*;
use crate::cache::{model_font_changed, CacheModel, GlyphCache};
use crate::font::{
    font_size_in_range, spec_decreased, spec_increased, DEFAULT_FONT_SIZE,
};
use crate::geometry::{spec_grid_size, CellSize, GridSize, PixelSize};
use crate::input::{is_accelerator, spec_map_key, AbstractKey, KeyCode, Modifiers};

verus! {

/// The loop's scheduling state.
#[derive(Debug, Clone, Copy, PartialEq, Eq, Structural)]
pub enum LoopState {
    /// Blocked waiting for the next event.
    Idle,
    /// A frame has been requested and not yet presented.
    FrameRequested,
    /// The loop is terminating; no further work is issued.
    Exiting,
}

/// What the GPU reported for one presented frame.
#[derive(Debug, Clone, Copy, PartialEq, Eq, Structural)]
pub enum RenderOutcome {
    /// The frame was presented.
    Success,
    /// The presentation surface was lost; it must be reconfigured.
    SurfaceLost,
    /// The device is out of memory; the loop must terminate.
    OutOfMemory,
    /// A transient failure (outdated or timed out); the frame is skipped.
    Transient,
}

/// One event the scheduler consumes: a window or system event, a
/// cross-thread message arrival, or the outcome of an effect it issued.
#[derive(Debug, Clone, Copy, PartialEq, Eq, Structural)]
pub enum Event {
    /// The window was asked to close.
    CloseRequested,
    /// The modifier state changed.
    ModifiersChanged { modifiers: Modifiers },
    /// A key was pressed.
    KeyPressed { key: KeyCode },
    /// The window's pixel size changed.
    Resized { size: PixelSize },
    /// The display scale changed; the window reports its new pixel size.
    ScaleFactorChanged { size: PixelSize },
    /// The windowing system asks for a frame to be drawn.
    RedrawRequested,
    /// A cross-thread message was enqueued for the application.
    MessageArrived,
    /// The application's dirty/exit status, polled after an input or a
    /// message was delivered.
    AppPolled { dirty: bool, exit: bool },
    /// The application signalled that it is exiting instead of drawing.
    DrawExiting,
    /// The font was loaded at the pending size; these are its cell metrics.
    FontLoaded { cell: CellSize },
    /// The font could not be loaded at the pending size.
    FontLoadFailed,
    /// The GPU finished (or failed) presenting a frame.
    RenderCompleted { outcome: RenderOutcome },
    /// All pending events have been drained.
    EventsDrained,
}

/// One piece of outside work the loop driver must perform.
#[derive(Debug, Clone, Copy, PartialEq, Eq, Structural)]
pub enum Effect {
    /// Load the font at this size (in points, to be scaled by the display
    /// factor) and report back with `FontLoaded` or `FontLoadFailed`.
    ReloadFont { size: u16 },
    /// Tell the application its grid now has these dimensions.
    NotifyAppResize { grid: GridSize },
    /// Deliver this input event to the application, then poll its state and
    /// report back with `AppPolled`.
    DeliverInput { key: AbstractKey },
    /// Deliver the pending cross-thread message to the application, then
    /// poll its state and report back with `AppPolled`.
    ForwardMessage,
    /// Poll the application's dirty/exit state and report back with
    /// `AppPolled`.
    PollApp,
    /// Ask the windowing system for a redraw.
    RequestRedraw,
    /// Ask the application to draw; on a canvas, plan and render the frame
    /// and report back with `RenderCompleted`; if the application is
    /// exiting, report back with `DrawExiting`.
    Draw,
    /// Configure the GPU presentation surface to this pixel size.
    ConfigureSurface { size: PixelSize },
    /// Report to the user that the font could not be loaded; nothing else
    /// changes.
    ReportFontLoadFailure,
}

/// The mathematical state of the scheduler.
pub struct SchedModel {
    pub state: LoopState,
    pub modifiers: Modifiers,
    pub font_size: u16,
    pub pending_font: Option<u16>,
    pub window_size: PixelSize,
    pub surface_size: PixelSize,
    pub cache: CacheModel,
}

impl SchedModel {
    /// Well-formedness: the font size (and any pending one) is clamped to
    /// its range, the glyph cache is well formed, and the surface was last
    /// configured with a renderable (non-zero) size.
    pub open spec fn wf(self) -> bool {
        &&& font_size_in_range(self.font_size)
        &&& (self.pending_font matches Some(target) ==> font_size_in_range(target))
        &&& self.cache.wf()
        &&& self.surface_size.is_renderable()
    }
}

/// The model with a different loop state.
pub open spec fn with_state(m: SchedModel, state: LoopState) -> SchedModel {
    SchedModel {
        state,
        modifiers: m.modifiers,
        font_size: m.font_size,
        pending_font: m.pending_font,
        window_size: m.window_size,
        surface_size: m.surface_size,
        cache: m.cache,
    }
}

/// The model with a different modifier state.
pub open spec fn with_modifiers(m: SchedModel, modifiers: Modifiers) -> SchedModel {
    SchedModel {
        state: m.state,
        modifiers,
        font_size: m.font_size,
        pending_font: m.pending_font,
        window_size: m.window_size,
        surface_size: m.surface_size,
        cache: m.cache,
    }
}

/// The model with a different pending font size.
pub open spec fn with_pending(m: SchedModel, pending_font: Option<u16>) -> SchedModel {
    SchedModel {
        state: m.state,
        modifiers: m.modifiers,
        font_size: m.font_size,
        pending_font,
        window_size: m.window_size,
        surface_size: m.surface_size,
        cache: m.cache,
    }
}

/// The model after a window resize: the observed window size is recorded,
/// and the surface is reconfigured only when the new size is renderable —
/// a zero size (minimized window) leaves the surface configuration alone.
pub open spec fn resized(m: SchedModel, size: PixelSize) -> SchedModel {
    SchedModel {
        state: m.state,
        modifiers: m.modifiers,
        font_size: m.font_size,
        pending_font: m.pending_font,
        window_size: size,
        surface_size: if size.is_renderable() {
            size
        } else {
            m.surface_size
        },
        cache: m.cache,
    }
}

/// The model after committing a successful font change to `target` points
/// with the freshly measured cell metrics: the cache moves to the next
/// generation and a frame is requested.
pub open spec fn font_committed(m: SchedModel, target: u16, cell: CellSize) -> SchedModel {
    SchedModel {
        state: LoopState::FrameRequested,
        modifiers: m.modifiers,
        font_size: target,
        pending_font: None,
        window_size: m.window_size,
        surface_size: m.surface_size,
        cache: model_font_changed(m.cache, cell),
    }
}

/// The font size an accelerator press aims at: one point up for
/// modifier+`=`, one point down for modifier+`-`, clamped to the range.
pub open spec fn accel_target(font_size: u16, key: KeyCode) -> u16 {
    if key == KeyCode::Equals {
        spec_increased(font_size)
    } else {
        spec_decreased(font_size)
    }
}

/// The scheduler's transition function: the state after consuming one
/// event. Once the machine is `Exiting` every event leaves it unchanged.
pub open spec fn step_model(m: SchedModel, event: Event) -> SchedModel {
    if m.state == LoopState::Exiting {
        m
    } else {
        match event {
            Event::CloseRequested => with_state(m, LoopState::Exiting),
            Event::ModifiersChanged { modifiers } => with_modifiers(m, modifiers),
            Event::KeyPressed { key } => if is_accelerator(key, m.modifiers) {
                with_pending(m, Some(accel_target(m.font_size, key)))
            } else {
                m
            },
            Event::Resized { size } => resized(m, size),
            Event::ScaleFactorChanged { size } => resized(m, size),
            Event::RedrawRequested => m,
            Event::MessageArrived => m,
            Event::AppPolled { dirty, exit } => if exit {
                with_state(m, LoopState::Exiting)
            } else if dirty {
                with_state(m, LoopState::FrameRequested)
            } else {
                m
            },
            Event::DrawExiting => with_state(m, LoopState::Exiting),
            Event::FontLoaded { cell } => match m.pending_font {
                Some(target) => font_committed(m, target, cell),
                None => m,
            },
            Event::FontLoadFailed => with_pending(m, None),
            Event::RenderCompleted { outcome } => match outcome {
                RenderOutcome::OutOfMemory => with_state(m, LoopState::Exiting),
                _ => m,
            },
            Event::EventsDrained => with_state(m, LoopState::Idle),
        }
    }
}

/// The effects the scheduler issues for one event. Once the machine is
/// `Exiting` no effect is issued: in particular, no GPU work.
pub open spec fn step_effects(m: SchedModel, event: Event) -> Seq<Effect> {
    if m.state == LoopState::Exiting {
        Seq::empty()
    } else {
        match event {
            Event::CloseRequested => Seq::empty(),
            Event::ModifiersChanged { modifiers } => Seq::empty(),
            Event::KeyPressed { key } => if is_accelerator(key, m.modifiers) {
                seq![Effect::ReloadFont { size: accel_target(m.font_size, key) }]
            } else {
                match spec_map_key(key, m.modifiers) {
                    Some(abstract_key) => seq![Effect::DeliverInput { key: abstract_key }],
                    None => seq![Effect::PollApp],
                }
            },
            Event::Resized { size } => resize_effects(m, size),
            Event::ScaleFactorChanged { size } => resize_effects(m, size),
            Event::RedrawRequested => seq![Effect::Draw],
            Event::MessageArrived => seq![Effect::ForwardMessage],
            Event::AppPolled { dirty, exit } => if !exit && dirty {
                seq![Effect::RequestRedraw]
            } else {
                Seq::empty()
            },
            Event::DrawExiting => Seq::empty(),
            Event::FontLoaded { cell } => match m.pending_font {
                Some(target) => seq![
                    Effect::NotifyAppResize { grid: spec_grid_size(m.window_size, cell) },
                    Effect::RequestRedraw,
                ],
                None => Seq::empty(),
            },
            Event::FontLoadFailed => match m.pending_font {
                Some(target) => seq![Effect::ReportFontLoadFailure],
                None => Seq::empty(),
            },
            Event::RenderCompleted { outcome } => match outcome {
                RenderOutcome::SurfaceLost => seq![
                    Effect::ConfigureSurface { size: m.surface_size },
                ],
                _ => Seq::empty(),
            },
            Event::EventsDrained => Seq::empty(),
        }
    }
}

/// The effects of a resize: reconfigure the surface when the new size is
/// renderable (skipped for a zero size), and in every case tell the
/// application its new grid, computed from the new pixel size and the cell
/// size currently in force.
pub open spec fn resize_effects(m: SchedModel, size: PixelSize) -> Seq<Effect> {
    let grid = Effect::NotifyAppResize { grid: spec_grid_size(size, m.cache.cell) };
    if size.is_renderable() {
        seq![Effect::ConfigureSurface { size }, grid]
    } else {
        seq![grid]
    }
}

/// The redraw scheduler with the state it owns: the loop state, the input
/// modifier state, the font size and any pending change to it, the window
/// and surface sizes, and the glyph cache.
pub struct Scheduler {
    state: LoopState,
    modifiers: Modifiers,
    font_size: u16,
    pending_font: Option<u16>,
    window_size: PixelSize,
    surface_size: PixelSize,
    /// The glyph cache; frame planning resolves glyphs through it.
    pub cache: GlyphCache,
}

impl Scheduler {
    /// The mathematical state of this scheduler.
    pub closed spec fn model(self) -> SchedModel {
        SchedModel {
            state: self.state,
            modifiers: self.modifiers,
            font_size: self.font_size,
            pending_font: self.pending_font,
            window_size: self.window_size,
            surface_size: self.surface_size,
            cache: self.cache.model(),
        }
    }

    /// Well-formedness: that of the model.
    pub open spec fn wf(self) -> bool {
        self.model().wf()
    }

    /// Creates the scheduler for a window of `window_size` pixels, with the
    /// cell metrics measured for the default font size: idle, no modifier
    /// held, nothing pending, the surface configured to the window size,
    /// and a fresh glyph cache in generation zero.
    pub fn new(window_size: PixelSize, cell: CellSize) -> (s: Scheduler)
        requires
            window_size.is_renderable(),
            cell.wf(),
        ensures
            s.wf(),
            s.model() == (SchedModel {
                state: LoopState::Idle,
                modifiers: Modifiers { ctrl: false, shift: false, alt: false, logo: false },
                font_size: DEFAULT_FONT_SIZE,
                pending_font: None,
                window_size,
                surface_size: window_size,
                cache: CacheModel {
                    cell,
                    generation: 0,
                    rows: crate::cache::ATLAS_INITIAL_ROWS,
                    next_slot: 0,
                    entries: Map::empty(),
                },
            }),
    {
        Scheduler {
            state: LoopState::Idle,
            modifiers: Modifiers { ctrl: false, shift: false, alt: false, logo: false },
            font_size: DEFAULT_FONT_SIZE,
            pending_font: None,
            window_size,
            surface_size: window_size,
            cache: GlyphCache::new(cell),
        }
    }

    /// The current loop state.
    pub fn state(&self) -> (r: LoopState)
        ensures
            r == self.model().state,
    {
        self.state
    }

    /// The current font size in points.
    pub fn font_size(&self) -> (r: u16)
        ensures
            r == self.model().font_size,
    {
        self.font_size
    }

    /// The last observed window pixel size.
    pub fn window_size(&self) -> (r: PixelSize)
        ensures
            r == self.model().window_size,
    {
        self.window_size
    }

    /// The pixel size the surface was last configured with.
    pub fn surface_size(&self) -> (r: PixelSize)
        ensures
            r == self.model().surface_size,
    {
        self.surface_size
    }

    /// The grid the application should currently be laid out for: the
    /// window size divided by the cell size in force.
    pub fn current_grid_size(&self) -> (g: GridSize)
        requires
            self.wf(),
        ensures
            g == spec_grid_size(self.model().window_size, self.model().cache.cell),
    {
        let cell = self.cache.cell_size();
        crate::geometry::grid_size_for(self.window_size, cell)
    }

    /// Consumes one event: moves to `step_model` of the current state and
    /// returns exactly the effects `step_effects` prescribes, in order.
    pub fn step(&mut self, event: Event) -> (effects: Vec<Effect>)
        requires
            old(self).wf(),
            event matches Event::FontLoaded { cell } ==> cell.wf() && old(
                self,
            ).model().cache.generation < u64::MAX,
        ensures
            final(self).wf(),
            final(self).model() == step_model(old(self).model(), event),
            effects@ == step_effects(old(self).model(), event),
    {
        let mut effects: Vec<Effect> = Vec::new();
        if matches!(self.state, LoopState::Exiting) {
            return effects;
        }
        match event {
            Event::CloseRequested => {
                self.state = LoopState::Exiting;
            },
            Event::ModifiersChanged { modifiers } => {
                self.modifiers = modifiers;
            },
            Event::KeyPressed { key } => {
                if crate::input::accelerator(key, self.modifiers) {
                    let target = if matches!(key, KeyCode::Equals) {
                        crate::font::increased(self.font_size)
                    } else {
                        crate::font::decreased(self.font_size)
                    };
                    self.pending_font = Some(target);
                    effects.push(Effect::ReloadFont { size: target });
                } else {
                    match crate::input::map_key(key, self.modifiers) {
                        Some(abstract_key) => {
                            effects.push(Effect::DeliverInput { key: abstract_key });
                        },
                        None => {
                            effects.push(Effect::PollApp);
                        },
                    }
                }
            },
            Event::Resized { size } => {
                effects = self.apply_resize(size);
            },
            Event::ScaleFactorChanged { size } => {
                effects = self.apply_resize(size);
            },
            Event::RedrawRequested => {
                effects.push(Effect::Draw);
            },
            Event::MessageArrived => {
                effects.push(Effect::ForwardMessage);
            },
            Event::AppPolled { dirty, exit } => {
                if exit {
                    self.state = LoopState::Exiting;
                } else if dirty {
                    self.state = LoopState::FrameRequested;
                    effects.push(Effect::RequestRedraw);
                }
            },
            Event::DrawExiting => {
                self.state = LoopState::Exiting;
            },
            Event::FontLoaded { cell } => {
                match self.pending_font {
                    Some(target) => {
                        let _commit = self.cache.update_font_size(Some(cell));
                        self.font_size = target;
                        self.pending_font = None;
                        self.state = LoopState::FrameRequested;
                        let grid = crate::geometry::grid_size_for(self.window_size, cell);
                        effects.push(Effect::NotifyAppResize { grid });
                        effects.push(Effect::RequestRedraw);
                    },
                    None => {},
                }
            },
            Event::FontLoadFailed => {
                match self.pending_font {
                    Some(target) => {
                        self.pending_font = None;
                        effects.push(Effect::ReportFontLoadFailure);
                    },
                    None => {},
                }
            },
            Event::RenderCompleted { outcome } => {
                match outcome {
                    RenderOutcome::SurfaceLost => {
                        effects.push(Effect::ConfigureSurface { size: self.surface_size });
                    },
                    RenderOutcome::OutOfMemory => {
                        self.state = LoopState::Exiting;
                    },
                    RenderOutcome::Success => {},
                    RenderOutcome::Transient => {},
                }
            },
            Event::EventsDrained => {
                self.state = LoopState::Idle;
            },
        }
        effects
    }

    /// Handles a pixel-size or display-scale change: records the new window
    /// size, reconfigures the surface unless a dimension is zero, and
    /// reports the recomputed grid to the application.
    fn apply_resize(&mut self, size: PixelSize) -> (effects: Vec<Effect>)
        requires
            old(self).wf(),
            old(self).model().state != LoopState::Exiting,
        ensures
            final(self).wf(),
            final(self).model() == resized(old(self).model(), size),
            effects@ == resize_effects(old(self).model(), size),
    {
        let mut effects: Vec<Effect> = Vec::new();
        self.window_size = size;
        if size.renderable() {
            self.surface_size = size;
            effects.push(Effect::ConfigureSurface { size });
        }
        let cell = self.cache.cell_size();
        let grid = crate::geometry::grid_size_for(size, cell);
        effects.push(Effect::NotifyAppResize { grid });
        effects
    }
}

/// A close request always leads to the `Exiting` state, whatever the
/// scheduler's state and whatever flags are pending.
pub proof fn lemma_close_always_exits(m: SchedModel)
    ensures
        step_model(m, Event::CloseRequested).state == LoopState::Exiting,
{
}

/// Once the machine is `Exiting` it stays `Exiting` and issues no effect
/// at all for any further event: in particular, after the `OutOfMemory`
/// outcome has moved it to `Exiting`, no further GPU call is issued.
pub proof fn lemma_exiting_absorbing(m: SchedModel, event: Event)
    requires
        m.state == LoopState::Exiting,
    ensures
        step_model(m, event) == m,
        step_effects(m, event) == Seq::<Effect>::empty(),
{
}

/// An `OutOfMemory` render outcome moves the machine to `Exiting` without
/// issuing any effect; together with `lemma_exiting_absorbing`, the loop
/// terminates exactly once and no GPU call follows.
pub proof fn lemma_out_of_memory_terminates(m: SchedModel)
    requires
        m.state != LoopState::Exiting,
    ensures
        step_model(m, Event::RenderCompleted { outcome: RenderOutcome::OutOfMemory }).state
            == LoopState::Exiting,
        step_effects(m, Event::RenderCompleted { outcome: RenderOutcome::OutOfMemory })
            == Seq::<Effect>::empty(),
{
}

/// An accelerator key press is consumed by the scheduler: its effects
/// never deliver anything to the application's input or message handlers.
pub proof fn lemma_accelerator_consumed(m: SchedModel, key: KeyCode)
    requires
        is_accelerator(key, m.modifiers),
    ensures
        forall|i: int|
            0 <= i < step_effects(m, Event::KeyPressed { key }).len() ==> {
                let e = #[trigger] step_effects(m, Event::KeyPressed { key })[i];
                !(e matches Effect::DeliverInput { .. }) && !(e matches Effect::ForwardMessage)
            },
{
}

/// Every step keeps the scheduler well formed; in particular the font size
/// (and any pending one) stays clamped to `[MIN_FONT_SIZE, MAX_FONT_SIZE]`
/// however many accelerator presses are applied in sequence.
pub proof fn lemma_step_preserves_wf(m: SchedModel, event: Event)
    requires
        m.wf(),
        event matches Event::FontLoaded { cell } ==> cell.wf() && m.cache.generation < u64::MAX,
    ensures
        step_model(m, event).wf(),
        font_size_in_range(step_model(m, event).font_size),
{
}

/// The state after consuming a whole sequence of events, first to last.
pub open spec fn run_model(m: SchedModel, events: Seq<Event>) -> SchedModel
    decreases events.len(),
{
    if events.len() == 0 {
        m
    } else {
        run_model(step_model(m, events[0]), events.skip(1))
    }
}

/// A sequence of events the loop driver can actually deliver: every
/// `FontLoaded` event carries well-formed cell metrics and arrives while
/// the generation counter can still be incremented.
pub open spec fn events_admissible(m: SchedModel, events: Seq<Event>) -> bool
    decreases events.len(),
{
    events.len() == 0 || ({
        &&& (events[0] matches Event::FontLoaded { cell } ==> cell.wf() && m.cache.generation
            < u64::MAX)
        &&& events_admissible(step_model(m, events[0]), events.skip(1))
    })
}

/// However many events are consumed — in particular, however many
/// accelerator presses and font changes are applied in sequence — the
/// scheduler stays well formed and its font size stays clamped to
/// `[MIN_FONT_SIZE, MAX_FONT_SIZE]`.
pub proof fn lemma_font_size_always_clamped(m: SchedModel, events: Seq<Event>)
    requires
        m.wf(),
        events_admissible(m, events),
    ensures
        run_model(m, events).wf(),
        font_size_in_range(run_model(m, events).font_size),
    decreases events.len(),
{
    if events.len() > 0 {
        lemma_step_preserves_wf(m, events[0]);
        lemma_font_size_always_clamped(step_model(m, events[0]), events.skip(1));
    }
}

/// After a `SurfaceLost` outcome the scheduler reconfigures the surface to
/// its current (renderable) size, stays in the same state, and answers the
/// very next frame request with a draw: surface loss is fully recoverable.
pub proof fn lemma_surface_lost_recovers(m: SchedModel)
    requires
        m.wf(),
        m.state != LoopState::Exiting,
    ensures
        ({
            let event = Event::RenderCompleted { outcome: RenderOutcome::SurfaceLost };
            let after = step_model(m, event);
            &&& after == m
            &&& after.wf()
            &&& step_effects(m, event) == seq![
                Effect::ConfigureSurface { size: m.surface_size },
            ]
            &&& m.surface_size.is_renderable()
            &&& step_effects(after, Event::RedrawRequested) == seq![Effect::Draw]
        }),
{
}

/// The grid reported to the application is computed by the one function
/// `spec_grid_size`, identically for both triggers: a window resize uses
/// the new pixel size with the cell size in force, and a font-size change
/// uses the current window size with the new cell size.
pub proof fn lemma_grid_recomputed_uniformly(m: SchedModel, size: PixelSize, cell: CellSize)
    requires
        m.state != LoopState::Exiting,
        m.pending_font matches Some(target),
    ensures
        step_effects(m, Event::Resized { size }).last() == (Effect::NotifyAppResize {
            grid: spec_grid_size(size, m.cache.cell),
        }),
        step_effects(m, Event::ScaleFactorChanged { size }).last() == (Effect::NotifyAppResize {
            grid: spec_grid_size(size, m.cache.cell),
        }),
        step_effects(m, Event::FontLoaded { cell })[0] == (Effect::NotifyAppResize {
            grid: spec_grid_size(m.window_size, cell),
        }),
{
}

/// Committing a successful font change increments the cache generation by
/// exactly one, empties the atlas, adopts the pending size as the font
/// size, and requests a frame; a failed font load only clears the pending
/// size and leaves the font size, the cache and its generation untouched.
pub proof fn lemma_font_change_outcomes(m: SchedModel, target: u16, cell: CellSize)
    requires
        m.wf(),
        m.state != LoopState::Exiting,
        m.pending_font == Some(target),
        m.cache.generation < u64::MAX,
    ensures
        ({
            let committed = step_model(m, Event::FontLoaded { cell });
            &&& committed.cache.generation == m.cache.generation + 1
            &&& committed.cache.entries === Map::empty()
            &&& committed.font_size == target
            &&& committed.state == LoopState::FrameRequested
        }),
        ({
            let failed = step_model(m, Event::FontLoadFailed);
            &&& failed.cache == m.cache
            &&& failed.font_size == m.font_size
            &&& failed.pending_font is None
            &&& failed.state == m.state
        }),
{
}

} // verus!
