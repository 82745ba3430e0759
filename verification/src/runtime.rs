use vstd::prelude::*;

use crate::gui::Gui;
use crate::gui::GuiModel;
use crate::gui::Message;
use crate::gui::SCRUB_MAX;
use crate::gui::gui_step;
use crate::playback::PlaybackInstruction;
use crate::viewport::Rect;
use crate::viewport::ViewportCell;

verus! {

/// A raw window or input event as the OS event loop hands it over, reduced
/// to the plain values this core reads from it.
#[derive(Clone, Copy, Debug, PartialEq, Eq, Structural)]
pub enum RawEvent {
    /// The pointer moved to the given physical position within the window.
    PointerMoved { x: i64, y: i64 },
    /// The primary pointer button went down.
    PointerPressed,
    /// The primary pointer button came up.
    PointerReleased,
    /// A key went down.
    KeyPressed { code: u32 },
    /// The keyboard modifier state changed.
    ModifiersChanged { bits: u32 },
    /// The window was resized to the given physical size.
    Resized { width: u32, height: u32 },
    /// The display scale factor changed; the factor travels as an opaque bit
    /// pattern that this core stores and forwards but never computes with.
    ScaleFactorChanged { scale_bits: u64 },
    /// Any raw event kind that maps to no semantic interaction.
    Unsupported,
}

/// A semantic interaction event, queued for the widget program until the
/// next update pass.
#[derive(Clone, Copy, Debug, PartialEq, Eq, Structural)]
pub enum UiEvent {
    /// The pointer now hovers the given physical position.
    CursorMoved { x: i64, y: i64 },
    /// The primary pointer button went down over the widget tree.
    Pressed,
    /// The primary pointer button came up.
    Released,
    /// A key went down, stamped with the modifiers current at that moment.
    Key { code: u32, modifiers: u32 },
    /// The keyboard modifier state is now `bits`.
    Modifiers { bits: u32 },
}

/// Last reported pointer position, in physical pixels of the window.
#[derive(Clone, Copy, Debug, PartialEq, Eq, Structural)]
pub struct CursorPosition {
    pub x: i64,
    pub y: i64,
}

/// The display viewport: the window's physical size and its scale factor,
/// the latter carried as an opaque bit pattern for the render side.
#[derive(Clone, Copy, Debug, PartialEq, Eq, Structural)]
pub struct ScreenViewport {
    pub width: u32,
    pub height: u32,
    pub scale_bits: u64,
}

/// Whether a raw event kind maps to a semantic interaction event; this is a
/// property of the kind alone.
pub open spec fn is_interaction(event: RawEvent) -> bool {
    match event {
        RawEvent::PointerMoved { .. } => true,
        RawEvent::PointerPressed => true,
        RawEvent::PointerReleased => true,
        RawEvent::KeyPressed { .. } => true,
        RawEvent::ModifiersChanged { .. } => true,
        RawEvent::Resized { .. } => false,
        RawEvent::ScaleFactorChanged { .. } => false,
        RawEvent::Unsupported => false,
    }
}

/// The semantic interaction event a raw event translates to, under the
/// modifier state current once the event itself has been absorbed. Display
/// geometry changes and unsupported kinds map to nothing and are silently
/// dropped — that is not an error.
pub open spec fn translation_of(event: RawEvent, modifiers: u32) -> Option<UiEvent> {
    match event {
        RawEvent::PointerMoved { x, y } => Some(UiEvent::CursorMoved { x, y }),
        RawEvent::PointerPressed => Some(UiEvent::Pressed),
        RawEvent::PointerReleased => Some(UiEvent::Released),
        RawEvent::KeyPressed { code } => Some(UiEvent::Key { code, modifiers }),
        RawEvent::ModifiersChanged { bits } => Some(UiEvent::Modifiers { bits }),
        RawEvent::Resized { .. } => None,
        RawEvent::ScaleFactorChanged { .. } => None,
        RawEvent::Unsupported => None,
    }
}

/// Cursor tracking: absent until the first pointer event, then the latest
/// reported position; it never resets, not even on pointer leave.
pub open spec fn cursor_after(cursor: Option<CursorPosition>, event: RawEvent) -> Option<
    CursorPosition,
> {
    match event {
        RawEvent::PointerMoved { x, y } => Some(CursorPosition { x, y }),
        _ => cursor,
    }
}

/// Modifier tracking: raw modifier changes apply immediately, never deferred.
pub open spec fn modifiers_after(modifiers: u32, event: RawEvent) -> u32 {
    match event {
        RawEvent::ModifiersChanged { bits } => bits,
        _ => modifiers,
    }
}

/// Display-viewport tracking: size and scale changes apply immediately.
pub open spec fn viewport_after(vp: ScreenViewport, event: RawEvent) -> ScreenViewport {
    match event {
        RawEvent::Resized { width, height } => ScreenViewport {
            width,
            height,
            scale_bits: vp.scale_bits,
        },
        RawEvent::ScaleFactorChanged { scale_bits } => ScreenViewport {
            width: vp.width,
            height: vp.height,
            scale_bits,
        },
        _ => vp,
    }
}

/// The input-side state of the bridge: everything a raw event can touch
/// before an update pass runs.
pub ghost struct InputModel {
    pub cursor: Option<CursorPosition>,
    pub modifiers: u32,
    pub viewport: ScreenViewport,
    pub queued: Seq<UiEvent>,
}

/// Absorb one raw event: apply its immediate state updates, then enqueue its
/// translation, if it has one.
pub open spec fn ingest(m: InputModel, event: RawEvent) -> InputModel {
    let next = InputModel {
        cursor: cursor_after(m.cursor, event),
        modifiers: modifiers_after(m.modifiers, event),
        viewport: viewport_after(m.viewport, event),
        queued: m.queued,
    };
    match translation_of(event, next.modifiers) {
        Some(ui) => InputModel {
            cursor: next.cursor,
            modifiers: next.modifiers,
            viewport: next.viewport,
            queued: next.queued.push(ui),
        },
        None => next,
    }
}

/// A whole batch absorbed in order, first event first.
pub open spec fn ingest_all(m: InputModel, events: Seq<RawEvent>) -> InputModel
    decreases events.len(),
{
    if events.len() == 0 {
        m
    } else {
        ingest_all(ingest(m, events[0]), events.subrange(1, events.len() as int))
    }
}

/// The video-surface placeholder's bounds under the current viewport: the
/// top third of the window, full width. The toggle button sits in the middle
/// third and the scrub slider in the remainder below it.
pub open spec fn placeholder_rect(vp: ScreenViewport) -> Rect {
    Rect { x: 0, y: 0, width: vp.width, height: (vp.height / 3) as u32 }
}

/// The message the toggle button emits when activated: the opposite of the
/// state it displays.
pub open spec fn toggle_message(playing: bool) -> Message {
    if playing {
        Message::Pause
    } else {
        Message::Play
    }
}

/// The frame a press at horizontal position `x` requests: positions across
/// the window map linearly onto the discretized range `0..=SCRUB_MAX`.
pub open spec fn scrub_frame(x: i64, width: u32) -> usize
    recommends
        0 <= x < width,
{
    ((x * SCRUB_MAX) / (width as int)) as usize
}

/// Hit testing for a primary-button press: the cursor must be known and
/// inside the window; the middle third activates the toggle, the bottom
/// band moves the scrub slider, and the video surface swallows the press.
pub open spec fn press_message(
    playing: bool,
    cursor: Option<CursorPosition>,
    vp: ScreenViewport,
) -> Option<Message> {
    match cursor {
        None => None,
        Some(c) => {
            if 0 <= c.x < vp.width && 0 <= c.y < vp.height {
                let row = vp.height as int / 3;
                if c.y < row {
                    None
                } else if c.y < 2 * row {
                    Some(toggle_message(playing))
                } else {
                    Some(Message::SkipTo(scrub_frame(c.x, vp.width)))
                }
            } else {
                None
            }
        },
    }
}

/// The message one queued interaction event produces during an update pass,
/// against the playing flag current at that moment and the cursor and
/// viewport fixed for the whole pass. Only a press emits one: cursor motion
/// merely refreshes hover state, and releases, keys and modifier notices
/// drive no widget defined here.
pub open spec fn event_message(
    ev: UiEvent,
    playing: bool,
    cursor: Option<CursorPosition>,
    vp: ScreenViewport,
) -> Option<Message> {
    match ev {
        UiEvent::Pressed => press_message(playing, cursor, vp),
        _ => None,
    }
}

/// One queued event applied to the widget program.
pub open spec fn apply_event(
    m: GuiModel,
    ev: UiEvent,
    cursor: Option<CursorPosition>,
    vp: ScreenViewport,
) -> GuiModel {
    match event_message(ev, m.playing, cursor, vp) {
        Some(message) => gui_step(m, message),
        None => m,
    }
}

/// The widget program folded over the queued interaction events of one
/// update pass, first event first.
pub open spec fn apply_events(
    m: GuiModel,
    events: Seq<UiEvent>,
    cursor: Option<CursorPosition>,
    vp: ScreenViewport,
) -> GuiModel
    decreases events.len(),
{
    if events.len() == 0 {
        m
    } else {
        apply_events(
            apply_event(m, events[0], cursor, vp),
            events.subrange(1, events.len() as int),
            cursor,
            vp,
        )
    }
}

/// The stateful adapter between the OS event stream, the widget program and
/// the window: it owns the program's execution state, tracks input-device
/// state and display geometry, translates raw events, batches them, and
/// decides when a redraw must be requested.
pub struct GuiRuntime {
    /// The widget program being driven.
    pub gui: Gui,
    /// Interaction events translated but not yet applied.
    pub pending_events: Vec<UiEvent>,
    /// Last reported pointer position; absent until the first pointer event.
    pub cursor_position: Option<CursorPosition>,
    /// Current keyboard-modifier state, as raw bits.
    pub modifiers: u32,
    /// The window's physical size and scale factor.
    pub viewport: ScreenViewport,
}

impl GuiRuntime {
    /// The input-side state of this bridge.
    pub open spec fn input_model(&self) -> InputModel {
        InputModel {
            cursor: self.cursor_position,
            modifiers: self.modifiers,
            viewport: self.viewport,
            queued: self.pending_events@,
        }
    }

    /// Create the bridge once, at window and GPU-surface initialization:
    /// no cursor yet, no modifiers held, nothing pending, nothing emitted,
    /// showing as paused, publishing the placeholder's bounds through the
    /// given cell.
    pub fn init(width: u32, height: u32, scale_bits: u64, viewport_cell: ViewportCell) -> (rt:
        GuiRuntime)
        ensures
            rt.gui.model().instructions == Seq::<PlaybackInstruction>::empty(),
            rt.gui.model().playing == false,
            rt.gui.viewport_cell == viewport_cell,
            rt.pending_events@ == Seq::<UiEvent>::empty(),
            rt.cursor_position is None,
            rt.modifiers == 0,
            rt.viewport == (ScreenViewport { width, height, scale_bits }),
    {
        GuiRuntime {
            gui: Gui::new(viewport_cell),
            pending_events: Vec::new(),
            cursor_position: None,
            modifiers: 0,
            viewport: ScreenViewport { width, height, scale_bits },
        }
    }

    /// Absorb one raw event without running an update pass: apply its
    /// immediate state updates (cursor, modifiers, display viewport), then
    /// translate it and queue the interaction event, if any. The widget
    /// program itself is untouched.
    pub fn queue_event(&mut self, event: RawEvent)
        ensures
            final(self).input_model() == ingest(old(self).input_model(), event),
            final(self).gui == old(self).gui,
    {
        match event {
            RawEvent::PointerMoved { x, y } => {
                self.cursor_position = Some(CursorPosition { x, y });
            },
            RawEvent::ModifiersChanged { bits } => {
                self.modifiers = bits;
            },
            RawEvent::Resized { width, height } => {
                self.viewport.width = width;
                self.viewport.height = height;
            },
            RawEvent::ScaleFactorChanged { scale_bits } => {
                self.viewport.scale_bits = scale_bits;
            },
            _ => {},
        }
        match translate_event(event, self.modifiers) {
            Some(ui) => self.pending_events.push(ui),
            None => {},
        }
    }
}

impl GuiRuntime {
    /// Run one update pass if any interaction is pending: apply every queued
    /// event in order against the widget program, republish the placeholder's
    /// bounds if the layout moved them, clear the queue, and report whether
    /// the caller must request a redraw — exactly when a pass ran. Requesting
    /// a redraw for every processed interaction deliberately over-
    /// approximates: a little extra rendering buys never missing a needed
    /// redraw.
    pub fn run_update_pass(&mut self) -> (redraw: bool)
        ensures
            redraw == (old(self).pending_events@.len() > 0),
            final(self).pending_events@ == Seq::<UiEvent>::empty(),
            final(self).gui.model() == apply_events(
                old(self).gui.model(),
                old(self).pending_events@,
                old(self).cursor_position,
                old(self).viewport,
            ),
            final(self).gui.viewport_cell == old(self).gui.viewport_cell,
            final(self).cursor_position == old(self).cursor_position,
            final(self).modifiers == old(self).modifiers,
            final(self).viewport == old(self).viewport,
    {
        if self.pending_events.is_empty() {
            proof {
                assert(self.pending_events@ =~= Seq::<UiEvent>::empty());
            }
            return false;
        }
        let ghost m0 = self.gui.model();
        let ghost q = self.pending_events@;
        let ghost cur = self.cursor_position;
        let ghost vp0 = self.viewport;
        let ghost cell0 = self.gui.viewport_cell;
        let mut i: usize = 0;
        while i < self.pending_events.len()
            invariant
                i <= q.len(),
                self.pending_events@ == q,
                self.cursor_position == cur,
                self.modifiers == old(self).modifiers,
                self.viewport == vp0,
                self.gui.viewport_cell == cell0,
                self.gui.model() == apply_events(m0, q.take(i as int), cur, vp0),
            decreases q.len() - i,
        {
            let ev = self.pending_events[i];
            let message = match ev {
                UiEvent::Pressed => compute_press_message(
                    self.gui.playing,
                    &self.cursor_position,
                    &self.viewport,
                ),
                _ => None,
            };
            proof {
                assert(q.take(i + 1 as int) =~= q.take(i as int).push(q[i as int]));
                lemma_apply_events_snoc(m0, q.take(i as int), q[i as int], cur, vp0);
            }
            match message {
                Some(message) => self.gui.update(message),
                None => {},
            }
            i = i + 1;
        }
        proof {
            assert(q.take(q.len() as int) =~= q);
        }
        let target = compute_placeholder_rect(&self.viewport);
        let current = self.gui.viewport_cell.read();
        if current != target {
            self.gui.viewport_cell.write(target);
        }
        self.pending_events.clear();
        true
    }

    /// The full ordered protocol for one raw event: translate and absorb it,
    /// then, if anything is pending, run one update pass. The result says
    /// whether the caller must request a redraw of the window; the request
    /// itself is the caller's fire-and-forget notification.
    pub fn process_event(&mut self, event: RawEvent) -> (redraw: bool)
        ensures
            ({
                let ing = ingest(old(self).input_model(), event);
                &&& redraw == (ing.queued.len() > 0)
                &&& final(self).cursor_position == ing.cursor
                &&& final(self).modifiers == ing.modifiers
                &&& final(self).viewport == ing.viewport
                &&& final(self).pending_events@ == Seq::<UiEvent>::empty()
                &&& final(self).gui.model() == apply_events(
                    old(self).gui.model(),
                    ing.queued,
                    ing.cursor,
                    ing.viewport,
                )
                &&& final(self).gui.viewport_cell == old(self).gui.viewport_cell
            }),
    {
        self.queue_event(event);
        self.run_update_pass()
    }

    /// Drive one batch of raw events: absorb each in order, then run at most
    /// one update pass. A batch with any pending interaction yields exactly
    /// one pass and one redraw request however large the batch; a batch with
    /// none yields neither.
    pub fn process_events(&mut self, events: &Vec<RawEvent>) -> (redraw: bool)
        ensures
            ({
                let ing = ingest_all(old(self).input_model(), events@);
                &&& redraw == (ing.queued.len() > 0)
                &&& final(self).cursor_position == ing.cursor
                &&& final(self).modifiers == ing.modifiers
                &&& final(self).viewport == ing.viewport
                &&& final(self).pending_events@ == Seq::<UiEvent>::empty()
                &&& final(self).gui.model() == apply_events(
                    old(self).gui.model(),
                    ing.queued,
                    ing.cursor,
                    ing.viewport,
                )
                &&& final(self).gui.viewport_cell == old(self).gui.viewport_cell
            }),
    {
        let ghost m0 = self.input_model();
        let ghost gui0 = self.gui;
        let mut i: usize = 0;
        while i < events.len()
            invariant
                i <= events@.len(),
                self.input_model() == ingest_all(m0, events@.take(i as int)),
                self.gui == gui0,
            decreases events@.len() - i,
        {
            proof {
                assert(events@.take(i + 1 as int) =~= events@.take(i as int).push(
                    events@[i as int],
                ));
                lemma_ingest_all_snoc(m0, events@.take(i as int), events@[i as int]);
            }
            self.queue_event(events[i]);
            i = i + 1;
        }
        proof {
            assert(events@.take(events@.len() as int) =~= events@);
        }
        self.run_update_pass()
    }
}

/// Folding one more queued event at the end equals one application after
/// the fold.
pub proof fn lemma_apply_events_snoc(
    m: GuiModel,
    events: Seq<UiEvent>,
    ev: UiEvent,
    cursor: Option<CursorPosition>,
    vp: ScreenViewport,
)
    ensures
        apply_events(m, events.push(ev), cursor, vp) == apply_event(
            apply_events(m, events, cursor, vp),
            ev,
            cursor,
            vp,
        ),
    decreases events.len(),
{
    let whole = events.push(ev);
    let whole_rest = whole.subrange(1, whole.len() as int);
    if events.len() == 0 {
        assert(whole[0] == ev);
        assert(whole_rest =~= Seq::<UiEvent>::empty());
        assert(apply_events(m, whole, cursor, vp) == apply_events(
            apply_event(m, ev, cursor, vp),
            whole_rest,
            cursor,
            vp,
        ));
        assert(apply_events(apply_event(m, ev, cursor, vp), Seq::<UiEvent>::empty(), cursor, vp)
            == apply_event(m, ev, cursor, vp));
        assert(apply_events(m, events, cursor, vp) == m);
    } else {
        let first = events[0];
        let rest = events.subrange(1, events.len() as int);
        assert(whole[0] == first);
        assert(whole_rest =~= rest.push(ev));
        lemma_apply_events_snoc(apply_event(m, first, cursor, vp), rest, ev, cursor, vp);
        assert(apply_events(m, whole, cursor, vp) == apply_events(
            apply_event(m, first, cursor, vp),
            whole_rest,
            cursor,
            vp,
        ));
        assert(apply_events(m, events, cursor, vp) == apply_events(
            apply_event(m, first, cursor, vp),
            rest,
            cursor,
            vp,
        ));
    }
}

/// Absorbing one more raw event at the end equals one ingest after the fold.
pub proof fn lemma_ingest_all_snoc(m: InputModel, events: Seq<RawEvent>, event: RawEvent)
    ensures
        ingest_all(m, events.push(event)) == ingest(ingest_all(m, events), event),
    decreases events.len(),
{
    let whole = events.push(event);
    let whole_rest = whole.subrange(1, whole.len() as int);
    if events.len() == 0 {
        assert(whole[0] == event);
        assert(whole_rest =~= Seq::<RawEvent>::empty());
        assert(ingest_all(m, whole) == ingest_all(ingest(m, event), whole_rest));
        assert(ingest_all(ingest(m, event), Seq::<RawEvent>::empty()) == ingest(m, event));
        assert(ingest_all(m, events) == m);
    } else {
        let first = events[0];
        let rest = events.subrange(1, events.len() as int);
        assert(whole[0] == first);
        assert(whole_rest =~= rest.push(event));
        lemma_ingest_all_snoc(ingest(m, first), rest, event);
        assert(ingest_all(m, whole) == ingest_all(ingest(m, first), whole_rest));
        assert(ingest_all(m, events) == ingest_all(ingest(m, first), rest));
    }
}

/// How many events of a batch map to semantic interactions.
pub open spec fn count_interactions(events: Seq<RawEvent>) -> nat
    decreases events.len(),
{
    if events.len() == 0 {
        0
    } else {
        (if is_interaction(events[0]) {
            1nat
        } else {
            0nat
        }) + count_interactions(events.subrange(1, events.len() as int))
    }
}

/// Absorbing a batch grows the pending queue by exactly the number of its
/// translatable events: one queued interaction per translatable raw event,
/// none for the rest — no coalescing, no drops.
pub proof fn lemma_ingest_all_queue_growth(m: InputModel, events: Seq<RawEvent>)
    ensures
        ingest_all(m, events).queued.len() == m.queued.len() + count_interactions(events),
    decreases events.len(),
{
    if events.len() > 0 {
        lemma_ingest_all_queue_growth(
            ingest(m, events[0]),
            events.subrange(1, events.len() as int),
        );
    }
}

/// A batch's interaction count is positive exactly when some event of it is
/// translatable.
pub proof fn lemma_count_positive(events: Seq<RawEvent>)
    ensures
        count_interactions(events) > 0 <==> (exists|i: int|
            0 <= i < events.len() && is_interaction(#[trigger] events[i])),
    decreases events.len(),
{
    if events.len() == 0 {
    } else {
        let rest = events.subrange(1, events.len() as int);
        lemma_count_positive(rest);
        if is_interaction(events[0]) {
            assert(is_interaction(events[0]));
        } else {
            if count_interactions(events) > 0 {
                let j = choose|j: int| 0 <= j < rest.len() && is_interaction(#[trigger] rest[j]);
                assert(is_interaction(events[j + 1]));
            }
            if exists|i: int| 0 <= i < events.len() && is_interaction(#[trigger] events[i]) {
                let i = choose|i: int|
                    0 <= i < events.len() && is_interaction(#[trigger] events[i]);
                assert(is_interaction(rest[i - 1]));
            }
        }
    }
}

/// Redraw discipline for a batch that starts with nothing pending: the one
/// update pass and its one redraw request happen exactly when the batch
/// holds at least one translatable event, however many it holds; a batch of
/// only untranslatable events (or none) yields no pass and no redraw.
/// Together with the contract of [`GuiRuntime::process_events`] this pins
/// the redraw behaviour for every batch.
pub proof fn lemma_batch_redraw_discipline(m: InputModel, events: Seq<RawEvent>)
    requires
        m.queued.len() == 0,
    ensures
        ingest_all(m, events).queued.len() > 0 <==> (exists|i: int|
            0 <= i < events.len() && is_interaction(#[trigger] events[i])),
{
    lemma_ingest_all_queue_growth(m, events);
    lemma_count_positive(events);
}

/// Exec mirror of [`placeholder_rect`]; the result is well formed, so it can
/// be published to the shared cell.
fn compute_placeholder_rect(vp: &ScreenViewport) -> (r: Rect)
    ensures
        r == placeholder_rect(*vp),
        r.wf(),
{
    Rect { x: 0, y: 0, width: vp.width, height: vp.height / 3 }
}

/// Exec mirror of [`press_message`].
fn compute_press_message(
    playing: bool,
    cursor: &Option<CursorPosition>,
    vp: &ScreenViewport,
) -> (r: Option<Message>)
    ensures
        r == press_message(playing, *cursor, *vp),
{
    match cursor {
        None => None,
        Some(c) => {
            if 0 <= c.x && c.x < vp.width as i64 && 0 <= c.y && c.y < vp.height as i64 {
                let row: u32 = vp.height / 3;
                if c.y < row as i64 {
                    None
                } else if c.y < 2 * (row as i64) {
                    if playing {
                        Some(Message::Pause)
                    } else {
                        Some(Message::Play)
                    }
                } else {
                    Some(Message::SkipTo(compute_scrub_frame(c.x, vp.width)))
                }
            } else {
                None
            }
        },
    }
}

/// Exec mirror of [`scrub_frame`]; the result stays within the discretized
/// range.
fn compute_scrub_frame(x: i64, width: u32) -> (frame: usize)
    requires
        0 <= x,
        x < width as i64,
    ensures
        frame == scrub_frame(x, width),
        frame <= SCRUB_MAX,
{
    proof {
        assert((x as int) * (SCRUB_MAX as int) < (width as int) * ((SCRUB_MAX + 1) as int))
            by (nonlinear_arith)
            requires
                0 <= x as int,
                (x as int) < (width as int),
        ;
        vstd::arithmetic::div_mod::lemma_multiply_divide_lt(
            (x as int) * (SCRUB_MAX as int),
            width as int,
            (SCRUB_MAX + 1) as int,
        );
    }
    let scaled: i64 = x * (SCRUB_MAX as i64);
    let frame: i64 = scaled / (width as i64);
    frame as usize
}

/// Exec mirror of [`translation_of`].
fn translate_event(event: RawEvent, modifiers: u32) -> (r: Option<UiEvent>)
    ensures
        r == translation_of(event, modifiers),
{
    match event {
        RawEvent::PointerMoved { x, y } => Some(UiEvent::CursorMoved { x, y }),
        RawEvent::PointerPressed => Some(UiEvent::Pressed),
        RawEvent::PointerReleased => Some(UiEvent::Released),
        RawEvent::KeyPressed { code } => Some(UiEvent::Key { code, modifiers }),
        RawEvent::ModifiersChanged { bits } => Some(UiEvent::Modifiers { bits }),
        RawEvent::Resized { .. } => None,
        RawEvent::ScaleFactorChanged { .. } => None,
        RawEvent::Unsupported => None,
    }
}

} // verus!
