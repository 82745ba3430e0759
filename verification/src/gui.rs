use vstd::prelude::*;

use crate::playback::PlaybackInstruction;
use crate::viewport::ViewportCell;

verus! {

/// A semantic request emitted by one of the widgets.
#[derive(Clone, Copy, Debug, PartialEq, Eq, Structural)]
pub enum Message {
    /// The toggle button was activated while the player showed as paused.
    Play,
    /// The toggle button was activated while the player showed as playing.
    Pause,
    /// The scrub slider was moved to the given frame of its discretized range.
    SkipTo(usize),
}

/// Highest frame the scrub slider can request; its range is `0..=SCRUB_MAX`.
pub const SCRUB_MAX: usize = 1000;

/// The playback instruction that processing a message appends to the queue.
pub open spec fn instruction_of(message: Message) -> PlaybackInstruction {
    match message {
        Message::Play => PlaybackInstruction::Play,
        Message::Pause => PlaybackInstruction::Pause,
        Message::SkipTo(frame) => PlaybackInstruction::SkipTo(frame),
    }
}

/// What the `playing` flag shows after one message: `Play` and `Pause` set
/// it, `SkipTo` leaves it alone.
pub open spec fn playing_after(playing: bool, message: Message) -> bool {
    match message {
        Message::Play => true,
        Message::Pause => false,
        Message::SkipTo(_) => playing,
    }
}

/// The mathematical state of the widget program: the instructions emitted so
/// far, in emission order, and the displayed playing flag.
pub ghost struct GuiModel {
    pub instructions: Seq<PlaybackInstruction>,
    pub playing: bool,
}

/// One transition of the widget program: every message appends exactly one
/// instruction and drives the playing flag per [`playing_after`].
pub open spec fn gui_step(m: GuiModel, message: Message) -> GuiModel {
    GuiModel {
        instructions: m.instructions.push(instruction_of(message)),
        playing: playing_after(m.playing, message),
    }
}

/// The widget program folded over a message sequence, first message first.
pub open spec fn gui_steps(m: GuiModel, messages: Seq<Message>) -> GuiModel
    decreases messages.len(),
{
    if messages.len() == 0 {
        m
    } else {
        gui_steps(gui_step(m, messages[0]), messages.subrange(1, messages.len() as int))
    }
}

/// The playing flag folded over a message sequence.
pub open spec fn playing_after_all(playing: bool, messages: Seq<Message>) -> bool
    decreases messages.len(),
{
    if messages.len() == 0 {
        playing
    } else {
        playing_after_all(
            playing_after(playing, messages[0]),
            messages.subrange(1, messages.len() as int),
        )
    }
}

/// Whether a message touches the playing flag at all.
pub open spec fn is_toggle(message: Message) -> bool {
    message == Message::Play || message == Message::Pause
}

/// The widget program: the video-surface placeholder, the play/pause toggle
/// and the scrub slider, together with the instruction queue their
/// interactions append to.
pub struct Gui {
    /// The instructions for the playback engine, in emission order. Nothing
    /// in this crate removes one; draining is the engine's concern.
    pub playback_instructions: Vec<PlaybackInstruction>,
    /// Handle to the shared cell the placeholder's bounds are published
    /// through.
    pub viewport_cell: ViewportCell,
    /// Whether the toggle button shows the player as playing. A display
    /// concern only: the source of truth for playback is the instruction
    /// queue as the engine consumes it.
    pub playing: bool,
}

impl Gui {
    /// The mathematical state this program is in.
    pub open spec fn model(&self) -> GuiModel {
        GuiModel { instructions: self.playback_instructions@, playing: self.playing }
    }
}

/// The play/pause control as displayed: its label and the message it emits
/// when activated.
#[derive(Clone, Copy, Debug, PartialEq, Eq)]
pub struct ToggleButton {
    pub label: &'static str,
    pub on_press: Message,
}

/// The scrub control as displayed. It is a pure command emitter: its resting
/// position is not fed back from the engine, so it always shows `0`.
#[derive(Clone, Copy, Debug, PartialEq, Eq, Structural)]
pub struct ScrubSlider {
    pub min: usize,
    pub max: usize,
    pub position: usize,
}

/// The displayed widget tree: the video-surface placeholder (which carries
/// the shared viewport handle but draws no pixels itself), the toggle button
/// and the scrub slider, stacked top to bottom in that order.
pub struct WidgetTree {
    pub surface: ViewportCell,
    pub toggle: ToggleButton,
    pub scrub: ScrubSlider,
}

/// The widget tree is a pure function of the program state: the button reads
/// "pause" and emits `Pause` while playing, else "play" and `Play`; the
/// slider spans the discretized range and rests at zero.
pub open spec fn tree_of(g: Gui) -> WidgetTree {
    WidgetTree {
        surface: g.viewport_cell,
        toggle: if g.playing {
            ToggleButton { label: "pause", on_press: Message::Pause }
        } else {
            ToggleButton { label: "play", on_press: Message::Play }
        },
        scrub: ScrubSlider { min: 0, max: SCRUB_MAX, position: 0 },
    }
}

impl Gui {
    /// A fresh widget program: nothing emitted yet, showing as paused, and
    /// publishing the placeholder's bounds through the given cell.
    pub fn new(viewport_cell: ViewportCell) -> (g: Gui)
        ensures
            g.model().instructions == Seq::<PlaybackInstruction>::empty(),
            g.model().playing == false,
            g.viewport_cell == viewport_cell,
    {
        Gui { playback_instructions: Vec::new(), viewport_cell, playing: false }
    }

    /// Process one message: append exactly its instruction and drive the
    /// playing flag. Total — no message can fail.
    pub fn update(&mut self, message: Message)
        ensures
            final(self).model() == gui_step(old(self).model(), message),
            final(self).viewport_cell == old(self).viewport_cell,
    {
        match message {
            Message::Play => {
                self.playing = true;
                self.playback_instructions.push(PlaybackInstruction::Play);
            },
            Message::Pause => {
                self.playing = false;
                self.playback_instructions.push(PlaybackInstruction::Pause);
            },
            Message::SkipTo(frame) => {
                self.playback_instructions.push(PlaybackInstruction::SkipTo(frame));
            },
        }
    }

    /// Recompute the displayed widget tree for the current state.
    pub fn view(&self) -> (t: WidgetTree)
        ensures
            t == tree_of(*self),
    {
        let toggle = if self.playing {
            ToggleButton { label: "pause", on_press: Message::Pause }
        } else {
            ToggleButton { label: "play", on_press: Message::Play }
        };
        let scrub = ScrubSlider { min: 0, max: SCRUB_MAX, position: 0 };
        WidgetTree { surface: self.viewport_cell.duplicate(), toggle, scrub }
    }
}

/// The displayed controls are a pure function of the widget program's state:
/// two programs whose playing flags agree display the same toggle and the
/// same scrub control — no hidden display state exists.
pub proof fn lemma_display_is_pure(a: Gui, b: Gui)
    requires
        a.playing == b.playing,
    ensures
        tree_of(a).toggle == tree_of(b).toggle,
        tree_of(a).scrub == tree_of(b).scrub,
{
}

/// Every processed message appends exactly one instruction, in the order the
/// messages were applied: after any message sequence the queue is the old
/// queue followed by the instruction of each message, so its length grows by
/// exactly the number of messages.
pub proof fn lemma_queue_tracks_messages(m: GuiModel, messages: Seq<Message>)
    ensures
        gui_steps(m, messages).instructions == m.instructions + messages.map(
            |i: int, message: Message| instruction_of(message),
        ),
        gui_steps(m, messages).instructions.len() == m.instructions.len() + messages.len(),
    decreases messages.len(),
{
    let mapped = messages.map(|i: int, message: Message| instruction_of(message));
    if messages.len() == 0 {
        assert(gui_steps(m, messages).instructions =~= m.instructions + mapped);
    } else {
        let rest = messages.subrange(1, messages.len() as int);
        lemma_queue_tracks_messages(gui_step(m, messages[0]), rest);
        assert(gui_steps(m, messages).instructions =~= m.instructions + mapped);
    }
}

/// The playing flag after a message sequence depends only on the flag's own
/// fold, independent of the instructions accumulated alongside.
pub proof fn lemma_playing_component(m: GuiModel, messages: Seq<Message>)
    ensures
        gui_steps(m, messages).playing == playing_after_all(m.playing, messages),
    decreases messages.len(),
{
    if messages.len() > 0 {
        lemma_playing_component(
            gui_step(m, messages[0]),
            messages.subrange(1, messages.len() as int),
        );
    }
}

/// `SkipTo` never mutates the playing flag.
pub proof fn lemma_skip_to_leaves_playing(m: GuiModel, frame: usize)
    ensures
        gui_step(m, Message::SkipTo(frame)).playing == m.playing,
{
}

/// A run of messages none of which is `Play` or `Pause` leaves the playing
/// flag exactly where it was: interleaved `SkipTo` traffic cannot disturb it.
pub proof fn lemma_non_toggles_preserve_playing(playing: bool, messages: Seq<Message>)
    requires
        forall|j: int| 0 <= j < messages.len() ==> !is_toggle(#[trigger] messages[j]),
    ensures
        playing_after_all(playing, messages) == playing,
    decreases messages.len(),
{
    if messages.len() > 0 {
        assert(!is_toggle(messages[0]));
        lemma_non_toggles_preserve_playing(
            playing_after(playing, messages[0]),
            messages.subrange(1, messages.len() as int),
        );
    }
}

/// A whole run of the widget program under messages none of which toggles —
/// `SkipTo` traffic only — leaves the playing flag untouched, while the
/// instruction queue grows as usual: the two pieces of state are independent.
pub proof fn lemma_interleaved_skips_keep_playing(m: GuiModel, messages: Seq<Message>)
    requires
        forall|j: int| 0 <= j < messages.len() ==> !is_toggle(#[trigger] messages[j]),
    ensures
        gui_steps(m, messages).playing == m.playing,
{
    lemma_playing_component(m, messages);
    lemma_non_toggles_preserve_playing(m.playing, messages);
}

/// For any message sequence, the final playing flag equals the net effect of
/// the last `Play`/`Pause` in it, however often toggles repeat and however
/// much `SkipTo` traffic is interleaved.
pub proof fn lemma_last_toggle_wins(playing: bool, messages: Seq<Message>, k: int)
    requires
        0 <= k < messages.len(),
        is_toggle(messages[k]),
        forall|j: int| k < j < messages.len() ==> !is_toggle(#[trigger] messages[j]),
    ensures
        playing_after_all(playing, messages) == (messages[k] == Message::Play),
    decreases messages.len(),
{
    let rest = messages.subrange(1, messages.len() as int);
    if k == 0 {
        assert(forall|j: int| 0 <= j < rest.len() ==> !is_toggle(#[trigger] rest[j]));
        lemma_non_toggles_preserve_playing(playing_after(playing, messages[0]), rest);
    } else {
        assert(rest[k - 1] == messages[k]);
        assert(forall|j: int| k - 1 < j < rest.len() ==> !is_toggle(#[trigger] rest[j]));
        lemma_last_toggle_wins(playing_after(playing, messages[0]), rest, k - 1);
    }
}

/// The same, of a whole run of the widget program: after any message
/// sequence whose last toggle is `Play`, the program shows as playing; after
/// one whose last toggle is `Pause`, as paused — repetition changes nothing.
pub proof fn lemma_playing_tracks_last_toggle(m: GuiModel, messages: Seq<Message>, k: int)
    requires
        0 <= k < messages.len(),
        is_toggle(messages[k]),
        forall|j: int| k < j < messages.len() ==> !is_toggle(#[trigger] messages[j]),
    ensures
        gui_steps(m, messages).playing == (messages[k] == Message::Play),
{
    lemma_playing_component(m, messages);
    lemma_last_toggle_wins(m.playing, messages, k);
}

} // verus!
