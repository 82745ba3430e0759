use video_gui::gui::Message;
use video_gui::playback::PlaybackInstruction;
use video_gui::runtime::GuiRuntime;
use video_gui::runtime::RawEvent;
use video_gui::viewport::Rect;
use video_gui::viewport::ViewportCell;

fn fresh_bridge() -> GuiRuntime {
    GuiRuntime::init(300, 300, 0, ViewportCell::new())
}

#[test]
fn init_starts_clean() {
    let rt = fresh_bridge();
    assert!(rt.cursor_position.is_none());
    assert_eq!(rt.modifiers, 0);
    assert_eq!(rt.viewport.width, 300);
    assert_eq!(rt.viewport.height, 300);
    assert!(rt.pending_events.is_empty());
    assert!(rt.gui.playback_instructions.is_empty());
    assert!(!rt.gui.playing);
}

#[test]
fn batch_yields_one_redraw_regardless_of_size() {
    // one translatable event
    let mut rt = fresh_bridge();
    assert!(rt.process_events(&vec![RawEvent::PointerMoved { x: 10, y: 10 }]));
    assert!(rt.pending_events.is_empty());

    // several translatable events, still a single pass and redraw decision
    let mut rt = fresh_bridge();
    let batch = vec![
        RawEvent::PointerMoved { x: 10, y: 10 },
        RawEvent::KeyPressed { code: 32 },
        RawEvent::ModifiersChanged { bits: 1 },
        RawEvent::PointerReleased,
    ];
    assert!(rt.process_events(&batch));
    assert!(rt.pending_events.is_empty());
}

#[test]
fn untranslatable_batch_yields_no_redraw() {
    let mut rt = fresh_bridge();
    let batch = vec![
        RawEvent::Resized { width: 640, height: 480 },
        RawEvent::ScaleFactorChanged { scale_bits: 77 },
        RawEvent::Unsupported,
    ];
    assert!(!rt.process_events(&batch));
    // the geometry still applied immediately
    assert_eq!(rt.viewport.width, 640);
    assert_eq!(rt.viewport.height, 480);
    assert_eq!(rt.viewport.scale_bits, 77);
    assert!(rt.gui.playback_instructions.is_empty());
}

#[test]
fn pointer_moves_redraw_without_instructions() {
    let mut rt = fresh_bridge();
    let batch = vec![
        RawEvent::PointerMoved { x: 20, y: 20 },
        RawEvent::PointerMoved { x: 40, y: 40 },
    ];
    assert!(rt.process_events(&batch));
    assert!(rt.gui.playback_instructions.is_empty());
    assert_eq!(rt.cursor_position.map(|c| (c.x, c.y)), Some((40, 40)));
}

#[test]
fn click_scenario_through_the_bridge() {
    let mut rt = fresh_bridge();

    // move over the toggle row (middle third) and press: play
    assert!(rt.process_event(RawEvent::PointerMoved { x: 150, y: 150 }));
    assert!(rt.process_event(RawEvent::PointerPressed));
    assert_eq!(rt.gui.playback_instructions, vec![PlaybackInstruction::Play]);
    assert_eq!(rt.gui.view().toggle.label, "pause");

    // press again: pause
    assert!(rt.process_event(RawEvent::PointerPressed));
    assert_eq!(
        rt.gui.playback_instructions,
        vec![PlaybackInstruction::Play, PlaybackInstruction::Pause]
    );
    assert_eq!(rt.gui.view().toggle.label, "play");

    // drag down to the scrub band at the midpoint: skip to frame 500
    assert!(rt.process_event(RawEvent::PointerMoved { x: 150, y: 250 }));
    assert!(rt.process_event(RawEvent::PointerPressed));
    assert_eq!(
        rt.gui.playback_instructions,
        vec![
            PlaybackInstruction::Play,
            PlaybackInstruction::Pause,
            PlaybackInstruction::SkipTo(500)
        ]
    );
    assert_eq!(rt.gui.view().toggle.label, "play");
}

#[test]
fn modifiers_apply_immediately_even_without_a_pass() {
    let mut rt = fresh_bridge();
    rt.queue_event(RawEvent::ModifiersChanged { bits: 5 });
    assert_eq!(rt.modifiers, 5);
    assert_eq!(rt.pending_events.len(), 1);
    assert!(rt.gui.playback_instructions.is_empty());
}

#[test]
fn resize_applies_without_redraw() {
    let mut rt = fresh_bridge();
    assert!(!rt.process_event(RawEvent::Resized { width: 1024, height: 768 }));
    assert_eq!(rt.viewport.width, 1024);
    assert_eq!(rt.viewport.height, 768);
}

#[test]
fn cursor_persists_until_the_next_move() {
    let mut rt = fresh_bridge();
    assert!(rt.cursor_position.is_none());
    rt.process_event(RawEvent::PointerMoved { x: 9, y: 9 });
    rt.process_event(RawEvent::Unsupported);
    assert_eq!(rt.cursor_position.map(|c| (c.x, c.y)), Some((9, 9)));
}

#[test]
fn placeholder_bounds_published_on_a_pass() {
    let cell = ViewportCell::new();
    let render_lane = cell.duplicate();
    let mut rt = GuiRuntime::init(300, 300, 0, cell);
    assert_eq!(render_lane.read(), Rect { x: 0, y: 0, width: 0, height: 0 });
    rt.process_event(RawEvent::PointerMoved { x: 1, y: 1 });
    // the update pass laid out the widget tree: top third is the video surface
    assert_eq!(render_lane.read(), Rect { x: 0, y: 0, width: 300, height: 100 });
}

#[test]
fn press_on_the_video_surface_is_swallowed() {
    let mut rt = fresh_bridge();
    assert!(rt.process_event(RawEvent::PointerMoved { x: 150, y: 50 }));
    assert!(rt.process_event(RawEvent::PointerPressed));
    assert!(rt.gui.playback_instructions.is_empty());
}

#[test]
fn press_without_a_known_cursor_is_swallowed() {
    let mut rt = fresh_bridge();
    assert!(rt.process_event(RawEvent::PointerPressed));
    assert!(rt.gui.playback_instructions.is_empty());
}

#[test]
fn scrub_band_maps_positions_linearly() {
    let mut rt = fresh_bridge();
    rt.process_event(RawEvent::PointerMoved { x: 0, y: 250 });
    rt.process_event(RawEvent::PointerPressed);
    rt.process_event(RawEvent::PointerMoved { x: 299, y: 299 });
    rt.process_event(RawEvent::PointerPressed);
    assert_eq!(
        rt.gui.playback_instructions,
        vec![PlaybackInstruction::SkipTo(0), PlaybackInstruction::SkipTo(996)]
    );
}

#[test]
fn row_boundaries_hit_the_lower_widget() {
    // with height 300 the rows are [0,100), [100,200), [200,300)
    let mut rt = fresh_bridge();
    rt.process_event(RawEvent::PointerMoved { x: 0, y: 100 });
    rt.process_event(RawEvent::PointerPressed);
    assert_eq!(rt.gui.playback_instructions, vec![PlaybackInstruction::Play]);
    rt.process_event(RawEvent::PointerMoved { x: 0, y: 200 });
    rt.process_event(RawEvent::PointerPressed);
    assert_eq!(
        rt.gui.playback_instructions,
        vec![PlaybackInstruction::Play, PlaybackInstruction::SkipTo(0)]
    );
}

#[test]
fn presses_outside_the_window_are_swallowed() {
    let mut rt = fresh_bridge();
    rt.process_event(RawEvent::PointerMoved { x: -5, y: 150 });
    rt.process_event(RawEvent::PointerPressed);
    rt.process_event(RawEvent::PointerMoved { x: 150, y: 300 });
    rt.process_event(RawEvent::PointerPressed);
    assert!(rt.gui.playback_instructions.is_empty());
}

#[test]
fn empty_window_never_resolves_a_press() {
    let mut rt = GuiRuntime::init(0, 0, 0, ViewportCell::new());
    assert!(rt.process_event(RawEvent::PointerMoved { x: 0, y: 0 }));
    assert!(rt.process_event(RawEvent::PointerPressed));
    assert!(rt.gui.playback_instructions.is_empty());
}

#[test]
fn presses_in_one_batch_toggle_in_order() {
    let mut rt = fresh_bridge();
    let batch = vec![
        RawEvent::PointerMoved { x: 150, y: 150 },
        RawEvent::PointerPressed,
        RawEvent::PointerPressed,
    ];
    assert!(rt.process_events(&batch));
    assert_eq!(
        rt.gui.playback_instructions,
        vec![PlaybackInstruction::Play, PlaybackInstruction::Pause]
    );
    assert_eq!(rt.gui.view().toggle.on_press, Message::Play);
}
