use video_gui::gui::Gui;
use video_gui::gui::Message;
use video_gui::playback::PlaybackInstruction;
use video_gui::viewport::ViewportCell;

fn fresh_gui() -> Gui {
    Gui::new(ViewportCell::new())
}

#[test]
fn press_play_then_pause_then_scrub() {
    let mut gui = fresh_gui();
    assert_eq!(gui.view().toggle.label, "play");
    assert_eq!(gui.view().toggle.on_press, Message::Play);

    gui.update(Message::Play);
    assert_eq!(gui.playback_instructions, vec![PlaybackInstruction::Play]);
    assert_eq!(gui.view().toggle.label, "pause");
    assert_eq!(gui.view().toggle.on_press, Message::Pause);

    gui.update(Message::Pause);
    assert_eq!(
        gui.playback_instructions,
        vec![PlaybackInstruction::Play, PlaybackInstruction::Pause]
    );
    assert_eq!(gui.view().toggle.label, "play");

    gui.update(Message::SkipTo(500));
    assert_eq!(
        gui.playback_instructions,
        vec![
            PlaybackInstruction::Play,
            PlaybackInstruction::Pause,
            PlaybackInstruction::SkipTo(500)
        ]
    );
    assert_eq!(gui.view().toggle.label, "play");
}

#[test]
fn repeated_toggle_last_one_wins() {
    let mut gui = fresh_gui();
    gui.update(Message::Play);
    gui.update(Message::Play);
    assert!(gui.playing);
    gui.update(Message::Pause);
    gui.update(Message::Pause);
    assert!(!gui.playing);
    gui.update(Message::Pause);
    gui.update(Message::Play);
    assert!(gui.playing);
}

#[test]
fn queue_grows_by_one_per_message_in_order() {
    let mut gui = fresh_gui();
    let messages = [
        Message::Play,
        Message::SkipTo(10),
        Message::Pause,
        Message::SkipTo(0),
        Message::Play,
        Message::SkipTo(1000),
    ];
    for (n, message) in messages.iter().enumerate() {
        assert_eq!(gui.playback_instructions.len(), n);
        gui.update(*message);
        assert_eq!(gui.playback_instructions.len(), n + 1);
    }
    assert_eq!(
        gui.playback_instructions,
        vec![
            PlaybackInstruction::Play,
            PlaybackInstruction::SkipTo(10),
            PlaybackInstruction::Pause,
            PlaybackInstruction::SkipTo(0),
            PlaybackInstruction::Play,
            PlaybackInstruction::SkipTo(1000)
        ]
    );
}

#[test]
fn skip_to_never_touches_playing() {
    let mut gui = fresh_gui();
    gui.update(Message::SkipTo(7));
    assert!(!gui.playing);
    gui.update(Message::Play);
    gui.update(Message::SkipTo(3));
    gui.update(Message::SkipTo(900));
    assert!(gui.playing);
    gui.update(Message::Pause);
    gui.update(Message::SkipTo(1));
    assert!(!gui.playing);
}

#[test]
fn slider_is_a_pure_command_emitter() {
    let mut gui = fresh_gui();
    let scrub = gui.view().scrub;
    assert_eq!(scrub.min, 0);
    assert_eq!(scrub.max, 1000);
    assert_eq!(scrub.position, 0);
    gui.update(Message::Play);
    gui.update(Message::SkipTo(640));
    let scrub = gui.view().scrub;
    assert_eq!(scrub.position, 0);
}
