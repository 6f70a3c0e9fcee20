use pixel_vim::keyboard::{
    vk_of_key, Command, CommandOutcome, Key, KeyboardManager, KeyTransition, ESCAPE_VK,
    HOTKEY_NEXT, HOTKEY_PREVIOUS, MODIFIER_VK,
};
use pixel_vim::indicator::StatusIndicator;
use pixel_vim::mode::Mode;
use pixel_vim::window::{Direction, ExclusionRuleSet, WindowInfo};

fn plain_window(handle: u64, title: &str, class_name: &str) -> WindowInfo {
    WindowInfo {
        handle,
        visible: true,
        title: title.to_string(),
        class_name: class_name.to_string(),
        captioned: true,
        tool_window: false,
        overlapped: true,
        process_id: 100,
    }
}

fn empty_rules() -> ExclusionRuleSet {
    ExclusionRuleSet {
        denied_titles: Vec::new(),
        denied_classes: Vec::new(),
        allowed_classes: Vec::new(),
        allowed_title_fragments: Vec::new(),
    }
}

fn three_windows() -> Vec<WindowInfo> {
    vec![
        plain_window(1, "A", "ClassA"),
        plain_window(2, "B", "ClassB"),
        plain_window(3, "C", "ClassC"),
    ]
}

#[test]
fn test_key_handling() {
    let mut keyboard_manager = KeyboardManager::new();

    // Escape outside a session emits the mode toggle.
    let esc = keyboard_manager.handle_key(ESCAPE_VK, KeyTransition::Pressed);
    assert!(esc.command == Some(Command::ModeToggle));

    // The modifier chord with the H key: the modifier press starts the
    // chord, and the H hot-key then emits the "previous" direction.
    let down = keyboard_manager.handle_key(MODIFIER_VK, KeyTransition::Pressed);
    assert!(down.command == Some(Command::ChordStart));
    let hot = keyboard_manager.handle_hotkey(HOTKEY_PREVIOUS);
    assert!(hot == Some(Command::Direction(Direction::Left)));
}

#[test]
fn modifier_press_starts_and_release_ends_chord() {
    let mut km = KeyboardManager::new();
    let down = km.handle_key(MODIFIER_VK, KeyTransition::Pressed);
    assert_eq!(down.command, Some(Command::ChordStart));
    assert!(down.handled);
    let up = km.handle_key(MODIFIER_VK, KeyTransition::Released);
    assert_eq!(up.command, Some(Command::ChordEnd));
    assert!(up.handled);
}

#[test]
fn duplicate_modifier_press_emits_nothing() {
    // The modifier state reflects the most recent transition only, so a
    // duplicate press notification emits no second ChordStart.
    let mut km = KeyboardManager::new();
    km.handle_key(MODIFIER_VK, KeyTransition::Pressed);
    let again = km.handle_key(MODIFIER_VK, KeyTransition::Pressed);
    assert_eq!(again.command, None);
    let up = km.handle_key(MODIFIER_VK, KeyTransition::Released);
    assert_eq!(up.command, Some(Command::ChordEnd));
}

#[test]
fn spurious_modifier_release_passes_through() {
    let mut km = KeyboardManager::new();
    let up = km.handle_key(MODIFIER_VK, KeyTransition::Released);
    assert_eq!(up.command, None);
    assert!(!up.handled);
}

#[test]
fn direction_letters_are_not_swallowed_by_the_observer() {
    // The hot-key path is the sole authority for the direction letters.
    let mut km = KeyboardManager::new();
    km.handle_key(MODIFIER_VK, KeyTransition::Pressed);
    for key in [Key::Left, Key::Right, Key::Up, Key::Down] {
        let d = km.handle_key(vk_of_key(key), KeyTransition::Pressed);
        assert_eq!(d.command, None);
        assert!(!d.handled);
    }
}

#[test]
fn hotkey_without_modifier_is_suppressed() {
    let km = KeyboardManager::new();
    assert_eq!(km.handle_hotkey(HOTKEY_PREVIOUS), None);
    assert_eq!(km.handle_hotkey(HOTKEY_NEXT), None);
}

#[test]
fn hotkeys_emit_directions_while_modifier_held() {
    let mut km = KeyboardManager::new();
    km.handle_key(MODIFIER_VK, KeyTransition::Pressed);
    assert_eq!(
        km.handle_hotkey(HOTKEY_PREVIOUS),
        Some(Command::Direction(Direction::Left))
    );
    assert_eq!(
        km.handle_hotkey(HOTKEY_NEXT),
        Some(Command::Direction(Direction::Right))
    );
    assert_eq!(km.handle_hotkey(42), None);
}

#[test]
fn escape_during_session_does_not_toggle() {
    let mut km = KeyboardManager::new();
    km.handle_key(MODIFIER_VK, KeyTransition::Pressed);
    let esc = km.handle_key(ESCAPE_VK, KeyTransition::Pressed);
    assert_eq!(esc.command, None);
    assert!(!esc.handled);
}

#[test]
fn escape_release_emits_nothing() {
    let mut km = KeyboardManager::new();
    let esc = km.handle_key(ESCAPE_VK, KeyTransition::Released);
    assert_eq!(esc.command, None);
}

#[test]
fn mode_toggle_updates_indicator_display() {
    let mut km = KeyboardManager::new();
    km.set_indicator(StatusIndicator::new());
    let out = km.apply_command(
        Command::ModeToggle,
        &Vec::new(),
        &None,
        &empty_rules(),
    );
    assert_eq!(out, CommandOutcome::ModeChanged(Mode::Normal));
    assert_eq!(km.current_mode(), Mode::Normal);
    let out2 = km.apply_command(
        Command::ModeToggle,
        &Vec::new(),
        &None,
        &empty_rules(),
    );
    assert_eq!(out2, CommandOutcome::ModeChanged(Mode::Desktop));
    assert_eq!(km.current_mode(), Mode::Desktop);
}

#[test]
fn full_chord_session_through_the_coordinator() {
    // Candidates [A, B, C] with foreground A: ChordStart, two "next"
    // hot-keys, ChordEnd; the selection walks 0 -> 1 -> 2 and the session
    // ends asking for C's activation.
    let mut km = KeyboardManager::new();
    let windows = three_windows();
    let fg = Some(plain_window(1, "A", "ClassA"));
    let rules = empty_rules();

    let down = km.handle_key(MODIFIER_VK, KeyTransition::Pressed);
    let out = km.apply_command(down.command.unwrap(), &windows, &fg, &rules);
    assert_eq!(out, CommandOutcome::SessionStarted);
    assert_eq!(km.get_window_manager().selection(), 0);

    for expected in [1, 2] {
        let cmd = km.handle_hotkey(HOTKEY_NEXT).unwrap();
        let out = km.apply_command(cmd, &windows, &fg, &rules);
        assert_eq!(out, CommandOutcome::SelectionChanged);
        assert_eq!(km.get_window_manager().selection(), expected);
    }

    let up = km.handle_key(MODIFIER_VK, KeyTransition::Released);
    let out = km.apply_command(up.command.unwrap(), &windows, &fg, &rules);
    assert_eq!(out, CommandOutcome::SessionEnded(Some(3)));
    assert!(!km.get_window_manager().is_switching());
}

#[test]
fn chord_start_while_active_is_dropped_by_the_session() {
    let mut km = KeyboardManager::new();
    let windows = three_windows();
    let rules = empty_rules();
    km.apply_command(Command::ChordStart, &windows, &None, &rules);
    km.apply_command(Command::Direction(Direction::Right), &windows, &None, &rules);
    let out = km.apply_command(Command::ChordStart, &windows, &None, &rules);
    assert_eq!(out, CommandOutcome::NoChange);
    assert_eq!(km.get_window_manager().candidate_count(), 3);
    assert_eq!(km.get_window_manager().selection(), 1);
}

#[test]
fn vk_of_key_names_the_four_letters() {
    assert_eq!(vk_of_key(Key::Left), 0x48);
    assert_eq!(vk_of_key(Key::Down), 0x4A);
    assert_eq!(vk_of_key(Key::Up), 0x4B);
    assert_eq!(vk_of_key(Key::Right), 0x4C);
}
