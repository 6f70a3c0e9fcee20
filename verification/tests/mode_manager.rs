use pixel_vim::mode::{Mode, ModeManager};

#[test]
fn test_mode_toggle() {
    let mut mode_manager = ModeManager::new();

    assert_eq!(*mode_manager.current_mode(), Mode::Desktop);

    mode_manager.toggle_mode();
    assert_eq!(*mode_manager.current_mode(), Mode::Normal);

    mode_manager.toggle_mode();
    assert_eq!(*mode_manager.current_mode(), Mode::Desktop);
}
