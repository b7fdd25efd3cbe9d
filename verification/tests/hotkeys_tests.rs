use vocal_note_taker::system::hotkeys::DEFAULT_TOGGLE_RECORDING;

#[test]
fn test_default_shortcut_constant() {
    assert_eq!(DEFAULT_TOGGLE_RECORDING, "CmdOrCtrl+Alt+R");
}
