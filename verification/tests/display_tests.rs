use bedrockci::display::console_action;
use bedrockci::display::ConsoleAction;
use bedrockci::display::DisplayStyle;

#[test]
fn ready_marker_is_announced_and_flips_the_flag() {
    let (action, started) = console_action("[INFO] Server started.", false, false);
    assert_eq!(action, ConsoleAction::AnnounceStarted);
    assert!(started);
    let (action, started) = console_action("Server started.", true, true);
    assert_eq!(action, ConsoleAction::AnnounceStarted);
    assert!(started);
}

#[test]
fn startup_notices_show_before_start_only() {
    let (action, started) = console_action("Level Name: Bedrock level", false, false);
    assert_eq!(action, ConsoleAction::Show(DisplayStyle::Blue));
    assert!(!started);
    // After start, the same line carries no severity keyword and is dropped.
    let (action, _) = console_action("Level Name: Bedrock level", true, false);
    assert_eq!(action, ConsoleAction::Suppress);
}

#[test]
fn verbose_mode_shows_everything() {
    assert_eq!(
        console_action("ERROR boom", true, true).0,
        ConsoleAction::Show(DisplayStyle::Red)
    );
    assert_eq!(
        console_action("WARN careful", true, true).0,
        ConsoleAction::Show(DisplayStyle::Yellow)
    );
    assert_eq!(
        console_action("INFO chatter", true, true).0,
        ConsoleAction::Show(DisplayStyle::Blue)
    );
    assert_eq!(
        console_action("plain line", true, true).0,
        ConsoleAction::Show(DisplayStyle::Dimmed)
    );
}

#[test]
fn quiet_mode_keeps_errors_warnings_and_notable_activity() {
    assert_eq!(
        console_action("ERROR boom", true, false).0,
        ConsoleAction::Show(DisplayStyle::Red)
    );
    assert_eq!(
        console_action("WARN careful", true, false).0,
        ConsoleAction::Show(DisplayStyle::Yellow)
    );
    assert_eq!(
        console_action("Player connected: Steve", true, false).0,
        ConsoleAction::Show(DisplayStyle::Blue)
    );
    assert_eq!(
        console_action("[Chat] Steve: hi", true, false).0,
        ConsoleAction::Show(DisplayStyle::Blue)
    );
    assert_eq!(
        console_action("INFO Running AutoCompaction...", true, false).0,
        ConsoleAction::Show(DisplayStyle::Blue)
    );
    assert_eq!(console_action("INFO mundane detail", true, false).0, ConsoleAction::Suppress);
    assert_eq!(console_action("plain line", true, false).0, ConsoleAction::Suppress);
}
