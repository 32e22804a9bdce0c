use resonance_gui::console::{console_log_text, Print, ScrollAreaMessage, SerialDirection, UiColor};
use resonance_gui::settings::GuiSettingsContainer;

fn conf(dark_mode: bool) -> GuiSettingsContainer {
    let mut c = GuiSettingsContainer::default();
    c.dark_mode = dark_mode;
    c
}

fn msg(label: &str, content: &str, color: UiColor) -> Option<ScrollAreaMessage> {
    Some(ScrollAreaMessage { label: label.to_string(), content: content.to_string(), color })
}

#[test]
fn empty_print_shows_nothing() {
    assert_eq!(Print::Empty.scroll_area_message(&conf(true)), None);
    assert_eq!(Print::Empty.scroll_area_message(&conf(false)), None);
}

#[test]
fn message_colour_follows_the_theme() {
    let p = Print::Message("hello".to_string());
    assert_eq!(p.scroll_area_message(&conf(true)), msg("[MSG] ", "hello", UiColor::White));
    assert_eq!(p.scroll_area_message(&conf(false)), msg("[MSG] ", "hello", UiColor::Black));
}

#[test]
fn error_is_red_in_both_themes() {
    let p = Print::Error("port lost".to_string());
    assert_eq!(p.scroll_area_message(&conf(true)), msg("[ERR] ", "port lost", UiColor::Red));
    assert_eq!(p.scroll_area_message(&conf(false)), msg("[ERR] ", "port lost", UiColor::Red));
}

#[test]
fn debug_colour_follows_the_theme() {
    let p = Print::Debug("x=1".to_string());
    assert_eq!(p.scroll_area_message(&conf(true)), msg("[DBG] ", "x=1", UiColor::Yellow));
    assert_eq!(p.scroll_area_message(&conf(false)), msg("[DBG] ", "x=1", UiColor::LightRed));
}

#[test]
fn success_is_green() {
    let p = Print::Success("saved".to_string());
    assert_eq!(p.scroll_area_message(&conf(false)), msg("[OK] ", "saved", UiColor::Green));
}

#[test]
fn console_lines_are_joined_by_line_breaks() {
    let console = vec![
        Print::Message("waiting".to_string()),
        Print::Empty,
        Print::Error("no port".to_string()),
        Print::Success("connected".to_string()),
    ];
    assert_eq!(
        console_log_text(&console, &conf(true)),
        "[MSG] waiting\n[ERR] no port\n[OK] connected"
    );
}

#[test]
fn console_of_empty_entries_is_empty() {
    assert_eq!(console_log_text(&vec![], &conf(true)), "");
    assert_eq!(console_log_text(&vec![Print::Empty, Print::Empty], &conf(true)), "");
    assert_eq!(
        console_log_text(&vec![Print::Empty, Print::Debug("d".to_string())], &conf(false)),
        "[DBG] d"
    );
}

#[test]
fn direction_names() {
    assert_eq!(SerialDirection::Send.name(), "SEND");
    assert_eq!(SerialDirection::Receive.name(), "RECV");
}
