use story::input_story::InputEvent;

#[test]
fn a_change_is_logged_with_its_text() {
    assert_eq!(InputEvent::Change("hello".to_string()).log_line(), "Change: hello");
    assert_eq!(InputEvent::Change(String::new()).log_line(), "Change: ");
    assert_eq!(InputEvent::Change("Hello 世界".to_string()).log_line(), "Change: Hello 世界");
}

#[test]
fn the_other_events_are_logged_by_name() {
    assert_eq!(InputEvent::PressEnter.log_line(), "PressEnter");
    assert_eq!(InputEvent::Focus.log_line(), "Focus");
    assert_eq!(InputEvent::Blur.log_line(), "Blur");
}
