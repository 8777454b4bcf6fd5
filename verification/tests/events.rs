use tinybit::events::{Event, EventModel, Input, KeyCode, KeyEvent, KeyModifiers};

#[test]
fn tick_millis_of_a_frame_rate() {
    assert_eq!(EventModel::Fps(20).tick_millis(), Some(50));
    assert_eq!(EventModel::Fps(1).tick_millis(), Some(1000));
    assert_eq!(EventModel::Fps(3).tick_millis(), Some(333));
    assert_eq!(EventModel::Fps(1000).tick_millis(), Some(1));
    assert_eq!(EventModel::Fps(1001).tick_millis(), Some(0));
    assert_eq!(EventModel::Fps(u64::MAX).tick_millis(), Some(0));
}

#[test]
fn blocking_model_does_not_tick() {
    assert_eq!(EventModel::Blocking.tick_millis(), None);
}

#[test]
fn key_event_holds_its_code_and_modifiers() {
    let modifiers = KeyModifiers { shift: false, control: true, alt: false };
    let event = KeyEvent::new(KeyCode::Char('q'), modifiers);
    assert_eq!(event.code, KeyCode::Char('q'));
    assert!(event.modifiers.control);
    assert_eq!(KeyModifiers::none(), KeyModifiers { shift: false, control: false, alt: false });
    assert_ne!(Event::Key(event), Event::Tick);
    assert_eq!(Event::Resize(80, 24), Event::Resize(80, 24));
    assert_ne!(KeyCode::F(1), KeyCode::F(2));
}

#[test]
fn keys_and_resizes_are_passed_on_and_the_mouse_is_not() {
    let key = KeyEvent::new(KeyCode::Esc, KeyModifiers::none());
    assert_eq!(Event::from_input(Input::Key(key)), Some(Event::Key(key)));
    assert_eq!(Event::from_input(Input::Resize(120, 40)), Some(Event::Resize(120, 40)));
    assert_eq!(Event::from_input(Input::Mouse), None);
}
