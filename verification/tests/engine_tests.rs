use gsn_engine::{
    GsnAction, GsnEngine, GsnEvent, GsnKey, MousePos, NativeAction, NativeEvent,
    NativeMouseButton, black, red,
};

#[test]
fn new_engine_queues_exactly_one_init() {
    let engine = GsnEngine::new(8, 6);
    assert_eq!(engine.actions, vec![GsnEvent::Init]);
    assert!(!engine.should_close);
    assert_eq!(engine.width(), 8);
    assert_eq!(engine.height(), 6);
}

#[test]
fn new_engine_buffer_is_black() {
    let engine = GsnEngine::new(4, 4);
    for x in 0..4 {
        for y in 0..4 {
            assert_eq!(engine.buffer.get_pixel(x, y), black());
        }
    }
}

#[test]
fn update_without_events_appends_one_draw() {
    let mut engine = GsnEngine::new(4, 4);
    engine.update(&Vec::new());
    assert_eq!(engine.actions, vec![GsnEvent::Init, GsnEvent::Draw]);
    engine.update(&Vec::new());
    assert_eq!(
        engine.actions,
        vec![GsnEvent::Init, GsnEvent::Draw, GsnEvent::Draw]
    );
}

#[test]
fn update_appends_translated_events_in_order_then_draw() {
    let mut engine = GsnEngine::new(4, 4);
    let events = vec![
        NativeEvent::Key(256, NativeAction::Press),
        NativeEvent::MouseButton(
            NativeMouseButton::Button2,
            NativeAction::Release,
            MousePos { x: 5, y: 6 },
        ),
        NativeEvent::Key(65, NativeAction::Repeat),
    ];
    engine.update(&events);
    assert_eq!(
        engine.actions,
        vec![
            GsnEvent::Init,
            GsnEvent::KeyPress(GsnKey::Escape, GsnAction::Press),
            GsnEvent::MousePress(2, GsnAction::Release, MousePos { x: 5, y: 6 }),
            GsnEvent::KeyPress(GsnKey::A, GsnAction::Repeat),
            GsnEvent::Draw,
        ]
    );
}

#[test]
fn update_leaves_buffer_and_close_flag_alone() {
    let mut engine = GsnEngine::new(4, 4);
    engine.buffer.set_pixel(2, 2, red());
    engine.update(&vec![NativeEvent::Key(32, NativeAction::Press)]);
    assert_eq!(engine.buffer.get_pixel(2, 2), red());
    assert!(!engine.should_close);
}

#[test]
fn undrained_actions_persist_across_ticks() {
    let mut engine = GsnEngine::new(4, 4);
    engine.update(&vec![NativeEvent::Key(87, NativeAction::Press)]);
    engine.update(&Vec::new());
    assert_eq!(
        engine.actions,
        vec![
            GsnEvent::Init,
            GsnEvent::KeyPress(GsnKey::W, GsnAction::Press),
            GsnEvent::Draw,
            GsnEvent::Draw,
        ]
    );
}

#[test]
fn draining_from_the_back_sees_most_recent_first() {
    let mut engine = GsnEngine::new(4, 4);
    engine.update(&vec![NativeEvent::Key(256, NativeAction::Press)]);
    assert_eq!(engine.actions.pop(), Some(GsnEvent::Draw));
    assert_eq!(
        engine.actions.pop(),
        Some(GsnEvent::KeyPress(GsnKey::Escape, GsnAction::Press))
    );
    assert_eq!(engine.actions.pop(), Some(GsnEvent::Init));
    assert_eq!(engine.actions.pop(), None);
}

#[test]
fn exit_raises_close_flag_only() {
    let mut engine = GsnEngine::new(4, 4);
    engine.exit();
    assert!(engine.should_close);
    assert_eq!(engine.actions, vec![GsnEvent::Init]);
}
