use edge_resize::{App, Msg};

#[test]
fn init_keeps_the_counter() {
    assert_eq!(App::init(0).counter, 0);
    assert_eq!(App::init(17).counter, 17);
}

#[test]
fn increment_wraps_from_255_to_0() {
    let mut app = App::init(255);
    app.update(Msg::Increment);
    assert_eq!(app.counter, 0);
}

#[test]
fn decrement_wraps_from_0_to_255() {
    let mut app = App::init(0);
    app.update(Msg::Decrement);
    assert_eq!(app.counter, 255);
}

#[test]
fn steps_in_the_middle() {
    let mut app = App::init(41);
    app.update(Msg::Increment);
    assert_eq!(app.counter, 42);
    app.update(Msg::Decrement);
    app.update(Msg::Decrement);
    assert_eq!(app.counter, 40);
}

#[test]
fn every_step_is_modulo_256() {
    for start in 0u8..=255 {
        let mut up = App::init(start);
        up.update(Msg::Increment);
        assert_eq!(u16::from(up.counter), (u16::from(start) + 1) % 256);
        let mut down = App::init(start);
        down.update(Msg::Decrement);
        assert_eq!(u16::from(down.counter), (u16::from(start) + 255) % 256);
    }
}

#[test]
fn up_then_down_returns() {
    for start in 0u8..=255 {
        let mut app = App::init(start);
        app.update(Msg::Increment);
        app.update(Msg::Decrement);
        assert_eq!(app.counter, start);
    }
}

#[test]
fn label_values() {
    assert_eq!(App::init(0).label(), "Counter: 0");
    assert_eq!(App::init(9).label(), "Counter: 9");
    assert_eq!(App::init(10).label(), "Counter: 10");
    assert_eq!(App::init(99).label(), "Counter: 99");
    assert_eq!(App::init(100).label(), "Counter: 100");
    assert_eq!(App::init(109).label(), "Counter: 109");
    assert_eq!(App::init(255).label(), "Counter: 255");
}

#[test]
fn label_is_the_decimal_counter() {
    for counter in 0u8..=255 {
        assert_eq!(App::init(counter).label(), format!("Counter: {}", counter));
    }
}
