use xr_input::click::{
    BoolRead, ClickReads, ClickSensitivity, CustomClickAction, FloatRead, HandlerReads,
    MultiClickHandler, ReadError, DOUBLE_CLICK_NANOS, RESET_NANOS, TRIPLE_CLICK_NANOS,
};
use xr_input::float_bits::FloatBits;
use xr_input::moment::Moment;

const MILLI: i64 = 1_000_000;

fn bits(value: f32) -> FloatBits {
    FloatBits::new(value.to_bits())
}

fn at(millis: i64) -> Moment {
    Moment::new(millis * MILLI)
}

fn button(pressed: bool) -> HandlerReads {
    HandlerReads {
        action_bool: Ok(BoolRead { is_active: true, current_state: pressed }),
        action_f32: Ok(FloatRead { is_active: false, current_state: bits(0.0) }),
    }
}

fn trigger(value: f32) -> HandlerReads {
    HandlerReads {
        action_bool: Ok(BoolRead { is_active: false, current_state: false }),
        action_f32: Ok(FloatRead { is_active: true, current_state: bits(value) }),
    }
}

fn bool_fails(code: i32) -> HandlerReads {
    HandlerReads {
        action_bool: Err(ReadError { code }),
        action_f32: Ok(FloatRead { is_active: true, current_state: bits(1.0) }),
    }
}

fn float_fails(pressed: bool, code: i32) -> HandlerReads {
    HandlerReads {
        action_bool: Ok(BoolRead { is_active: true, current_state: pressed }),
        action_f32: Err(ReadError { code }),
    }
}

fn clicks(single: HandlerReads, double: HandlerReads, triple: HandlerReads) -> ClickReads {
    ClickReads { single, double, triple }
}

fn sensitivity() -> ClickSensitivity {
    ClickSensitivity { press: bits(0.7 - 0.001), release: bits(0.5 - 0.001) }
}

#[test]
fn limits_have_their_lengths() {
    assert_eq!(DOUBLE_CLICK_NANOS, 500_000_000);
    assert_eq!(TRIPLE_CLICK_NANOS, 750_000_000);
    assert_eq!(RESET_NANOS, 10_000_000_000);
}

#[test]
fn boolean_action_has_to_be_active() {
    let reads = HandlerReads {
        action_bool: Ok(BoolRead { is_active: false, current_state: true }),
        action_f32: Ok(FloatRead { is_active: false, current_state: bits(1.0) }),
    };
    assert_eq!(reads.is_pressed(bits(0.5)), Ok(false));
    assert_eq!(button(true).is_pressed(bits(0.5)), Ok(true));
    assert_eq!(button(false).is_pressed(bits(0.5)), Ok(false));
}

#[test]
fn numeric_action_is_pressed_from_the_floor_on() {
    assert_eq!(trigger(0.5).is_pressed(bits(0.5)), Ok(true));
    assert_eq!(trigger(0.51).is_pressed(bits(0.5)), Ok(true));
    assert_eq!(trigger(0.49).is_pressed(bits(0.5)), Ok(false));
    assert_eq!(trigger(f32::NAN).is_pressed(bits(0.5)), Ok(false));
}

#[test]
fn failed_reads_are_reported_where_they_matter() {
    assert_eq!(bool_fails(-3).is_pressed(bits(0.5)), Err(ReadError { code: -3 }));
    assert_eq!(float_fails(false, -4).is_pressed(bits(0.5)), Err(ReadError { code: -4 }));
    assert_eq!(float_fails(true, -4).is_pressed(bits(0.5)), Ok(true));
}

#[test]
fn handlers_are_named_by_side_count_and_action() {
    let single: MultiClickHandler<0> = MultiClickHandler::new("click", "left", at(0));
    let double: MultiClickHandler<1> = MultiClickHandler::new("click", "left", at(0));
    let triple: MultiClickHandler<2> = MultiClickHandler::new("click", "left", at(0));
    assert_eq!(single.name(), "left_0-click");
    assert_eq!(double.name(), "left_1-click");
    assert_eq!(triple.name(), "left_2-click");
    assert_eq!(triple.numeric_name(), "left_2-click_value");
}

#[test]
fn single_click_is_on_while_the_button_is_pressed() {
    let mut handler: MultiClickHandler<0> = MultiClickHandler::new("click", "left", at(0));
    assert!(!handler.note(false, at(0)));
    assert!(handler.note(true, at(10)));
    assert!(handler.note(true, at(5000)));
    assert!(!handler.note(false, at(5010)));
    assert!(handler.note(true, at(5020)));
}

#[test]
fn second_press_in_time_makes_a_double_click() {
    let mut handler: MultiClickHandler<1> = MultiClickHandler::new("click", "left", at(0));
    assert!(!handler.note(true, at(5000)));
    assert!(!handler.note(true, at(5100)));
    assert!(!handler.note(false, at(5200)));
    assert!(handler.note(true, at(5499)));
    assert!(handler.note(true, at(9000)));
    assert!(!handler.note(false, at(9001)));
}

#[test]
fn second_press_that_comes_late_starts_anew() {
    let mut handler: MultiClickHandler<1> = MultiClickHandler::new("click", "left", at(0));
    assert!(!handler.note(true, at(5000)));
    assert!(!handler.note(false, at(5100)));
    assert!(!handler.note(true, at(5500)));
    assert!(!handler.note(false, at(5600)));
    assert!(handler.note(true, at(5999)));
}

#[test]
fn creation_counts_as_a_press() {
    let mut handler: MultiClickHandler<1> = MultiClickHandler::new("click", "left", at(0));
    assert!(handler.note(true, at(499)));
    let mut late: MultiClickHandler<1> = MultiClickHandler::new("click", "left", at(0));
    assert!(!late.note(true, at(500)));
}

#[test]
fn recognised_double_click_uses_up_its_presses() {
    let mut handler: MultiClickHandler<1> = MultiClickHandler::new("click", "left", at(0));
    assert!(!handler.note(true, at(5000)));
    assert!(!handler.note(false, at(5010)));
    assert!(handler.note(true, at(5100)));
    assert!(!handler.note(false, at(5110)));
    assert!(!handler.note(true, at(5120)));
    assert!(!handler.note(false, at(5130)));
    assert!(handler.note(true, at(5140)));
}

#[test]
fn third_press_in_time_makes_a_triple_click() {
    let mut handler: MultiClickHandler<2> = MultiClickHandler::new("click", "left", at(0));
    assert!(!handler.note(true, at(5000)));
    assert!(!handler.note(false, at(5050)));
    assert!(!handler.note(true, at(5300)));
    assert!(!handler.note(false, at(5350)));
    assert!(handler.note(true, at(5749)));
    assert!(handler.note(true, at(5800)));
}

#[test]
fn triple_click_needs_both_presses_in_time() {
    let mut handler: MultiClickHandler<2> = MultiClickHandler::new("click", "left", at(0));
    assert!(!handler.note(true, at(5000)));
    assert!(!handler.note(false, at(5050)));
    assert!(!handler.note(true, at(5300)));
    assert!(!handler.note(false, at(5350)));
    assert!(!handler.note(true, at(5750)));
    assert!(!handler.note(false, at(5760)));
    assert!(handler.note(true, at(6049)));
}

#[test]
fn recognised_triple_click_needs_three_more_presses() {
    let mut handler: MultiClickHandler<2> = MultiClickHandler::new("click", "left", at(0));
    let mut answers: Vec<bool> = Vec::new();
    for i in 0..6 {
        answers.push(handler.note(true, at(5000 + i * 20)));
        assert!(!handler.note(false, at(5010 + i * 20)));
    }
    assert_eq!(answers, vec![false, false, true, false, false, true]);
}

#[test]
fn failed_read_changes_nothing() {
    let mut handler: MultiClickHandler<1> = MultiClickHandler::new("click", "left", at(0));
    assert_eq!(handler.check(&button(true), bits(0.5), at(5000)), Ok(false));
    assert_eq!(handler.check(&button(false), bits(0.5), at(5010)), Ok(false));
    assert_eq!(
        handler.check(&bool_fails(-1), bits(0.5), at(5020)),
        Err(ReadError { code: -1 })
    );
    assert_eq!(
        handler.check(&float_fails(false, -2), bits(0.5), at(5030)),
        Err(ReadError { code: -2 })
    );
    assert_eq!(handler.check(&button(true), bits(0.5), at(5040)), Ok(true));
}

#[test]
fn click_action_has_three_handlers() {
    let action = CustomClickAction::new("grab", "right", at(0));
    assert_eq!(action.single().name(), "right_0-grab");
    assert_eq!(action.double().name(), "right_1-grab");
    assert_eq!(action.triple().name(), "right_2-grab");
    assert_eq!(action.double().numeric_name(), "right_1-grab_value");
}

#[test]
fn pressed_single_click_turns_the_input_on() {
    let mut action = CustomClickAction::new("click", "left", at(0));
    let reads = clicks(button(true), bool_fails(-7), bool_fails(-8));
    assert_eq!(action.state(false, &reads, sensitivity(), at(5000)), Ok(true));
    let released = clicks(button(false), button(false), button(false));
    assert_eq!(action.state(true, &released, sensitivity(), at(5010)), Ok(false));
}

#[test]
fn input_is_held_down_to_the_release_limit() {
    let mut action = CustomClickAction::new("click", "left", at(0));
    let half = clicks(trigger(0.6), button(false), button(false));
    assert_eq!(action.state(false, &half, sensitivity(), at(5000)), Ok(false));
    assert_eq!(action.state(true, &half, sensitivity(), at(5010)), Ok(true));
    let low = clicks(trigger(0.45), button(false), button(false));
    assert_eq!(action.state(true, &low, sensitivity(), at(5020)), Ok(false));
}

#[test]
fn each_handler_can_turn_the_input_on() {
    let mut action = CustomClickAction::new("click", "left", at(0));
    let double = clicks(button(false), button(true), button(false));
    let triple = clicks(button(false), button(false), button(true));
    let released = clicks(button(false), button(false), button(false));
    assert_eq!(action.state(false, &double, sensitivity(), at(5000)), Ok(false));
    assert_eq!(action.state(false, &released, sensitivity(), at(5010)), Ok(false));
    assert_eq!(action.state(false, &double, sensitivity(), at(5020)), Ok(true));
    assert_eq!(action.state(true, &released, sensitivity(), at(5030)), Ok(false));
    assert_eq!(action.state(false, &triple, sensitivity(), at(5040)), Ok(false));
    assert_eq!(action.state(false, &released, sensitivity(), at(5050)), Ok(false));
    assert_eq!(action.state(false, &triple, sensitivity(), at(5060)), Ok(false));
    assert_eq!(action.state(false, &released, sensitivity(), at(5070)), Ok(false));
    assert_eq!(action.state(false, &triple, sensitivity(), at(5080)), Ok(true));
}

#[test]
fn handler_that_is_not_asked_stays_as_it_was() {
    let mut action = CustomClickAction::new("click", "left", at(0));
    let both = clicks(button(true), button(true), button(false));
    let double = clicks(button(false), button(true), button(false));
    let released = clicks(button(false), button(false), button(false));
    assert_eq!(action.state(false, &both, sensitivity(), at(5000)), Ok(true));
    assert_eq!(action.state(true, &released, sensitivity(), at(5010)), Ok(false));
    assert_eq!(action.state(false, &double, sensitivity(), at(5020)), Ok(false));
}

#[test]
fn errors_come_in_the_order_of_the_handlers() {
    let mut action = CustomClickAction::new("click", "left", at(0));
    let all = clicks(bool_fails(-1), bool_fails(-2), bool_fails(-3));
    assert_eq!(
        action.state(false, &all, sensitivity(), at(5000)),
        Err(ReadError { code: -1 })
    );
    let two = clicks(button(false), bool_fails(-2), bool_fails(-3));
    assert_eq!(
        action.state(false, &two, sensitivity(), at(5000)),
        Err(ReadError { code: -2 })
    );
    let last = clicks(button(false), button(false), float_fails(false, -3));
    assert_eq!(
        action.state(false, &last, sensitivity(), at(5000)),
        Err(ReadError { code: -3 })
    );
}

#[test]
fn lower_limit_keeps_what_is_pressed() {
    for value in [0.5f32, 0.6, 0.7, 0.9, 1.0] {
        if trigger(value).is_pressed(bits(0.7)) == Ok(true) {
            assert_eq!(trigger(value).is_pressed(bits(0.5)), Ok(true));
        }
    }
    assert_eq!(trigger(0.6).is_pressed(bits(0.7)), Ok(false));
    assert_eq!(trigger(0.6).is_pressed(bits(0.5)), Ok(true));
}

#[test]
fn input_is_off_where_nothing_is_pressed() {
    let mut action = CustomClickAction::new("click", "left", at(0));
    let released = clicks(button(false), trigger(0.1), trigger(0.2));
    for i in 0..5 {
        assert_eq!(action.state(i % 2 == 0, &released, sensitivity(), at(i * 100)), Ok(false));
    }
}

#[test]
fn multi_clicks_take_that_many_presses() {
    // Frames 40 ms apart; the pattern says whether the button is down.
    let pattern = [
        true, false, true, true, false, true, false, false, false, false, false, false, false,
        false, false, false, false, false, false, false, false, false, false, false, true, true,
        false, true, false, true, false, true,
    ];
    let mut double: MultiClickHandler<1> = MultiClickHandler::new("click", "left", at(-5000));
    let mut triple: MultiClickHandler<2> = MultiClickHandler::new("click", "left", at(-5000));
    let mut presses: Vec<i64> = Vec::new();
    let mut held = false;
    for (i, pressed) in pattern.iter().enumerate() {
        let millis: i64 = i as i64 * 40;
        let doubled = double.note(*pressed, at(millis));
        let tripled = triple.note(*pressed, at(millis));
        if *pressed && !held {
            let recent = |window: i64| presses.iter().filter(|p| millis - **p < window).count();
            assert!(!doubled || recent(500) >= 1);
            assert!(!tripled || recent(750) >= 2);
            presses.push(millis);
        }
        held = *pressed;
    }
    assert_eq!(presses.len(), 7);
}

#[test]
fn held_button_keeps_the_answer_of_its_press() {
    let mut handler: MultiClickHandler<2> = MultiClickHandler::new("click", "left", at(0));
    assert!(handler.note(true, at(100)));
    for i in 1..10 {
        assert!(handler.note(true, at(100 + i * 700)));
    }
    assert!(!handler.note(false, at(8000)));
    assert!(!handler.note(true, at(8010)));
    for i in 1..10 {
        assert!(!handler.note(true, at(8010 + i)));
    }
}
