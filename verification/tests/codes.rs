use msgbox::code::CODE;
use msgbox::message_box::MessageBox;

#[test]
fn decode_recognized_codes() {
    assert_eq!(CODE::from(1), CODE::OK);
    assert_eq!(CODE::from(2), CODE::CANCEL);
    assert_eq!(CODE::from(3), CODE::ABORT);
    assert_eq!(CODE::from(4), CODE::RETRY);
    assert_eq!(CODE::from(5), CODE::IGNORE);
    assert_eq!(CODE::from(6), CODE::YES);
    assert_eq!(CODE::from(7), CODE::NO);
    assert_eq!(CODE::from(10), CODE::TRYAGAIN);
    assert_eq!(CODE::from(11), CODE::CONTINUE);
}

#[test]
fn decode_unrecognized_codes_to_none() {
    assert_eq!(CODE::from(0), CODE::NONE);
    assert_eq!(CODE::from(8), CODE::NONE);
    assert_eq!(CODE::from(9), CODE::NONE);
    assert_eq!(CODE::from(12), CODE::NONE);
    assert_eq!(CODE::from(-1), CODE::NONE);
    assert_eq!(CODE::from(999), CODE::NONE);
    assert_eq!(CODE::from(i32::MIN), CODE::NONE);
    assert_eq!(CODE::from(i32::MAX), CODE::NONE);
}

#[test]
fn affirmative_table() {
    let m = MessageBox::new();
    assert_eq!(m.press_ok(CODE::OK), true);
    assert_eq!(m.press_ok(CODE::CONTINUE), true);
    assert_eq!(m.press_ok(CODE::RETRY), true);
    assert_eq!(m.press_ok(CODE::TRYAGAIN), true);
    assert_eq!(m.press_ok(CODE::YES), true);
    assert_eq!(m.press_ok(CODE::NONE), false);
    assert_eq!(m.press_ok(CODE::CANCEL), false);
    assert_eq!(m.press_ok(CODE::ABORT), false);
    assert_eq!(m.press_ok(CODE::IGNORE), false);
    assert_eq!(m.press_ok(CODE::NO), false);
}

#[test]
fn outcome_over_all_small_integers() {
    let m = MessageBox::new();
    for id in -100..100 {
        let expected = matches!(id, 1 | 4 | 6 | 10 | 11);
        assert_eq!(m.outcome(id), expected);
    }
}
