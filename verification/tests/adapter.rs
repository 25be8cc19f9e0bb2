use msgbox::message_box::MessageBox;
use msgbox::style::BUTTON;
use msgbox::style::ICON;

#[test]
fn defaults() {
    let m = MessageBox::new();
    assert_eq!(m.hwnd, 0);
    assert_eq!(m.title, "No Title");
    assert_eq!(m.message, "No Description");
    assert_eq!(m.icon, ICON::NoIcon);
    assert_eq!(m.button, BUTTON::OkOnly);
}

#[test]
fn config_overwrites_each_field() {
    let m = MessageBox::new()
        .hwnd(42)
        .title("Title")
        .message("Body")
        .icon(ICON::Warning)
        .button(BUTTON::YesNoCancel);
    assert_eq!(m.hwnd, 42);
    assert_eq!(m.title, "Title");
    assert_eq!(m.message, "Body");
    assert_eq!(m.icon, ICON::Warning);
    assert_eq!(m.button, BUTTON::YesNoCancel);
}

#[test]
fn config_order_does_not_matter() {
    let a = MessageBox::new().title("t").icon(ICON::Error).hwnd(7);
    let b = MessageBox::new().hwnd(7).icon(ICON::Error).title("t");
    assert_eq!(a.hwnd, b.hwnd);
    assert_eq!(a.title, b.title);
    assert_eq!(a.message, b.message);
    assert_eq!(a.icon, b.icon);
    assert_eq!(a.button, b.button);
}

#[test]
fn config_last_value_wins() {
    let m = MessageBox::new().title("first").message("one").title("second").message("two");
    assert_eq!(m.title, "second");
    assert_eq!(m.message, "two");
    assert_eq!(m.icon, ICON::NoIcon);
}

#[test]
fn empty_texts_accepted() {
    let m = MessageBox::new().title("").message("");
    assert_eq!(m.title, "");
    assert_eq!(m.message, "");
}

#[test]
fn yes_no_dialog_yes_is_affirmative() {
    let m = MessageBox::new().button(BUTTON::YesNo);
    assert_eq!(m.outcome(6), true);
}

#[test]
fn yes_no_dialog_no_is_not_affirmative() {
    let m = MessageBox::new().button(BUTTON::YesNo);
    assert_eq!(m.outcome(7), false);
}

#[test]
fn retry_cancel_dialog_outcomes() {
    let m = MessageBox::new().button(BUTTON::RetryCancel);
    assert_eq!(m.outcome(4), true);
    assert_eq!(m.outcome(2), false);
}

#[test]
fn unrecognized_return_code_is_not_affirmative() {
    let m = MessageBox::new();
    assert_eq!(m.outcome(999), false);
}
