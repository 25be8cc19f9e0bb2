use msgbox::message_box::MessageBox;
use msgbox::style::button_constant;
use msgbox::style::icon_constant;
use msgbox::style::BUTTON;
use msgbox::style::ICON;

const ICONS: [ICON; 5] = [
    ICON::NoIcon,
    ICON::Error,
    ICON::Question,
    ICON::Warning,
    ICON::Information,
];

const BUTTONS: [BUTTON; 7] = [
    BUTTON::OkOnly,
    BUTTON::OkCancel,
    BUTTON::Abortretryignore,
    BUTTON::YesNoCancel,
    BUTTON::YesNo,
    BUTTON::RetryCancel,
    BUTTON::Canceltrycontinue,
];

#[test]
fn icon_constants() {
    assert_eq!(icon_constant(ICON::NoIcon), 0x00);
    assert_eq!(icon_constant(ICON::Error), 0x10);
    assert_eq!(icon_constant(ICON::Question), 0x20);
    assert_eq!(icon_constant(ICON::Warning), 0x30);
    assert_eq!(icon_constant(ICON::Information), 0x40);
}

#[test]
fn button_constants() {
    assert_eq!(button_constant(BUTTON::OkOnly), 0x0);
    assert_eq!(button_constant(BUTTON::OkCancel), 0x1);
    assert_eq!(button_constant(BUTTON::Abortretryignore), 0x2);
    assert_eq!(button_constant(BUTTON::YesNoCancel), 0x3);
    assert_eq!(button_constant(BUTTON::YesNo), 0x4);
    assert_eq!(button_constant(BUTTON::RetryCancel), 0x5);
    assert_eq!(button_constant(BUTTON::Canceltrycontinue), 0x6);
}

#[test]
fn style_value_packs_both_constants() {
    let m = MessageBox::new().icon(ICON::Question).button(BUTTON::RetryCancel);
    assert_eq!(m.style_value(), 0x25);
    let d = MessageBox::new();
    assert_eq!(d.style_value(), 0x00);
}

#[test]
fn all_style_values_are_distinct() {
    let mut seen: Vec<u32> = Vec::new();
    for icon in ICONS {
        for button in BUTTONS {
            let style = MessageBox::new().icon(icon).button(button).style_value();
            assert!(!seen.contains(&style), "style value {style} appears twice");
            seen.push(style);
        }
    }
    assert_eq!(seen.len(), 35);
}
