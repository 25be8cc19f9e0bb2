//! The dialog adapter: a builder that accumulates an owner handle, title,
//! message, icon kind and button-set kind, and the verified halves of a
//! dialog round trip — packing the style value and encoding the texts
//! before the native call, decoding its return code after it.
//!
//! The native call itself blocks on the platform's modal dialog and lives
//! outside this library; it hands the raw integer it got back to
//! [`MessageBox::outcome`].
use crate::code::CODE;
use crate::code::affirmative;
use crate::code::code_of;
use crate::style::BUTTON;
use crate::style::ICON;
use crate::style::button_constant;
use crate::style::icon_constant;
use crate::style::style_of;
use crate::wide::encode_wide;
use crate::wide::wide_units;
use vstd::prelude::*;

verus! {

/// The configuration a [`MessageBox`] holds, as a mathematical value.
pub struct MessageBoxView {
    pub hwnd: isize,
    pub title: Seq<char>,
    pub message: Seq<char>,
    pub icon: ICON,
    pub button: BUTTON,
}

/// The dialog adapter. Configure it by chained calls, then hand the values
/// it computes to the platform and its return code back to [`Self::outcome`].
#[derive(Clone)]
pub struct MessageBox {
    pub hwnd: isize,
    pub title: String,
    pub message: String,
    pub icon: ICON,
    pub button: BUTTON,
}

impl View for MessageBox {
    type V = MessageBoxView;

    open spec fn view(&self) -> MessageBoxView {
        MessageBoxView {
            hwnd: self.hwnd,
            title: self.title@,
            message: self.message@,
            icon: self.icon,
            button: self.button,
        }
    }
}

impl MessageBox {
    /// A fresh adapter with the defaults: no owner window, "No Title",
    /// "No Description", no icon, a single Ok button.
    pub fn new() -> (r: Self)
        ensures
            r@ == (MessageBoxView {
                hwnd: 0,
                title: "No Title"@,
                message: "No Description"@,
                icon: ICON::NoIcon,
                button: BUTTON::OkOnly,
            }),
    {
        Self {
            hwnd: 0,
            title: "No Title".to_owned(),
            message: "No Description".to_owned(),
            icon: ICON::NoIcon,
            button: BUTTON::OkOnly,
        }
    }

    /// Replaces the owner window handle; every other field keeps its value.
    pub fn hwnd(self, hwnd: isize) -> (r: Self)
        ensures
            r@ == (MessageBoxView { hwnd: hwnd, ..self@ }),
    {
        Self { hwnd, ..self }
    }

    /// Replaces the title; every other field keeps its value.
    pub fn title(self, title: &str) -> (r: Self)
        ensures
            r@ == (MessageBoxView { title: title@, ..self@ }),
    {
        Self { title: title.to_owned(), ..self }
    }

    /// Replaces the message; every other field keeps its value.
    pub fn message(self, message: &str) -> (r: Self)
        ensures
            r@ == (MessageBoxView { message: message@, ..self@ }),
    {
        Self { message: message.to_owned(), ..self }
    }

    /// Replaces the icon kind; every other field keeps its value.
    pub fn icon(self, icon: ICON) -> (r: Self)
        ensures
            r@ == (MessageBoxView { icon: icon, ..self@ }),
    {
        Self { icon, ..self }
    }

    /// Replaces the button-set kind; every other field keeps its value.
    pub fn button(self, button: BUTTON) -> (r: Self)
        ensures
            r@ == (MessageBoxView { button: button, ..self@ }),
    {
        Self { button, ..self }
    }

    /// The packed style value the platform call expects: the sum of the
    /// icon constant and the button-set constant.
    pub fn style_value(&self) -> (r: u32)
        ensures
            r == style_of(self@.icon, self@.button),
    {
        icon_constant(self.icon) + button_constant(self.button)
    }

    /// The null-terminated wide-character form of a text: its UTF-16 code
    /// units with exactly one zero unit appended.
    pub fn to_lpcstr(&self, lp_text: &str) -> (r: Vec<u16>)
        ensures
            r@ == wide_units(lp_text@).push(0u16),
    {
        let mut text = encode_wide(lp_text);
        text.push(0);
        text
    }

    /// Whether a dialog return code counts as affirmative: a button that
    /// keeps the workflow moving (Ok, Yes, Retry, Try Again, Continue).
    pub fn press_ok(&self, code: CODE) -> (r: bool)
        ensures
            r == affirmative(code),
    {
        match code {
            CODE::OK | CODE::CONTINUE | CODE::RETRY | CODE::TRYAGAIN | CODE::YES => true,
            _ => false,
        }
    }

    /// The boolean outcome of a dialog round trip, given the raw integer
    /// the platform call returned: decode it by the fixed table, then
    /// classify the code. Unrecognized integers — including what an
    /// outright platform failure returns — yield `false`.
    pub fn outcome(&self, id: i32) -> (r: bool)
        ensures
            r == affirmative(code_of(id)),
    {
        self.press_ok(CODE::from(id))
    }
}

/// One configuration call, as a value, for stating how call order affects
/// the final configuration.
pub enum ConfigCall {
    SetHwnd(isize),
    SetTitle(Seq<char>),
    SetMessage(Seq<char>),
    SetIcon(ICON),
    SetButton(BUTTON),
}

/// The configuration a single call leaves behind.
pub open spec fn apply(v: MessageBoxView, c: ConfigCall) -> MessageBoxView {
    match c {
        ConfigCall::SetHwnd(h) => MessageBoxView { hwnd: h, ..v },
        ConfigCall::SetTitle(t) => MessageBoxView { title: t, ..v },
        ConfigCall::SetMessage(m) => MessageBoxView { message: m, ..v },
        ConfigCall::SetIcon(i) => MessageBoxView { icon: i, ..v },
        ConfigCall::SetButton(b) => MessageBoxView { button: b, ..v },
    }
}

/// The configuration a sequence of calls leaves behind, applied in order.
pub open spec fn apply_all(v: MessageBoxView, cs: Seq<ConfigCall>) -> MessageBoxView
    decreases cs.len(),
{
    if cs.len() == 0 {
        v
    } else {
        apply_all(apply(v, cs[0]), cs.subrange(1, cs.len() as int))
    }
}

/// The last owner handle set by the calls, or the prior one if none sets it.
pub open spec fn last_hwnd(cs: Seq<ConfigCall>, prior: isize) -> isize
    decreases cs.len(),
{
    if cs.len() == 0 {
        prior
    } else {
        last_hwnd(
            cs.subrange(1, cs.len() as int),
            if cs[0] is SetHwnd {
                cs[0]->SetHwnd_0
            } else {
                prior
            },
        )
    }
}

/// The last title set by the calls, or the prior one if none sets it.
pub open spec fn last_title(cs: Seq<ConfigCall>, prior: Seq<char>) -> Seq<char>
    decreases cs.len(),
{
    if cs.len() == 0 {
        prior
    } else {
        last_title(
            cs.subrange(1, cs.len() as int),
            if cs[0] is SetTitle {
                cs[0]->SetTitle_0
            } else {
                prior
            },
        )
    }
}

/// The last message set by the calls, or the prior one if none sets it.
pub open spec fn last_message(cs: Seq<ConfigCall>, prior: Seq<char>) -> Seq<char>
    decreases cs.len(),
{
    if cs.len() == 0 {
        prior
    } else {
        last_message(
            cs.subrange(1, cs.len() as int),
            if cs[0] is SetMessage {
                cs[0]->SetMessage_0
            } else {
                prior
            },
        )
    }
}

/// The last icon kind set by the calls, or the prior one if none sets it.
pub open spec fn last_icon(cs: Seq<ConfigCall>, prior: ICON) -> ICON
    decreases cs.len(),
{
    if cs.len() == 0 {
        prior
    } else {
        last_icon(
            cs.subrange(1, cs.len() as int),
            if cs[0] is SetIcon {
                cs[0]->SetIcon_0
            } else {
                prior
            },
        )
    }
}

/// The last button-set kind set by the calls, or the prior one if none
/// sets it.
pub open spec fn last_button(cs: Seq<ConfigCall>, prior: BUTTON) -> BUTTON
    decreases cs.len(),
{
    if cs.len() == 0 {
        prior
    } else {
        last_button(
            cs.subrange(1, cs.len() as int),
            if cs[0] is SetButton {
                cs[0]->SetButton_0
            } else {
                prior
            },
        )
    }
}

/// Configuration calls are independent: whatever their order, each field
/// of the final configuration holds the last value set for it, and keeps
/// its prior value if no call set it.
pub proof fn lemma_config_last_wins(v: MessageBoxView, cs: Seq<ConfigCall>)
    ensures
        apply_all(v, cs).hwnd == last_hwnd(cs, v.hwnd),
        apply_all(v, cs).title == last_title(cs, v.title),
        apply_all(v, cs).message == last_message(cs, v.message),
        apply_all(v, cs).icon == last_icon(cs, v.icon),
        apply_all(v, cs).button == last_button(cs, v.button),
    decreases cs.len(),
{
    if cs.len() > 0 {
        lemma_config_last_wins(apply(v, cs[0]), cs.subrange(1, cs.len() as int));
    }
}

} // verus!
