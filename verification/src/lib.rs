//! A builder-style adapter around a native modal message-box call.
//!
//! A [`message_box::MessageBox`] accumulates an owner window handle, a
//! title, a message, an icon kind and a button-set kind. The library
//! verifies everything around the one blocking platform call: packing the
//! two kinds into the platform's style value ([`style`]), encoding the
//! texts as null-terminated UTF-16 ([`wide`]), and mapping the integer the
//! platform returns to a boolean "affirmative pressed" outcome ([`code`]).
//! The native call itself is foreign I/O and stays outside the library; a
//! host makes it with the values the adapter computes and hands the raw
//! return code back to [`message_box::MessageBox::outcome`].
pub mod code;
pub mod message_box;
pub mod style;
pub mod wide;
