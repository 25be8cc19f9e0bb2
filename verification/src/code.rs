//! The dialog's integer return codes and their meaning.
//!
//! The platform reports which button dismissed the dialog as a small integer.
//! A fixed table maps the recognized integers to named codes; every other
//! integer — including the zero an outright platform failure produces — maps
//! to `NONE` and counts as non-affirmative.
use vstd::prelude::*;

verus! {

/// A recognized dialog return code, or `NONE` for anything unrecognized.
#[derive(Copy, Clone, PartialEq, Eq, Structural, Debug)]
pub enum CODE {
    NONE,
    OK,
    CANCEL,
    ABORT,
    RETRY,
    IGNORE,
    YES,
    NO,
    TRYAGAIN,
    CONTINUE,
}

/// The code a raw platform integer decodes to.
pub open spec fn code_of(id: i32) -> CODE {
    if id == 1 {
        CODE::OK
    } else if id == 2 {
        CODE::CANCEL
    } else if id == 3 {
        CODE::ABORT
    } else if id == 4 {
        CODE::RETRY
    } else if id == 5 {
        CODE::IGNORE
    } else if id == 6 {
        CODE::YES
    } else if id == 7 {
        CODE::NO
    } else if id == 10 {
        CODE::TRYAGAIN
    } else if id == 11 {
        CODE::CONTINUE
    } else {
        CODE::NONE
    }
}

/// Whether a code stands for a button that keeps the workflow moving
/// forward (acknowledge, retry, continue) rather than halting or
/// declining it.
pub open spec fn affirmative(code: CODE) -> bool {
    match code {
        CODE::OK | CODE::CONTINUE | CODE::RETRY | CODE::TRYAGAIN | CODE::YES => true,
        _ => false,
    }
}

impl From<i32> for CODE {
    /// Decodes a raw platform integer by the fixed table; unrecognized
    /// integers decode to `NONE`.
    fn from(id: i32) -> (r: Self) {
        match id {
            1 => CODE::OK,
            2 => CODE::CANCEL,
            3 => CODE::ABORT,
            4 => CODE::RETRY,
            5 => CODE::IGNORE,
            6 => CODE::YES,
            7 => CODE::NO,
            10 => CODE::TRYAGAIN,
            11 => CODE::CONTINUE,
            _ => CODE::NONE,
        }
    }
}

impl vstd::std_specs::convert::FromSpecImpl<i32> for CODE {
    open spec fn obeys_from_spec() -> bool {
        true
    }

    open spec fn from_spec(id: i32) -> CODE {
        code_of(id)
    }
}

/// Decoding a raw integer and classifying the code yields `true` exactly
/// for the five affirmative integers, and `false` for every other integer,
/// recognized or not.
pub proof fn lemma_affirmative_table(id: i32)
    ensures
        affirmative(code_of(id)) <==> (id == 1 || id == 4 || id == 6 || id == 10 || id == 11),
{
}

} // verus!
