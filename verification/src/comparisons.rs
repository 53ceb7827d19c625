//! Comparing wire paths with text and socket modes with plain permission bits.

use vstd::prelude::*;

use core::cmp::Ordering;

use crate::configuration::{SocketMode, WirePath};
use crate::text::same_text;
use vstd::std_specs::cmp::{PartialEqSpec, PartialOrdSpec};

verus! {

impl AsRef<str> for WirePath {
    fn as_ref(&self) -> (text: &str)
        ensures
            text@ == self.0@,
    {
        self.as_str()
    }
}

impl<'a> PartialEq<&'a str> for WirePath {
    fn eq(&self, other: &&'a str) -> (same: bool)
        ensures
            same == (self.0@ == (*other)@),
    {
        same_text(self.as_str(), *other)
    }
}

impl<'a> vstd::std_specs::cmp::PartialEqSpecImpl<&'a str> for WirePath {
    open spec fn obeys_eq_spec() -> bool {
        true
    }

    open spec fn eq_spec(&self, other: &&'a str) -> bool {
        self.0@ == (*other)@
    }
}


impl PartialEq<u64> for SocketMode {
    fn eq(&self, other: &u64) -> (same: bool)
        ensures
            same == (self.0 == *other),
    {
        *self.payload() == *other
    }
}

impl vstd::std_specs::cmp::PartialEqSpecImpl<u64> for SocketMode {
    open spec fn obeys_eq_spec() -> bool {
        true
    }

    open spec fn eq_spec(&self, other: &u64) -> bool {
        self.0 == *other
    }
}

impl PartialOrd<u64> for SocketMode {
    fn partial_cmp(&self, other: &u64) -> (order: Option<Ordering>)
        ensures
            order is Some,
            order == Some(Ordering::Less) <==> self.0 < *other,
            order == Some(Ordering::Equal) <==> self.0 == *other,
            order == Some(Ordering::Greater) <==> self.0 > *other,
    {
        let bits = *self.payload();
        if bits < *other {
            Some(Ordering::Less)
        } else if bits == *other {
            Some(Ordering::Equal)
        } else {
            Some(Ordering::Greater)
        }
    }
}

impl vstd::std_specs::cmp::PartialOrdSpecImpl<u64> for SocketMode {
    open spec fn obeys_partial_cmp_spec() -> bool {
        true
    }

    open spec fn partial_cmp_spec(&self, other: &u64) -> Option<Ordering> {
        if self.0 < *other {
            Some(Ordering::Less)
        } else if self.0 == *other {
            Some(Ordering::Equal)
        } else {
            Some(Ordering::Greater)
        }
    }
}

/// A wire path equals a text exactly when the path is that text, character for character.
pub proof fn lemma_path_equals_text_exactly_when_same_characters(path: WirePath, text: &str)
    ensures
        path.eq_spec(&text) <==> path.0@ == text@,
        path.eq_spec(&text) ==> path.0@.len() == text@.len()
            && forall|i: int| 0 <= i < text@.len() ==> path.0@[i] == #[trigger] text@[i],
        (path.0@.len() == text@.len() && exists|i: int| 0 <= i < text@.len() && path.0@[i] != text@[i])
            ==> !path.eq_spec(&text),
{
}

/// Comparing a socket mode with plain bits orders it as its bits are ordered, and finds
/// it equal exactly when `==` does.
pub proof fn lemma_mode_order_agrees_with_equality(mode: SocketMode, bits: u64)
    ensures
        mode.eq_spec(&bits) <==> mode.0 == bits,
        mode.partial_cmp_spec(&bits) is Some,
        (mode.partial_cmp_spec(&bits) == Some(Ordering::Equal)) <==> mode.eq_spec(&bits),
        (mode.partial_cmp_spec(&bits) == Some(Ordering::Equal)) <==> mode.0 == bits,
        (mode.partial_cmp_spec(&bits) == Some(Ordering::Less)) <==> mode.0 < bits,
        (mode.partial_cmp_spec(&bits) == Some(Ordering::Greater)) <==> mode.0 > bits,
{
}

} // verus!
