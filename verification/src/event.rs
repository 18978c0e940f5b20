//! The click record that the bar host reports.

use crate::button::MouseButton;
use vstd::prelude::*;
use vstd::string::StringSliceAdditionalSpecFns;
use vstd::utf8::encode_utf8_decode_utf8;

verus! {

/// One click or scroll on the bar, as decoded from one line of the host's
/// stream. `name` and `instance` say which block was hit, `x` and `y` where.
#[derive(Debug, Clone)]
pub struct I3BarEvent {
    pub name: Option<String>,
    pub instance: Option<String>,
    pub x: u64,
    pub y: u64,
    pub button: MouseButton,
}

/// A click record as a mathematical value.
pub struct BarEventView {
    pub name: Option<Seq<char>>,
    pub instance: Option<Seq<char>>,
    pub x: nat,
    pub y: nat,
    pub button: MouseButton,
}

/// The text of an optional string.
pub open spec fn text_of(field: Option<String>) -> Option<Seq<char>> {
    match field {
        Some(text) => Some(text@),
        None => None,
    }
}

impl View for I3BarEvent {
    type V = BarEventView;

    open spec fn view(&self) -> BarEventView {
        BarEventView {
            name: text_of(self.name),
            instance: text_of(self.instance),
            x: self.x as nat,
            y: self.y as nat,
            button: self.button,
        }
    }
}

/// Whether two strings hold the same text.
fn same_text(left: &str, right: &str) -> (same: bool)
    ensures
        same == (left@ == right@),
{
    let a = left.as_bytes();
    let b = right.as_bytes();
    if a.len() != b.len() {
        return false;
    }
    let mut i: usize = 0;
    while i < a.len()
        invariant
            a@ == left.spec_bytes(),
            b@ == right.spec_bytes(),
            a@.len() == b@.len(),
            i <= a@.len(),
            forall|k: int| 0 <= k < i ==> a@[k] == b@[k],
        decreases a@.len() - i,
    {
        if a[i] != b[i] {
            return false;
        }
        i = i + 1;
    }
    proof {
        assert(a@ =~= b@);
        encode_utf8_decode_utf8(left@);
        encode_utf8_decode_utf8(right@);
    }
    true
}

impl I3BarEvent {
    /// Whether the event targets the block called `other`. An event without a
    /// name targets no block.
    pub fn matches_name(&self, other: &str) -> (hit: bool)
        ensures
            hit == (self@.name == Some(other@)),
    {
        match &self.name {
            Some(name) => same_text(name.as_str(), other),
            None => false,
        }
    }
}

} // verus!
