//! The interval notation of a range: `[1,5)`, `(,10]`, `[3,)`, `(,)`.

use crate::range::PgRange;
use std::fmt::Display;
use std::ops::Bound;
use vstd::prelude::*;
use vstd::string::{to_string_from_display_ensures, StringExecFns};

verus! {

/// The lower half of the notation, up to and with the comma. An unbounded
/// side opens with a round bracket and has no value.
pub open spec fn lower_text(b: Bound<Seq<char>>) -> Seq<char> {
    match b {
        Bound::Unbounded => seq!['(', ','],
        Bound::Excluded(v) => seq!['('] + v + seq![','],
        Bound::Included(v) => seq!['['] + v + seq![','],
    }
}

/// The upper half of the notation, behind the comma.
pub open spec fn upper_text(b: Bound<Seq<char>>) -> Seq<char> {
    match b {
        Bound::Unbounded => seq![')'],
        Bound::Excluded(v) => v + seq![')'],
        Bound::Included(v) => v + seq![']'],
    }
}

/// The notation of a range whose boundary values are already text.
pub open spec fn interval_text(start: Bound<Seq<char>>, end: Bound<Seq<char>>) -> Seq<char> {
    lower_text(start) + upper_text(end)
}

/// A bound of text as a bound of character sequences.
pub open spec fn bound_text(b: Bound<String>) -> Bound<Seq<char>> {
    match b {
        Bound::Unbounded => Bound::Unbounded,
        Bound::Excluded(v) => Bound::Excluded(v@),
        Bound::Included(v) => Bound::Included(v@),
    }
}

/// `text` is a bound of the same kind as `b`, around what displaying the
/// boundary value of `b` gave.
pub open spec fn displays_as<T: Display>(b: Bound<T>, text: Bound<String>) -> bool {
    match b {
        Bound::Unbounded => text is Unbounded,
        Bound::Excluded(v) => text matches Bound::Excluded(s) && to_string_from_display_ensures::<
            T,
        >(&v, s),
        Bound::Included(v) => text matches Bound::Included(s) && to_string_from_display_ensures::<
            T,
        >(&v, s),
    }
}

/// Writes a range whose boundary values are already text in interval
/// notation.
pub fn interval_notation(start: &Bound<String>, end: &Bound<String>) -> (r: String)
    ensures
        r@ == interval_text(bound_text(*start), bound_text(*end)),
{
    proof {
        reveal_strlit("(");
        reveal_strlit("[");
        reveal_strlit(",");
        reveal_strlit(")");
        reveal_strlit("]");
    }
    let mut out = String::new();
    match start {
        Bound::Unbounded => {
            out.append("(");
        },
        Bound::Excluded(v) => {
            out.append("(");
            out.append(v.as_str());
        },
        Bound::Included(v) => {
            out.append("[");
            out.append(v.as_str());
        },
    }
    out.append(",");
    assert(out@ =~= lower_text(bound_text(*start)));
    match end {
        Bound::Unbounded => {
            out.append(")");
        },
        Bound::Excluded(v) => {
            out.append(v.as_str());
            out.append(")");
        },
        Bound::Included(v) => {
            out.append(v.as_str());
            out.append("]");
        },
    }
    assert(out@ =~= interval_text(bound_text(*start), bound_text(*end)));
    out
}

fn display_bound<T: Display>(b: &Bound<T>) -> (r: Bound<String>)
    ensures
        displays_as(*b, r),
{
    match b {
        Bound::Unbounded => Bound::Unbounded,
        Bound::Excluded(v) => Bound::Excluded(v.to_string()),
        Bound::Included(v) => Bound::Included(v.to_string()),
    }
}

impl<T: Display> PgRange<T> {
    /// The range in interval notation, each boundary value as its `Display`
    /// writes it.
    pub fn to_string(&self) -> (r: String)
        ensures
            exists|start: Bound<String>, end: Bound<String>|
                displays_as(self.start, start) && displays_as(self.end, end) && r@
                    == #[trigger] interval_text(bound_text(start), bound_text(end)),
    {
        let start = display_bound(&self.start);
        let end = display_bound(&self.end);
        interval_notation(&start, &end)
    }
}

} // verus!
