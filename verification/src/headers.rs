//! The header context handed to each plugin invocation, and the
//! host-side header capability.
//!
//! Before a plugin runs, the engine rebuilds the request headers as an
//! ordered list of pairs: every name lower-cased, every header whose
//! value is not plain visible text dropped. Plugins read the list
//! case-insensitively through the `get_header` capability, which copies
//! the value across the sandbox boundary into a caller-sized buffer and
//! reports an explicit error — writing nothing — when the value would
//! not fit.

use vstd::prelude::*;

use crate::text::lower_str;
use crate::text::spec_lower;
use crate::text::str_eq;

verus! {

/// The value is plain visible text: every character is ASCII between
/// space and tilde. Anything else is dropped at the boundary.
pub open spec fn value_textual(v: Seq<char>) -> bool {
    forall|i: int| 0 <= i < v.len() ==> ' ' <= #[trigger] v[i] && v[i] <= '~'
}

/// Check a header value at the boundary.
pub fn value_is_textual(v: &str) -> (r: bool)
    ensures
        r == value_textual(v@),
{
    let n = v.unicode_len();
    let mut i: usize = 0;
    while i < n
        invariant
            n == v@.len(),
            0 <= i <= n,
            forall|j: int| 0 <= j < i ==> ' ' <= #[trigger] v@[j] && v@[j] <= '~',
        decreases n - i,
    {
        let c = v.get_char(i);
        if c < ' ' || c > '~' {
            return false;
        }
        i += 1;
    }
    true
}

/// View of a header list: the pairs of character sequences it holds,
/// in order.
pub open spec fn entries_view(v: Seq<(String, String)>) -> Seq<(Seq<char>, Seq<char>)> {
    Seq::new(v.len(), |i: int| (v[i].0@, v[i].1@))
}

/// The context built from raw request headers: names lower-cased,
/// non-textual values dropped, order kept.
pub open spec fn spec_build_context(raw: Seq<(Seq<char>, Seq<char>)>) -> Seq<
    (Seq<char>, Seq<char>),
>
    decreases raw.len(),
{
    if raw.len() == 0 {
        Seq::empty()
    } else {
        let rest = spec_build_context(raw.drop_last());
        if value_textual(raw.last().1) {
            rest.push((spec_lower(raw.last().0), raw.last().1))
        } else {
            rest
        }
    }
}

/// Build the per-request header context.
pub fn build_header_context(raw: &Vec<(String, String)>) -> (ctx: Vec<(String, String)>)
    ensures
        entries_view(ctx@) == spec_build_context(entries_view(raw@)),
{
    let mut ctx: Vec<(String, String)> = Vec::new();
    let mut i: usize = 0;
    while i < raw.len()
        invariant
            0 <= i <= raw@.len(),
            entries_view(ctx@) =~= spec_build_context(entries_view(raw@).subrange(0, i as int)),
        decreases raw@.len() - i,
    {
        proof {
            assert(entries_view(raw@).subrange(0, (i + 1) as int).drop_last() =~= entries_view(
                raw@,
            ).subrange(0, i as int));
            assert(entries_view(raw@).subrange(0, (i + 1) as int).last() == (
                raw@[i as int].0@,
                raw@[i as int].1@,
            ));
        }
        if value_is_textual(raw[i].1.as_str()) {
            let name = lower_str(raw[i].0.as_str());
            let value = raw[i].1.clone();
            ctx.push((name, value));
        }
        i += 1;
    }
    proof {
        assert(entries_view(raw@).subrange(0, raw@.len() as int) =~= entries_view(raw@));
    }
    ctx
}

/// Round trip: a header injected into the request with a textual value
/// appears in the plugin's header list, its name lower-cased and its
/// value unchanged.
pub proof fn lemma_header_round_trip(raw: Seq<(Seq<char>, Seq<char>)>, i: int)
    requires
        0 <= i < raw.len(),
        value_textual(raw[i].1),
    ensures
        exists|j: int|
            0 <= j < spec_build_context(raw).len() && #[trigger] spec_build_context(raw)[j] == (
                spec_lower(raw[i].0),
                raw[i].1,
            ),
    decreases raw.len(),
{
    if i == raw.len() - 1 {
        let built = spec_build_context(raw);
        assert(built[built.len() - 1] == (spec_lower(raw[i].0), raw[i].1));
    } else {
        assert(raw.drop_last()[i] == raw[i]);
        lemma_header_round_trip(raw.drop_last(), i);
        let j = choose|j: int|
            0 <= j < spec_build_context(raw.drop_last()).len() && #[trigger] spec_build_context(
                raw.drop_last(),
            )[j] == (spec_lower(raw[i].0), raw[i].1);
        assert(spec_build_context(raw)[j] == (spec_lower(raw[i].0), raw[i].1));
    }
}

/// First value whose name matches case-insensitively, scanning in
/// context order.
pub open spec fn spec_find_header(hs: Seq<(Seq<char>, Seq<char>)>, name: Seq<char>) -> Option<
    Seq<char>,
>
    decreases hs.len(),
{
    if hs.len() == 0 {
        None
    } else if spec_lower(hs[0].0) == spec_lower(name) {
        Some(hs[0].1)
    } else {
        spec_find_header(hs.skip(1), name)
    }
}

/// Entries whose names do not match can be skipped without changing
/// the result of the scan.
proof fn lemma_find_header_skip(hs: Seq<(Seq<char>, Seq<char>)>, name: Seq<char>, i: int)
    requires
        0 <= i <= hs.len(),
        forall|j: int| 0 <= j < i ==> spec_lower(#[trigger] hs[j].0) != spec_lower(name),
    ensures
        spec_find_header(hs, name) == spec_find_header(hs.skip(i), name),
    decreases i,
{
    if i > 0 {
        assert forall|j: int| 0 <= j < i - 1 implies spec_lower(#[trigger] hs.skip(1)[j].0)
            != spec_lower(name) by {
            assert(hs.skip(1)[j] == hs[j + 1]);
        }
        lemma_find_header_skip(hs.skip(1), name, i - 1);
        assert(hs.skip(1).skip(i - 1) =~= hs.skip(i));
    } else {
        assert(hs.skip(0) =~= hs);
    }
}

/// Case-insensitive lookup of a header value.
pub fn find_header(headers: &Vec<(String, String)>, name: &str) -> (r: Option<String>)
    ensures
        match r {
            Some(v) => spec_find_header(entries_view(headers@), name@) == Some(v@),
            None => spec_find_header(entries_view(headers@), name@) is None,
        },
{
    let lname = lower_str(name);
    let mut i: usize = 0;
    while i < headers.len()
        invariant
            0 <= i <= headers@.len(),
            lname@ == spec_lower(name@),
            forall|j: int|
                0 <= j < i ==> spec_lower(#[trigger] entries_view(headers@)[j].0) != spec_lower(
                    name@,
                ),
        decreases headers@.len() - i,
    {
        let lk = lower_str(headers[i].0.as_str());
        if str_eq(lk.as_str(), lname.as_str()) {
            proof {
                lemma_find_header_skip(entries_view(headers@), name@, i as int);
                assert(entries_view(headers@).skip(i as int)[0] == entries_view(headers@)[
                    i as int]);
            }
            return Some(headers[i].1.clone());
        }
        proof {
            assert(entries_view(headers@)[i as int].0 == headers@[i as int].0@);
        }
        i += 1;
    }
    proof {
        lemma_find_header_skip(entries_view(headers@), name@, headers@.len() as int);
        assert(entries_view(headers@).skip(headers@.len() as int).len() == 0);
    }
    None
}

/// Result of the `get_header` host capability.
#[derive(Clone, PartialEq, Eq, Debug)]
pub enum HeaderRead {
    /// The value (empty when the header is absent), which fits the
    /// caller's buffer.
    Value(String),
    /// The value would not fit the caller's buffer: nothing is
    /// written; the field reports the length the caller must provide.
    Overflow(usize),
}

/// Host capability `get_header`: case-insensitive lookup, empty when
/// absent, bounded by the caller-provided buffer capacity (in
/// characters). On overflow nothing is copied and an explicit error is
/// reported instead.
pub fn get_header(headers: &Vec<(String, String)>, name: &str, buf_cap: usize) -> (r: HeaderRead)
    ensures
        match spec_find_header(entries_view(headers@), name@) {
            Some(v) => if v.len() <= buf_cap {
                r matches HeaderRead::Value(s) && s@ == v
            } else {
                r == HeaderRead::Overflow(v.len() as usize)
            },
            None => r matches HeaderRead::Value(s) && s@ == Seq::<char>::empty(),
        },
{
    match find_header(headers, name) {
        Some(v) => {
            let n = v.as_str().unicode_len();
            if n <= buf_cap {
                HeaderRead::Value(v)
            } else {
                HeaderRead::Overflow(n)
            }
        },
        None => HeaderRead::Value(String::new()),
    }
}

} // verus!
