use vstd::prelude::*;
use crate::kinds::{is_exposed, spec_pattern_id, PatternType, ScanFlags};
use crate::projector::{field_spans, projected, trim};
use crate::resolver::{
    is_placeholder, resolve_events, same_start, HSPatternMatch, HSPatternMatchResults,
    MatchEvent,
};

verus! {

/// The largest end among `evs`.
pub open spec fn max_end(evs: Seq<MatchEvent>) -> u64
    decreases evs.len(),
{
    if evs.len() <= 1 {
        evs[0].to
    } else {
        let m = max_end(evs.drop_last());
        if m < evs.last().to {
            evs.last().to
        } else {
            m
        }
    }
}

/// Longest match wins: a line whose events all have one non-quoted kind
/// and one start ends with a single span of that kind and start, whose
/// end is the largest end reported.
pub proof fn lemma_longest_match_wins(evs: Seq<MatchEvent>, k: PatternType, from: u64)
    requires
        evs.len() > 0,
        is_exposed(k),
        k != PatternType::Quoted,
        forall|i: int| 0 <= i < evs.len() ==> (#[trigger] evs[i]).id == spec_pattern_id(k) && evs[i].from == from,
    ensures
        resolve_events(evs) == seq![HSPatternMatch { pattern: k, from, to: max_end(evs) }],
    decreases evs.len(),
{
    let last = evs.last();
    assert(evs[evs.len() - 1] == last);
    if evs.len() == 1 {
        assert(evs.drop_last() == Seq::<MatchEvent>::empty());
        assert(resolve_events(evs.drop_last()) == Seq::<HSPatternMatch>::empty());
    } else {
        let pre = evs.drop_last();
        assert forall|i: int| 0 <= i < pre.len() implies (#[trigger] pre[i]).id == spec_pattern_id(k)
            && pre[i].from == from by {
            assert(pre[i] == evs[i]);
        }
        lemma_longest_match_wins(pre, k, from);
        let s = resolve_events(pre);
        let m = HSPatternMatch { pattern: k, from, to: last.to };
        assert(same_start(s, 0, m));
    }
}

/// Every span of kind `k` in `s` appears, trimmed, in the field of `k`.
pub proof fn lemma_field_keeps(s: Seq<HSPatternMatch>, k: PatternType, i: int)
    requires
        0 <= i < s.len(),
        s[i].pattern == k,
    ensures
        field_spans(s, k).contains(trim(s[i])),
    decreases s.len(),
{
    if i == s.len() - 1 {
        let r = field_spans(s.drop_last(), k);
        assert(r.push(trim(s[i]))[r.len() as int] == trim(s[i]));
    } else {
        let pre = s.drop_last();
        assert(pre[i] == s[i]);
        lemma_field_keeps(pre, k, i);
        let r = field_spans(pre, k);
        let j = choose|j: int| 0 <= j < r.len() && r[j] == trim(s[i]);
        if s.last().pattern == k {
            assert(r.push(trim(s.last()))[j] == trim(s[i]));
        }
    }
}

/// An unresolved quote surfaces: a placeholder among a line's accepted
/// spans is emitted by projection, as the span from one past it to one
/// before it, whenever quoted strings are enabled.
pub proof fn lemma_placeholder_surfaces(s: Seq<HSPatternMatch>, flags: ScanFlags, i: int)
    requires
        0 <= i < s.len(),
        is_placeholder(s[i]),
        flags.quoted,
    ensures
        projected(s, flags, PatternType::Quoted) matches Some(f) && f.contains(
            HSPatternMatch {
                pattern: PatternType::Quoted,
                from: (s[i].from + 1) as u64,
                to: (s[i].from - 1) as u64,
            },
        ),
{
    lemma_field_keeps(s, PatternType::Quoted, i);
}

/// A disabled kind has no field in any projection.
pub proof fn lemma_disabled_kind_absent(s: Seq<HSPatternMatch>, flags: ScanFlags, k: PatternType)
    requires
        !flags.enabled(k),
    ensures
        projected(s, flags, k).is_none(),
{
}

/// A line with no events projects to an empty sequence for every enabled
/// field and to no field for the others.
pub proof fn lemma_eventless_line_empty(flags: ScanFlags, k: PatternType)
    ensures
        projected(resolve_events(Seq::empty()), flags, k) == if flags.enabled(k) {
            Some(Seq::<HSPatternMatch>::empty())
        } else {
            None
        },
{
}

/// Projection drains: once line `l` has been projected out of `before`,
/// leaving `after`, projecting `l` again yields an empty sequence for every
/// enabled field and no field for the others.
pub proof fn lemma_projection_drains(
    before: HSPatternMatchResults,
    after: HSPatternMatchResults,
    l: u16,
    flags: ScanFlags,
    k: PatternType,
)
    requires
        forall|m: u16|
            #[trigger] after.line_spans(m) == if m == l {
                Seq::empty()
            } else {
                before.line_spans(m)
            },
    ensures
        projected(after.line_spans(l), flags, k) == if flags.enabled(k) {
            Some(Seq::<HSPatternMatch>::empty())
        } else {
            None
        },
{
    assert(after.line_spans(l) == Seq::<HSPatternMatch>::empty());
}

} // verus!
