use vstd::prelude::*;
use std::collections::HashMap;
use crate::kinds::{is_exposed, spec_kind_of_id, PatternType};

verus! {

broadcast use vstd::std_specs::hash::group_hash_axioms;

/// A span of one kind on one line: byte offsets, `to` one past the last byte.
#[derive(Debug, Clone, Copy, PartialEq, Eq, Structural)]
pub struct HSPatternMatch {
    pub pattern: PatternType,
    pub from: u64,
    pub to: u64,
}

/// One raw report of the automaton: pattern id and byte offsets.
#[derive(Debug, Clone, Copy, PartialEq, Eq, Structural)]
pub struct MatchEvent {
    pub id: u32,
    pub from: u64,
    pub to: u64,
}

/// What the automaton reports: a half-open range, ending past the line's
/// first byte and below the largest offset.
pub open spec fn valid_event(from: u64, to: u64) -> bool {
    from <= to && 1 <= to && to < u64::MAX
}

/// A quoted span of width zero: an open quote still waiting for its pair.
pub open spec fn is_placeholder(m: HSPatternMatch) -> bool {
    m.pattern == PatternType::Quoted && m.from == m.to
}

/// Some span of `s` has kind `k`.
pub open spec fn has_kind(s: Seq<HSPatternMatch>, k: PatternType) -> bool {
    exists|i: int| 0 <= i < s.len() && (#[trigger] s[i]).pattern == k
}

/// Some span of `s` is a placeholder.
pub open spec fn has_placeholder(s: Seq<HSPatternMatch>) -> bool {
    exists|i: int| 0 <= i < s.len() && is_placeholder(#[trigger] s[i])
}

/// Span `i` of `s` has the kind and start of `m`.
pub open spec fn same_start(s: Seq<HSPatternMatch>, i: int, m: HSPatternMatch) -> bool {
    0 <= i < s.len() && s[i].pattern == m.pattern && s[i].from == m.from
}

/// A line's accepted spans as the reconciliation keeps them.
pub open spec fn wf_line(s: Seq<HSPatternMatch>) -> bool {
    &&& forall|i: int|
        0 <= i < s.len() ==> {
            &&& is_exposed(#[trigger] s[i].pattern)
            &&& 1 <= s[i].to
            &&& s[i].from < u64::MAX
        }
    &&& forall|i: int, j: int|
        0 <= i < s.len() && 0 <= j < s.len() && i != j && s[i].pattern != PatternType::Quoted
            && #[trigger] s[i].pattern == #[trigger] s[j].pattern ==> s[i].from != s[j].from
    &&& forall|i: int, j: int|
        0 <= i < s.len() && 0 <= j < s.len() && is_placeholder(#[trigger] s[i]) && is_placeholder(
            #[trigger] s[j],
        ) ==> i == j
}

/// A non-quoted kind keeps, for each start, the longest end reported.
pub open spec fn accept_longest(s: Seq<HSPatternMatch>, m: HSPatternMatch) -> Seq<HSPatternMatch> {
    if exists|i: int| same_start(s, i, m) {
        let i = choose|i: int| same_start(s, i, m);
        if s[i].to < m.to {
            s.update(i, m)
        } else {
            s
        }
    } else {
        s.push(m)
    }
}

/// Quoted spans are paired: the first is kept as reported, a later one
/// leaves a placeholder at its end, and the next one resolves that
/// placeholder into the span from one byte before it to the new end.
pub open spec fn accept_quoted(s: Seq<HSPatternMatch>, from: u64, to: u64) -> Seq<HSPatternMatch> {
    if !has_kind(s, PatternType::Quoted) {
        s.push(HSPatternMatch { pattern: PatternType::Quoted, from, to })
    } else if has_placeholder(s) {
        let i = choose|i: int| 0 <= i < s.len() && is_placeholder(s[i]);
        s.update(i, HSPatternMatch { pattern: PatternType::Quoted, from: (s[i].from - 1) as u64, to })
    } else {
        s.push(HSPatternMatch { pattern: PatternType::Quoted, from: to, to })
    }
}

/// The accepted spans of a line after one more event; events of unknown
/// ids leave them as they are.
pub open spec fn accept_event(s: Seq<HSPatternMatch>, e: MatchEvent) -> Seq<HSPatternMatch> {
    let k = spec_kind_of_id(e.id);
    if !is_exposed(k) {
        s
    } else if k == PatternType::Quoted {
        accept_quoted(s, e.from, e.to)
    } else {
        accept_longest(s, HSPatternMatch { pattern: k, from: e.from, to: e.to })
    }
}

/// The accepted spans of a line after its events, in reported order.
pub open spec fn resolve_events(evs: Seq<MatchEvent>) -> Seq<HSPatternMatch>
    decreases evs.len(),
{
    if evs.len() == 0 {
        Seq::empty()
    } else {
        accept_event(resolve_events(evs.drop_last()), evs.last())
    }
}

/// The accepted spans of every line, keyed by line index.
pub struct HSPatternMatchResults {
    pub lines: HashMap<u16, Vec<HSPatternMatch>>,
}

impl HSPatternMatchResults {
    /// The accepted spans of line `l`; empty for a line with none.
    pub open spec fn line_spans(&self, l: u16) -> Seq<HSPatternMatch> {
        if self.lines@.contains_key(l) {
            self.lines@[l]@
        } else {
            Seq::empty()
        }
    }

    /// Every line's spans are as the reconciliation keeps them.
    pub open spec fn wf(&self) -> bool {
        forall|l: u16| #[trigger] wf_line(self.line_spans(l))
    }

    /// A store with no spans.
    pub fn new() -> (r: HSPatternMatchResults)
        ensures
            r.wf(),
            forall|l: u16| r.line_spans(l) == Seq::<HSPatternMatch>::empty(),
    {
        let r = HSPatternMatchResults { lines: HashMap::new() };
        assert forall|l: u16| #[trigger] wf_line(r.line_spans(l)) by {
            assert(r.line_spans(l) == Seq::<HSPatternMatch>::empty());
        }
        r
    }

    /// Removes and returns the spans of line `l`.
    pub fn take_line(&mut self, l: u16) -> (r: Vec<HSPatternMatch>)
        requires
            old(self).wf(),
        ensures
            final(self).wf(),
            r@ == old(self).line_spans(l),
            forall|m: u16|
                #[trigger] final(self).line_spans(m) == if m == l {
                    Seq::empty()
                } else {
                    old(self).line_spans(m)
                },
    {
        let r = match self.lines.remove(&l) {
            Some(v) => v,
            None => Vec::new(),
        };
        assert forall|m: u16| #[trigger] wf_line(self.line_spans(m)) by {
            if m != l {
                assert(wf_line(old(self).line_spans(m)));
            }
        }
        r
    }

    /// Records one event of line `l` (see `accept_event`).
    pub fn record(&mut self, l: u16, e: MatchEvent)
        requires
            old(self).wf(),
            valid_event(e.from, e.to),
        ensures
            final(self).wf(),
            forall|m: u16|
                #[trigger] final(self).line_spans(m) == if m == l {
                    accept_event(old(self).line_spans(l), e)
                } else {
                    old(self).line_spans(m)
                },
    {
        let kind = PatternType::from_id(e.id);
        if kind == PatternType::Unknown {
            return;
        }
        let mut spans = self.take_line(l);
        proof {
            assert(wf_line(old(self).line_spans(l)));
        }
        if kind == PatternType::Quoted {
            accept_quoted_exec(&mut spans, e.from, e.to);
        } else {
            accept_longest_exec(&mut spans, HSPatternMatch { pattern: kind, from: e.from, to: e.to });
        }
        let ghost before = *self;
        let ghost mid = self.lines@;
        let ghost placed = spans@;
        self.lines.insert(l, spans);
        assert(self.lines@ == mid.insert(l, spans));
        assert forall|m: u16| #[trigger] self.line_spans(m) == if m == l {
            accept_event(old(self).line_spans(l), e)
        } else {
            old(self).line_spans(m)
        } by {
            if m == l {
                assert(self.line_spans(m) == placed);
            } else {
                assert(before.line_spans(m) == old(self).line_spans(m));
            }
        }
        assert forall|m: u16| #[trigger] wf_line(self.line_spans(m)) by {
            if m != l {
                assert(wf_line(old(self).line_spans(m)));
            }
        }
    }
}

/// Applies `accept_longest` to a line's spans in place.
fn accept_longest_exec(spans: &mut Vec<HSPatternMatch>, m: HSPatternMatch)
    requires
        wf_line(old(spans)@),
        is_exposed(m.pattern),
        m.pattern != PatternType::Quoted,
        valid_event(m.from, m.to),
    ensures
        final(spans)@ == accept_longest(old(spans)@, m),
        wf_line(final(spans)@),
{
    let mut found = false;
    let mut at: usize = 0;
    let mut i: usize = 0;
    while i < spans.len()
        invariant
            0 <= i <= spans@.len(),
            spans@ == old(spans)@,
            found ==> same_start(spans@, at as int, m),
            !found ==> forall|j: int| 0 <= j < i ==> !same_start(spans@, j, m),
        decreases spans@.len() - i,
    {
        if spans[i].pattern == m.pattern && spans[i].from == m.from {
            found = true;
            at = i;
        }
        i = i + 1;
    }
    proof {
        if found {
            let c = choose|c: int| same_start(spans@, c, m);
            assert(same_start(spans@, c, m));
            if c != at as int {
                assert(spans@[c].pattern == spans@[at as int].pattern);
            }
        }
    }
    if found {
        if spans[at].to < m.to {
            spans.set(at, m);
        }
    } else {
        spans.push(m);
    }
    proof {
        let s = spans@;
        assert forall|a: int, b: int|
            0 <= a < s.len() && 0 <= b < s.len() && a != b && s[a].pattern != PatternType::Quoted
                && #[trigger] s[a].pattern == #[trigger] s[b].pattern implies s[a].from
            != s[b].from by {
            if !found && (a == s.len() - 1 || b == s.len() - 1) {
                if a == s.len() - 1 {
                    assert(!same_start(old(spans)@, b, m));
                } else {
                    assert(!same_start(old(spans)@, a, m));
                }
            } else if found && (a == at || b == at) {
                assert(old(spans)@[at as int].pattern == m.pattern);
            } else {
                assert(s[a] == old(spans)@[a]);
                assert(s[b] == old(spans)@[b]);
            }
        }
        assert forall|a: int, b: int|
            0 <= a < s.len() && 0 <= b < s.len() && is_placeholder(#[trigger] s[a])
                && is_placeholder(#[trigger] s[b]) implies a == b by {
            assert(s[a] == old(spans)@[a]);
            assert(s[b] == old(spans)@[b]);
        }
    }
}

/// Applies `accept_quoted` to a line's spans in place.
fn accept_quoted_exec(spans: &mut Vec<HSPatternMatch>, from: u64, to: u64)
    requires
        wf_line(old(spans)@),
        valid_event(from, to),
    ensures
        final(spans)@ == accept_quoted(old(spans)@, from, to),
        wf_line(final(spans)@),
{
    let mut quoted = false;
    let mut open = false;
    let mut at: usize = 0;
    let mut i: usize = 0;
    while i < spans.len()
        invariant
            0 <= i <= spans@.len(),
            spans@ == old(spans)@,
            quoted <==> exists|j: int| 0 <= j < i && (#[trigger] spans@[j]).pattern
                == PatternType::Quoted,
            open ==> at < spans@.len() && is_placeholder(spans@[at as int]),
            !open ==> forall|j: int| 0 <= j < i ==> !is_placeholder(#[trigger] spans@[j]),
        decreases spans@.len() - i,
    {
        if spans[i].pattern == PatternType::Quoted {
            quoted = true;
            if spans[i].from == spans[i].to {
                open = true;
                at = i;
            }
        }
        i = i + 1;
    }
    let ghost s0 = spans@;
    if !quoted {
        spans.push(HSPatternMatch { pattern: PatternType::Quoted, from, to });
    } else if open {
        proof {
            let c = choose|c: int| 0 <= c < s0.len() && is_placeholder(s0[c]);
            assert(is_placeholder(s0[c]));
            assert(c == at as int);
        }
        let start = spans[at].from - 1;
        spans.set(at, HSPatternMatch { pattern: PatternType::Quoted, from: start, to });
    } else {
        spans.push(HSPatternMatch { pattern: PatternType::Quoted, from: to, to });
    }
    proof {
        let s = spans@;
        assert forall|a: int, b: int|
            0 <= a < s.len() && 0 <= b < s.len() && a != b && s[a].pattern != PatternType::Quoted
                && #[trigger] s[a].pattern == #[trigger] s[b].pattern implies s[a].from
            != s[b].from by {
            if a < s0.len() && b < s0.len() && !(open && (a == at || b == at)) {
                assert(s[a] == s0[a]);
                assert(s[b] == s0[b]);
            }
        }
        assert forall|a: int, b: int|
            0 <= a < s.len() && 0 <= b < s.len() && is_placeholder(#[trigger] s[a])
                && is_placeholder(#[trigger] s[b]) implies a == b by {
            if a < s0.len() && b < s0.len() && !(open && (a == at || b == at)) {
                assert(s[a] == s0[a]);
                assert(s[b] == s0[b]);
            } else if !quoted {
                if a < s0.len() {
                    assert(s0[a].pattern == PatternType::Quoted);
                }
                if b < s0.len() {
                    assert(s0[b].pattern == PatternType::Quoted);
                }
            } else if open {
                if a != at {
                    assert(s[a] == s0[a]);
                }
                if b != at {
                    assert(s[b] == s0[b]);
                }
            } else {
                if a < s0.len() {
                    assert(s[a] == s0[a]);
                }
                if b < s0.len() {
                    assert(s[b] == s0[b]);
                }
            }
        }
    }
}

/// What the automaton callback works on: the line being scanned and the
/// store of accepted spans.
pub struct HSScanPair {
    pub line_index: u16,
    pub pattern_match_results: HSPatternMatchResults,
}

/// The automaton callback: reconciles one event of the current line into
/// the store, and always asks the automaton to go on (returns 0).
pub fn callback_block(id: u32, from: u64, to: u64, _flags: u32, context: &mut HSScanPair) -> (r:
    u32)
    requires
        old(context).pattern_match_results.wf(),
        valid_event(from, to),
    ensures
        r == 0,
        final(context).line_index == old(context).line_index,
        final(context).pattern_match_results.wf(),
        forall|m: u16|
            #[trigger] final(context).pattern_match_results.line_spans(m) == if m
                == old(context).line_index {
                accept_event(
                    old(context).pattern_match_results.line_spans(m),
                    MatchEvent { id, from, to },
                )
            } else {
                old(context).pattern_match_results.line_spans(m)
            },
{
    let line = context.line_index;
    context.pattern_match_results.record(line, MatchEvent { id, from, to });
    0
}

} // verus!
