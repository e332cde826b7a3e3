use vstd::prelude::*;
use crate::kinds::{PatternType, ScanFlags};
use crate::resolver::{wf_line, HSPatternMatch, HSPatternMatchResults};

verus! {

/// The caller-facing form of a span: quoted and user-agent spans lose the
/// delimiter byte at each end; other kinds are unchanged.
pub open spec fn trim(m: HSPatternMatch) -> HSPatternMatch {
    if m.pattern == PatternType::Quoted || m.pattern == PatternType::UserAgent {
        HSPatternMatch { pattern: m.pattern, from: (m.from + 1) as u64, to: (m.to - 1) as u64 }
    } else {
        m
    }
}

/// The trimmed spans of kind `k` in `s`, in order.
pub open spec fn field_spans(s: Seq<HSPatternMatch>, k: PatternType) -> Seq<HSPatternMatch>
    decreases s.len(),
{
    if s.len() == 0 {
        Seq::empty()
    } else {
        let r = field_spans(s.drop_last(), k);
        if s.last().pattern == k {
            r.push(trim(s.last()))
        } else {
            r
        }
    }
}

/// The field of kind `k` in the projection of spans `s`: present exactly
/// when `k` is enabled.
pub open spec fn projected(s: Seq<HSPatternMatch>, flags: ScanFlags, k: PatternType) -> Option<
    Seq<HSPatternMatch>,
> {
    if flags.enabled(k) {
        Some(field_spans(s, k))
    } else {
        None
    }
}

/// The contents of an optional field.
pub open spec fn opt_view(o: Option<Vec<HSPatternMatch>>) -> Option<Seq<HSPatternMatch>> {
    match o {
        Some(v) => Some(v@),
        None => None,
    }
}

/// The spans of one line by output field; a field is `None` when its kind
/// is not enabled.
pub struct FieldMatches {
    pub ip: Option<Vec<HSPatternMatch>>,
    pub email: Option<Vec<HSPatternMatch>>,
    pub date: Option<Vec<HSPatternMatch>>,
    pub quoted: Option<Vec<HSPatternMatch>>,
    pub url: Option<Vec<HSPatternMatch>>,
    pub phone: Option<Vec<HSPatternMatch>>,
    pub user_agent: Option<Vec<HSPatternMatch>>,
}

impl FieldMatches {
    /// The field that holds spans of kind `k`.
    pub open spec fn field(&self, k: PatternType) -> Option<Seq<HSPatternMatch>> {
        match k {
            PatternType::IP => opt_view(self.ip),
            PatternType::Email => opt_view(self.email),
            PatternType::Date => opt_view(self.date),
            PatternType::Quoted => opt_view(self.quoted),
            PatternType::Url => opt_view(self.url),
            PatternType::Phone => opt_view(self.phone),
            PatternType::UserAgent => opt_view(self.user_agent),
            PatternType::Unknown => None,
            PatternType::Test => None,
        }
    }

    /// The spans of kind `k`, or `None` when that field is absent.
    pub fn get(&self, k: PatternType) -> (r: Option<&Vec<HSPatternMatch>>)
        ensures
            match r {
                Some(v) => self.field(k) == Some(v@),
                None => self.field(k).is_none(),
            },
    {
        match k {
            PatternType::IP => self.ip.as_ref(),
            PatternType::Email => self.email.as_ref(),
            PatternType::Date => self.date.as_ref(),
            PatternType::Quoted => self.quoted.as_ref(),
            PatternType::Url => self.url.as_ref(),
            PatternType::Phone => self.phone.as_ref(),
            PatternType::UserAgent => self.user_agent.as_ref(),
            PatternType::Unknown => None,
            PatternType::Test => None,
        }
    }

    /// Appends `m` to the field of its kind, when that field is present.
    fn add(&mut self, m: HSPatternMatch)
        ensures
            forall|k: PatternType|
                #[trigger] final(self).field(k) == if k == m.pattern && old(self).field(k).is_some() {
                    Some(old(self).field(k).unwrap().push(m))
                } else {
                    old(self).field(k)
                },
    {
        match m.pattern {
            PatternType::IP => push_into(&mut self.ip, m),
            PatternType::Email => push_into(&mut self.email, m),
            PatternType::Date => push_into(&mut self.date, m),
            PatternType::Quoted => push_into(&mut self.quoted, m),
            PatternType::Url => push_into(&mut self.url, m),
            PatternType::Phone => push_into(&mut self.phone, m),
            PatternType::UserAgent => push_into(&mut self.user_agent, m),
            PatternType::Unknown => {},
            PatternType::Test => {},
        }
    }
}

/// Appends `m` to a present field.
fn push_into(slot: &mut Option<Vec<HSPatternMatch>>, m: HSPatternMatch)
    ensures
        opt_view(*final(slot)) == match opt_view(*old(slot)) {
            Some(s) => Some(s.push(m)),
            None => None,
        },
{
    match slot {
        Some(v) => v.push(m),
        None => {},
    }
}

/// An empty field when `on`, else none.
fn slot(on: bool) -> (r: Option<Vec<HSPatternMatch>>)
    ensures
        opt_view(r) == if on {
            Some(Seq::<HSPatternMatch>::empty())
        } else {
            None
        },
{
    if on {
        Some(Vec::new())
    } else {
        None
    }
}

/// The result mapping before any span is added: an empty sequence for each
/// enabled kind, no field for the others.
pub fn alloc_result_map(flags: &ScanFlags) -> (r: FieldMatches)
    ensures
        forall|k: PatternType|
            #[trigger] r.field(k) == if flags.enabled(k) {
                Some(Seq::<HSPatternMatch>::empty())
            } else {
                None
            },
{
    FieldMatches {
        ip: slot(flags.ip),
        email: slot(flags.email),
        date: slot(flags.date),
        quoted: slot(flags.quoted),
        url: slot(flags.url),
        phone: slot(flags.phone),
        user_agent: slot(flags.user_agent),
    }
}

/// The caller-facing form of an accepted span (see `trim`).
fn trimmed(m: HSPatternMatch) -> (r: HSPatternMatch)
    requires
        1 <= m.to,
        m.from < u64::MAX,
    ensures
        r == trim(m),
{
    if m.pattern == PatternType::Quoted || m.pattern == PatternType::UserAgent {
        HSPatternMatch { pattern: m.pattern, from: m.from + 1, to: m.to - 1 }
    } else {
        m
    }
}

/// Drains line `line_index` from the store and returns its spans by field:
/// for each enabled kind its trimmed spans in accepted order, no field for
/// the kinds that are not enabled. The line is empty in the store afterwards.
pub fn found_patterns_in_line(
    pattern_match_results: &mut HSPatternMatchResults,
    line_index: &u16,
    flags: &ScanFlags,
) -> (r: FieldMatches)
    requires
        old(pattern_match_results).wf(),
    ensures
        final(pattern_match_results).wf(),
        forall|m: u16|
            #[trigger] final(pattern_match_results).line_spans(m) == if m == *line_index {
                Seq::empty()
            } else {
                old(pattern_match_results).line_spans(m)
            },
        forall|k: PatternType|
            #[trigger] r.field(k) == projected(
                old(pattern_match_results).line_spans(*line_index),
                *flags,
                k,
            ),
{
    let spans = pattern_match_results.take_line(*line_index);
    proof {
        assert(wf_line(old(pattern_match_results).line_spans(*line_index)));
    }
    let mut found = alloc_result_map(flags);
    let mut i: usize = 0;
    while i < spans.len()
        invariant
            0 <= i <= spans@.len(),
            wf_line(spans@),
            forall|k: PatternType|
                #[trigger] found.field(k) == projected(spans@.subrange(0, i as int), *flags, k),
        decreases spans@.len() - i,
    {
        let m = spans[i];
        proof {
            assert(crate::kinds::is_exposed(spans@[i as int].pattern));
        }
        let t = trimmed(m);
        let ghost before = found;
        found.add(t);
        proof {
            let pre = spans@.subrange(0, i as int);
            let post = spans@.subrange(0, i as int + 1);
            assert(post.drop_last() == pre);
            assert(post.last() == m);
            assert forall|k: PatternType| #[trigger]
                found.field(k) == projected(post, *flags, k) by {
                assert(before.field(k) == projected(pre, *flags, k));
            }
        }
        i = i + 1;
    }
    proof {
        assert(spans@.subrange(0, spans@.len() as int) == spans@);
    }
    found
}

} // verus!
