use vstd::prelude::*;
use crate::resolver::{
    callback_block, resolve_events, valid_event, HSPatternMatch, HSPatternMatchResults,
    HSScanPair, MatchEvent,
};

verus! {

/// Every event of every line is one the automaton can report.
pub open spec fn valid_events(events: Seq<Vec<MatchEvent>>) -> bool {
    forall|i: int, j: int|
        0 <= i < events.len() && 0 <= j < events[i]@.len() ==> valid_event(
            #[trigger] events[i]@[j].from,
            events[i]@[j].to,
        )
}

/// A scan session over a sequence of lines.
pub struct HSLineScanner<'a> {
    pub lines: &'a Vec<String>,
}

impl<'a> HSLineScanner<'a> {
    /// A session over `lines`.
    pub fn new(lines: &'a Vec<String>) -> (r: HSLineScanner<'a>)
        ensures
            r.lines@ == lines@,
    {
        HSLineScanner { lines }
    }

    /// Reconciles the automaton's events of each line, `events[i]` being
    /// those of line `i` in reported order, into a store whose line `i`
    /// holds the accepted spans of those events and whose other lines are
    /// empty.
    pub fn scan(&self, events: &Vec<Vec<MatchEvent>>) -> (r: HSPatternMatchResults)
        requires
            events@.len() == self.lines@.len(),
            self.lines@.len() <= 0x10000,
            valid_events(events@),
        ensures
            r.wf(),
            forall|l: u16|
                #[trigger] r.line_spans(l) == if (l as int) < events@.len() {
                    resolve_events(events@[l as int]@)
                } else {
                    Seq::<HSPatternMatch>::empty()
                },
    {
        let line_total = self.lines.len();
        let mut results = HSPatternMatchResults::new();
        let mut i: usize = 0;
        while i < line_total
            invariant
                line_total == events@.len(),
                line_total <= 0x10000,
                0 <= i <= line_total,
                valid_events(events@),
                results.wf(),
                forall|l: u16|
                    #[trigger] results.line_spans(l) == if (l as int) < i {
                        resolve_events(events@[l as int]@)
                    } else {
                        Seq::<HSPatternMatch>::empty()
                    },
            decreases line_total - i,
        {
            let line_events = &events[i];
            let mut context = HSScanPair { line_index: i as u16, pattern_match_results: results };
            let mut j: usize = 0;
            while j < line_events.len()
                invariant
                    line_events@ == events@[i as int]@,
                    0 <= i < line_total,
                    line_total == events@.len(),
                    line_total <= 0x10000,
                    valid_events(events@),
                    0 <= j <= line_events@.len(),
                    context.line_index == i as u16,
                    context.pattern_match_results.wf(),
                    forall|l: u16|
                        #[trigger] context.pattern_match_results.line_spans(l) == if (l as int)
                            < i {
                            resolve_events(events@[l as int]@)
                        } else if l as int == i {
                            resolve_events(line_events@.subrange(0, j as int))
                        } else {
                            Seq::<HSPatternMatch>::empty()
                        },
                decreases line_events@.len() - j,
            {
                let e = line_events[j];
                proof {
                    assert(valid_event(events@[i as int]@[j as int].from, events@[i as int]@[j as int].to));
                }
                let ghost before = context;
                callback_block(e.id, e.from, e.to, 0, &mut context);
                proof {
                    let next = line_events@.subrange(0, j as int + 1);
                    assert(next.drop_last() == line_events@.subrange(0, j as int));
                    assert(next.last() == e);
                    assert forall|l: u16| #[trigger] context.pattern_match_results.line_spans(l) == if (l as int)
                        < i {
                        resolve_events(events@[l as int]@)
                    } else if l as int == i {
                        resolve_events(next)
                    } else {
                        Seq::<HSPatternMatch>::empty()
                    } by {
                        assert(before.pattern_match_results.line_spans(l) == if (l as int) < i {
                            resolve_events(events@[l as int]@)
                        } else if l as int == i {
                            resolve_events(line_events@.subrange(0, j as int))
                        } else {
                            Seq::<HSPatternMatch>::empty()
                        });
                    }
                }
                j = j + 1;
            }
            proof {
                assert(line_events@.subrange(0, line_events@.len() as int) == line_events@);
            }
            results = context.pattern_match_results;
            i = i + 1;
        }
        results
    }
}

} // verus!
