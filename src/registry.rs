use vstd::prelude::*;
use crate::kinds::{spec_pattern_id, PatternType, ScanFlags};

verus! {

/// Automaton compile flag: match without regard to case.
pub const HS_FLAG_CASELESS: u32 = 1;
/// Automaton compile flag: report the leftmost start of each match.
pub const HS_FLAG_SOM_LEFTMOST: u32 = 256;
/// The flags every pattern is compiled with.
pub const HS_PATTERN_FLAGS: u32 = HS_FLAG_CASELESS | HS_FLAG_SOM_LEFTMOST;

/// One entry of the automaton's pattern set.
#[derive(Debug, Clone, Copy)]
pub struct HSPattern {
    pub expression: &'static str,
    pub id: u32,
    pub flags: u32,
}

/// The regular expression of each kind.
pub open spec fn spec_expression(k: PatternType) -> Seq<char> {
    match k {
        PatternType::Test => "test"@,
        PatternType::Email => "([\\w\\.!#$%&'*+\\-=?\\^_`{|}~]+@([\\w\\d-]+\\.)+[\\w]{2,4})"@,
        PatternType::IP => "(((25[0-5]|2[0-4][0-9]|1[0-9]{2}|[1-9][0-9]|[0-9])\\.){3}(25[0-5]|2[0-4][0-9]|1[0-9]{2}|[1-9][0-9]|[0-9]))"@,
        PatternType::Quoted => "((\"(.*?)\")|'(.*?)')"@,
        PatternType::Date => "((19[789]\\d|2\\d{3})[-/](0[1-9]|1[1-2])[-/](0[1-9]|[1-2][0-9]|3[0-1]*))|((0[1-9]|[1-2][0-9]|3[0-1]*)[-/](Jan|Feb|Mar|Apr|May|Jun|Jul|Aug|Sep|Oct|Nov|Dec|(0[1-9]|1[1-2]))[-/](19[789]\\d|2\\d{3}))"@,
        PatternType::Phone => "[\\(]?(\\d{3})[\\)-]?[- ]?(\\d{3})[- ]?(\\d{4})"@,
        PatternType::UserAgent => "\"((Mozilla|Links).*? \\(.*?\\)( .*?[0-9]{1,3}\\.[0-9]{1,3}\\.?[0-9]{0,3})?)\""@,
        PatternType::Url => "(https?|ftp)://[^\\s/$.?#].[^()\\]\\[\\s]*"@,
        PatternType::Unknown => ""@,
    }
}

/// The regular expression of kind `k`.
pub fn pattern_expression(k: PatternType) -> (r: &'static str)
    ensures
        r@ == spec_expression(k),
{
    match k {
        PatternType::Test => "test",
        PatternType::Email => "([\\w\\.!#$%&'*+\\-=?\\^_`{|}~]+@([\\w\\d-]+\\.)+[\\w]{2,4})",
        PatternType::IP => "(((25[0-5]|2[0-4][0-9]|1[0-9]{2}|[1-9][0-9]|[0-9])\\.){3}(25[0-5]|2[0-4][0-9]|1[0-9]{2}|[1-9][0-9]|[0-9]))",
        PatternType::Quoted => "((\"(.*?)\")|'(.*?)')",
        PatternType::Date => "((19[789]\\d|2\\d{3})[-/](0[1-9]|1[1-2])[-/](0[1-9]|[1-2][0-9]|3[0-1]*))|((0[1-9]|[1-2][0-9]|3[0-1]*)[-/](Jan|Feb|Mar|Apr|May|Jun|Jul|Aug|Sep|Oct|Nov|Dec|(0[1-9]|1[1-2]))[-/](19[789]\\d|2\\d{3}))",
        PatternType::Phone => "[\\(]?(\\d{3})[\\)-]?[- ]?(\\d{3})[- ]?(\\d{4})",
        PatternType::UserAgent => "\"((Mozilla|Links).*? \\(.*?\\)( .*?[0-9]{1,3}\\.[0-9]{1,3}\\.?[0-9]{0,3})?)\"",
        PatternType::Url => "(https?|ftp)://[^\\s/$.?#].[^()\\]\\[\\s]*",
        PatternType::Unknown => "",
    }
}

/// `[k]` when `k` is enabled, else nothing.
pub open spec fn kind_if(flags: ScanFlags, k: PatternType) -> Seq<PatternType> {
    if flags.enabled(k) {
        seq![k]
    } else {
        Seq::empty()
    }
}

/// The enabled kinds in the order the pattern set lists them.
pub open spec fn enabled_kinds(flags: ScanFlags) -> Seq<PatternType> {
    kind_if(flags, PatternType::IP) + kind_if(flags, PatternType::Email) + kind_if(
        flags,
        PatternType::Date,
    ) + kind_if(flags, PatternType::Quoted) + kind_if(flags, PatternType::Url) + kind_if(
        flags,
        PatternType::Phone,
    ) + kind_if(flags, PatternType::UserAgent)
}

/// Entry `p` is the registered pattern of kind `k`.
pub open spec fn is_pattern_of(p: HSPattern, k: PatternType) -> bool {
    &&& p.expression@ == spec_expression(k)
    &&& p.id == spec_pattern_id(k)
    &&& p.flags == HS_PATTERN_FLAGS
}

/// Appends the pattern of `k` when `k` is enabled.
fn push_if_enabled(patterns: &mut Vec<HSPattern>, flags: &ScanFlags, k: PatternType)
    ensures
        final(patterns)@.len() == old(patterns)@.len() + kind_if(*flags, k).len(),
        forall|i: int|
            0 <= i < old(patterns)@.len() ==> #[trigger] final(patterns)@[i] == old(patterns)@[i],
        flags.enabled(k) ==> is_pattern_of(final(patterns)@[old(patterns)@.len() as int], k),
{
    if flags.contains(k) {
        patterns.push(HSPattern { expression: pattern_expression(k), id: k.pattern_id(), flags: HS_PATTERN_FLAGS });
    }
}

/// The pattern set of the automaton for the enabled kinds: one entry per
/// enabled kind, in the order of `enabled_kinds`, each with its fixed
/// expression and id, caseless and with leftmost start reporting.
pub fn build_hs_db(flags: &ScanFlags) -> (r: Vec<HSPattern>)
    ensures
        r@.len() == enabled_kinds(*flags).len(),
        forall|i: int| 0 <= i < r@.len() ==> is_pattern_of(#[trigger] r@[i], enabled_kinds(*flags)[i]),
{
    let mut patterns: Vec<HSPattern> = Vec::new();
    let ghost mut ks: Seq<PatternType> = Seq::empty();
    push_if_enabled(&mut patterns, flags, PatternType::IP);
    proof { ks = ks + kind_if(*flags, PatternType::IP); }
    assert(forall|i: int| 0 <= i < patterns@.len() ==> is_pattern_of(#[trigger] patterns@[i], ks[i]));
    push_if_enabled(&mut patterns, flags, PatternType::Email);
    proof { ks = ks + kind_if(*flags, PatternType::Email); }
    assert(forall|i: int| 0 <= i < patterns@.len() ==> is_pattern_of(#[trigger] patterns@[i], ks[i]));
    push_if_enabled(&mut patterns, flags, PatternType::Date);
    proof { ks = ks + kind_if(*flags, PatternType::Date); }
    assert(forall|i: int| 0 <= i < patterns@.len() ==> is_pattern_of(#[trigger] patterns@[i], ks[i]));
    push_if_enabled(&mut patterns, flags, PatternType::Quoted);
    proof { ks = ks + kind_if(*flags, PatternType::Quoted); }
    assert(forall|i: int| 0 <= i < patterns@.len() ==> is_pattern_of(#[trigger] patterns@[i], ks[i]));
    push_if_enabled(&mut patterns, flags, PatternType::Url);
    proof { ks = ks + kind_if(*flags, PatternType::Url); }
    assert(forall|i: int| 0 <= i < patterns@.len() ==> is_pattern_of(#[trigger] patterns@[i], ks[i]));
    push_if_enabled(&mut patterns, flags, PatternType::Phone);
    proof { ks = ks + kind_if(*flags, PatternType::Phone); }
    assert(forall|i: int| 0 <= i < patterns@.len() ==> is_pattern_of(#[trigger] patterns@[i], ks[i]));
    push_if_enabled(&mut patterns, flags, PatternType::UserAgent);
    proof { ks = ks + kind_if(*flags, PatternType::UserAgent); }
    assert(ks == enabled_kinds(*flags));
    patterns
}

} // verus!
