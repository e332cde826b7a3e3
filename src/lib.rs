//! Reconciliation of the raw match events that a multi-pattern automaton
//! reports for each line of text into clean, per-kind span sets.
pub mod kinds;
pub mod registry;
pub mod resolver;
pub mod projector;
pub mod scanner;
pub mod laws;

pub use kinds::{PatternType, ScanFlags};
pub use projector::{alloc_result_map, found_patterns_in_line, FieldMatches};
pub use registry::{build_hs_db, HSPattern};
pub use resolver::{callback_block, HSPatternMatch, HSPatternMatchResults, HSScanPair, MatchEvent};
pub use scanner::HSLineScanner;
