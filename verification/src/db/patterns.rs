//! Kinds of patterns detected in journal entries.
use vstd::prelude::*;
use crate::util::str_eq;

verus! {

/// The kind of a detected pattern.
#[derive(Debug, Clone, Copy, PartialEq, Eq, Structural)]
pub enum PatternType {
    /// When the user writes.
    Temporal,
    /// What the user writes about.
    Topic,
    /// How the user feels.
    Sentiment,
    /// How things relate.
    Correlation,
}

impl PatternType {
    /// The name under which the kind is stored.
    pub open spec fn text(self) -> Seq<char> {
        match self {
            PatternType::Temporal => "temporal"@,
            PatternType::Topic => "topic"@,
            PatternType::Sentiment => "sentiment"@,
            PatternType::Correlation => "correlation"@,
        }
    }

    /// The name under which the kind is stored.
    pub fn as_str(&self) -> (r: &'static str)
        ensures
            r@ == self.text(),
    {
        match self {
            PatternType::Temporal => "temporal",
            PatternType::Topic => "topic",
            PatternType::Sentiment => "sentiment",
            PatternType::Correlation => "correlation",
        }
    }

    /// The kind stored under a name, if any.
    pub fn from_str(s: &str) -> (r: Option<PatternType>)
        ensures
            r matches Some(t) ==> t.text() == s@,
            r is None ==> forall|t: PatternType| t.text() != s@,
    {
        if str_eq(s, "temporal") {
            Some(PatternType::Temporal)
        } else if str_eq(s, "topic") {
            Some(PatternType::Topic)
        } else if str_eq(s, "sentiment") {
            Some(PatternType::Sentiment)
        } else if str_eq(s, "correlation") {
            Some(PatternType::Correlation)
        } else {
            None
        }
    }
}

/// Law: different kinds are stored under different names, so reading the
/// stored name of a kind gives the kind back.
pub proof fn law_pattern_type_names_distinct(a: PatternType, b: PatternType)
    ensures
        a.text() == b.text() ==> a == b,
{
    reveal_strlit("temporal");
    reveal_strlit("topic");
    reveal_strlit("sentiment");
    reveal_strlit("correlation");
    if a != b {
        assert(a.text() != b.text()) by {
            let x = a.text();
            let y = b.text();
            if x.len() == y.len() {
                assert(x[0] != y[0] || x[1] != y[1]);
            }
        }
    }
}

} // verus!
