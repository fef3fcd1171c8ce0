//! Levels of AI-generated summaries.
use vstd::prelude::*;
use crate::util::str_eq;

verus! {

/// The period a summary covers.
#[derive(Debug, Clone, Copy, PartialEq, Eq, Structural)]
pub enum SummaryLevel {
    /// One day.
    Daily,
    /// One week.
    Weekly,
    /// One month.
    Monthly,
}

impl SummaryLevel {
    /// The name under which the level is stored.
    pub open spec fn text(self) -> Seq<char> {
        match self {
            SummaryLevel::Daily => "daily"@,
            SummaryLevel::Weekly => "weekly"@,
            SummaryLevel::Monthly => "monthly"@,
        }
    }

    /// The name under which the level is stored.
    pub fn as_str(&self) -> (r: &'static str)
        ensures
            r@ == self.text(),
    {
        match self {
            SummaryLevel::Daily => "daily",
            SummaryLevel::Weekly => "weekly",
            SummaryLevel::Monthly => "monthly",
        }
    }

    /// The level stored under a name, if any.
    pub fn from_str(s: &str) -> (r: Option<SummaryLevel>)
        ensures
            r matches Some(t) ==> t.text() == s@,
            r is None ==> forall|t: SummaryLevel| t.text() != s@,
    {
        if str_eq(s, "daily") {
            Some(SummaryLevel::Daily)
        } else if str_eq(s, "weekly") {
            Some(SummaryLevel::Weekly)
        } else if str_eq(s, "monthly") {
            Some(SummaryLevel::Monthly)
        } else {
            None
        }
    }
}

/// Law: different levels are stored under different names, so reading the
/// stored name of a level gives the level back.
pub proof fn law_summary_level_names_distinct(a: SummaryLevel, b: SummaryLevel)
    ensures
        a.text() == b.text() ==> a == b,
{
    reveal_strlit("daily");
    reveal_strlit("weekly");
    reveal_strlit("monthly");
    if a != b {
        assert(a.text() != b.text()) by {
            let x = a.text();
            let y = b.text();
            if x.len() == y.len() {
                assert(x[0] != y[0]);
            }
        }
    }
}

} // verus!
