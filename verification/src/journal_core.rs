//! Date selection for journal entries, without I/O.
//!
//! A [`DateSpecifier`] says which entries to open: today's, those of the past
//! week (retro), those of significant past intervals (reminisce), or the one
//! of a given date. [`DateSpecifier::resolve_dates`] turns it into the list of
//! dates relative to a reference date.
use vstd::prelude::*;
use crate::constants::{
    DATE_FORMAT_COMPACT, DATE_FORMAT_ISO, MAX_REMINISCE_YEARS_AGO, MONTHS_PER_YEAR,
    REMINISCE_ONE_MONTH_AGO, REMINISCE_SIX_MONTHS_AGO, REMINISCE_THREE_MONTHS_AGO, RETRO_DAYS,
};
use crate::dates::{
    chrono_parse_date, date_lt, days_before, days_in_month, months_back, parse_date_with,
    prev_day, valid_ymd, Date, MIN_YEAR,
};

verus! {

/// Which journal entries to open.
#[derive(Debug, Clone, Copy, PartialEq, Eq, Structural)]
pub enum DateSpecifier {
    /// Today's entry.
    Today,
    /// The entries of the 7 days before today.
    Retro,
    /// The entries of 1, 3 and 6 months ago and of each of the past 100
    /// years on the same day.
    Reminisce,
    /// The entry of one given date.
    Specific(Date),
}

/// A date string that could not be read, with the parser's message.
#[derive(Debug, Clone)]
pub struct DateParseError {
    pub message: String,
}

impl DateParseError {
    /// The message of the parse error.
    pub fn to_string(&self) -> (r: String)
        ensures
            r@ == self.message@,
    {
        self.message.clone()
    }
}

/// How a date string is read: as `YYYY-MM-DD` first and, if that fails, as
/// `YYYYMMDD`; the error is that of the second attempt.
pub open spec fn parse_date_spec(s: Seq<char>) -> Result<(int, int, int), Seq<char>> {
    match chrono_parse_date(s, DATE_FORMAT_ISO@) {
        Ok(d) => Ok(d),
        Err(_) => chrono_parse_date(s, DATE_FORMAT_COMPACT@),
    }
}

/// The views of a sequence of dates.
pub open spec fn dates_view(v: Seq<Date>) -> Seq<(int, int, int)> {
    v.map_values(|d: Date| d@)
}

/// Each date of the sequence is an earlier day than the one before it.
pub open spec fn strictly_decreasing(s: Seq<(int, int, int)>) -> bool {
    forall|i: int, j: int| 0 <= i < j < s.len() ==> date_lt(#[trigger] s[j], #[trigger] s[i])
}

/// The `i`-th month offset of the reminisce intervals: 1, 3 and 6 months,
/// then 12, 24, ..., 1200 months.
pub open spec fn reminisce_offset(i: int) -> int {
    if i == 0 {
        REMINISCE_ONE_MONTH_AGO as int
    } else if i == 1 {
        REMINISCE_THREE_MONTHS_AGO as int
    } else if i == 2 {
        REMINISCE_SIX_MONTHS_AGO as int
    } else {
        MONTHS_PER_YEAR * (i - 2)
    }
}

/// Number of reminisce intervals.
pub open spec fn reminisce_count() -> int {
    3 + MAX_REMINISCE_YEARS_AGO
}

/// Whether `x` is one of the reminisce dates of `reference`: some interval
/// before it that chrono can represent.
pub open spec fn is_reminisce_date(reference: (int, int, int), x: (int, int, int)) -> bool {
    exists|i: int|
        0 <= i < reminisce_count() && #[trigger] months_back(reference, reminisce_offset(i))
            == Some(x)
}

/// The retro dates of `reference`: the 7 days before it, most recent first.
pub open spec fn retro_dates(reference: (int, int, int)) -> Seq<(int, int, int)> {
    Seq::new(RETRO_DAYS as nat, |i: int| days_before(reference, (i + 1) as nat))
}

/// The 7 days before `reference` exist (it is not in the first week of the
/// earliest supported year).
pub open spec fn retro_in_range(reference: (int, int, int)) -> bool {
    reference.0 > MIN_YEAR || reference.1 > 1 || reference.2 > RETRO_DAYS
}

/// What [`DateSpecifier::resolve_dates`] gives for `spec` and `reference`,
/// for the variants that have a single answer.
pub open spec fn resolved_dates(spec: DateSpecifier, reference: (int, int, int)) -> Seq<(int, int, int)>
    recommends
        !(spec is Reminisce),
{
    match spec {
        DateSpecifier::Today => seq![reference],
        DateSpecifier::Retro => retro_dates(reference),
        DateSpecifier::Reminisce => Seq::empty(),
        DateSpecifier::Specific(d) => seq![d@],
    }
}

/// Whether `r` is what [`DateSpecifier::resolve_dates`] gives for `spec`
/// and `reference`: for reminisce, the reminisce dates, each once, most
/// recent first; otherwise [`resolved_dates`].
pub open spec fn resolves_to(spec: DateSpecifier, reference: (int, int, int), r: Seq<(int, int, int)>) -> bool {
    if spec is Reminisce {
        &&& strictly_decreasing(r)
        &&& forall|x: (int, int, int)| r.contains(x) <==> is_reminisce_date(reference, x)
    } else {
        r == resolved_dates(spec, reference)
    }
}

/// The specifier chosen by the command-line flags when a date string, if
/// given, was read as `parsed`: a date takes precedence, then retro, then
/// reminisce, then today.
pub open spec fn cli_choice(
    retro: bool,
    reminisce: bool,
    parsed: Option<Result<(int, int, int), Seq<char>>>,
    r: Result<DateSpecifier, DateParseError>,
) -> bool {
    match parsed {
        Some(Ok(v)) => r matches Ok(DateSpecifier::Specific(d)) && d@ == v,
        Some(Err(m)) => r matches Err(e) && e.message@ == m,
        None => r == Ok::<DateSpecifier, DateParseError>(
            if retro {
                DateSpecifier::Retro
            } else if reminisce {
                DateSpecifier::Reminisce
            } else {
                DateSpecifier::Today
            },
        ),
    }
}

/// The result of reading a date string, as plain values.
pub open spec fn parsed_view(p: Option<Result<Date, DateParseError>>) -> Option<Result<(int, int, int), Seq<char>>> {
    match p {
        Some(Ok(d)) => Some(Ok(d@)),
        Some(Err(e)) => Some(Err(e.message@)),
        None => None,
    }
}

impl DateSpecifier {
    /// Reads a date in `YYYY-MM-DD` or, failing that, `YYYYMMDD` format.
    pub fn parse_date_string(date_str: &str) -> (r: Result<Date, DateParseError>)
        ensures
            parse_date_spec(date_str@) == (match r {
                Ok(d) => Ok::<(int, int, int), Seq<char>>(d@),
                Err(e) => Err::<(int, int, int), Seq<char>>(e.message@),
            }),
    {
        match parse_date_with(date_str, DATE_FORMAT_ISO) {
            Ok(d) => Ok(d),
            Err(_) => match parse_date_with(date_str, DATE_FORMAT_COMPACT) {
                Ok(d) => Ok(d),
                Err(message) => Err(DateParseError { message }),
            },
        }
    }

    /// The specifier for the command-line flags, given how the date string
    /// (if any) was read.
    pub fn from_cli_parts(
        retro: bool,
        reminisce: bool,
        parsed: Option<Result<Date, DateParseError>>,
    ) -> (r: Result<DateSpecifier, DateParseError>)
        ensures
            cli_choice(retro, reminisce, parsed_view(parsed), r),
            parsed is None && retro ==> r matches Ok(DateSpecifier::Retro),
            parsed is None && !retro && reminisce ==> r matches Ok(DateSpecifier::Reminisce),
            parsed is None && !retro && !reminisce ==> r matches Ok(DateSpecifier::Today),
    {
        match parsed {
            Some(Ok(d)) => Ok(DateSpecifier::Specific(d)),
            Some(Err(e)) => Err(e),
            None => {
                if retro {
                    Ok(DateSpecifier::Retro)
                } else if reminisce {
                    Ok(DateSpecifier::Reminisce)
                } else {
                    Ok(DateSpecifier::Today)
                }
            },
        }
    }

    /// Creates a specifier from command-line arguments: a date string takes
    /// precedence, then the retro flag, then the reminisce flag; with none
    /// of them, today.
    pub fn from_cli_args(retro: bool, reminisce: bool, date_str: Option<&str>) -> (r: Result<
        DateSpecifier,
        DateParseError,
    >)
        ensures
            cli_choice(
                retro,
                reminisce,
                match date_str {
                    Some(s) => Some(parse_date_spec(s@)),
                    None => None,
                },
                r,
            ),
            date_str is None && retro ==> r matches Ok(DateSpecifier::Retro),
            date_str is None && !retro && reminisce ==> r matches Ok(DateSpecifier::Reminisce),
            date_str is None && !retro && !reminisce ==> r matches Ok(DateSpecifier::Today),
    {
        let parsed = match date_str {
            Some(s) => Some(Self::parse_date_string(s)),
            None => None,
        };
        Self::from_cli_parts(retro, reminisce, parsed)
    }

    /// The dates of this specifier relative to `reference_date`: the
    /// reference date for today, the 7 days before it for retro (most
    /// recent first), the reminisce dates (each once, most recent first),
    /// or the given date.
    pub fn resolve_dates(&self, reference_date: Date) -> (r: Vec<Date>)
        requires
            *self is Retro ==> retro_in_range(reference_date@),
        ensures
            resolves_to(*self, reference_date@, dates_view(r@)),
            *self is Reminisce ==> forall|x: (int, int, int)| #[trigger] dates_view(r@).contains(x) <==> exists|m: int|
                is_reminisce_interval(m) && #[trigger] months_back(reference_date@, m) == Some(x),
    {
        match self {
            DateSpecifier::Today => {
                let r = vec![reference_date];
                assert(dates_view(r@) == seq![reference_date@]);
                r
            },
            DateSpecifier::Retro => retro_dates_from(reference_date),
            DateSpecifier::Reminisce => {
                let r = reminisce_dates_from(reference_date);
                proof {
                    assert forall|x: (int, int, int)| #[trigger] dates_view(r@).contains(x) <==> exists|m: int|
                        is_reminisce_interval(m) && #[trigger] months_back(reference_date@, m) == Some(x) by {
                        law_reminisce_dates_are_the_intervals(reference_date@, x);
                    }
                }
                r
            },
            DateSpecifier::Specific(date) => {
                let r = vec![*date];
                assert(dates_view(r@) == seq![date@]);
                r
            },
        }
    }
}

/// The 7 days before `reference`, most recent first.
fn retro_dates_from(reference: Date) -> (r: Vec<Date>)
    requires
        retro_in_range(reference@),
    ensures
        dates_view(r@) == retro_dates(reference@),
{
    let mut r: Vec<Date> = Vec::new();
    let mut days: i64 = 1;
    proof {
        use_type_invariant(&reference);
        Date::lemma_inv(reference);
    }
    while days <= RETRO_DAYS
        invariant
            1 <= days <= RETRO_DAYS + 1,
            r.len() == days - 1,
            valid_ymd(reference@),
            retro_in_range(reference@),
            forall|i: int| 0 <= i < r.len() ==> (#[trigger] r@[i])@ == days_before(reference@, (i + 1) as nat),
        decreases RETRO_DAYS + 1 - days,
    {
        proof {
            lemma_days_before_valid(reference@, days as nat);
        }
        let d = reference.minus_days(days);
        r.push(d);
        days = days + 1;
    }
    assert(dates_view(r@) =~= retro_dates(reference@));
    r
}

/// The month offset of the `i`-th reminisce interval.
fn reminisce_offset_at(i: u32) -> (r: u32)
    requires
        i < 3 + MAX_REMINISCE_YEARS_AGO,
    ensures
        r as int == reminisce_offset(i as int),
{
    if i == 0 {
        REMINISCE_ONE_MONTH_AGO
    } else if i == 1 {
        REMINISCE_THREE_MONTHS_AGO
    } else if i == 2 {
        REMINISCE_SIX_MONTHS_AGO
    } else {
        MONTHS_PER_YEAR * (i - 2)
    }
}

/// The reminisce dates of `reference`, each once, most recent first.
///
/// The intervals are visited from the shortest to the longest; a longer
/// interval always lands on an earlier month, so the dates come out in
/// decreasing order without duplicates.
fn reminisce_dates_from(reference: Date) -> (r: Vec<Date>)
    ensures
        strictly_decreasing(dates_view(r@)),
        forall|x: (int, int, int)| dates_view(r@).contains(x) <==> is_reminisce_date(reference@, x),
{
    proof {
        use_type_invariant(&reference);
        Date::lemma_inv(reference);
    }
    let mut r: Vec<Date> = Vec::new();
    let ghost mut idx: Seq<int> = Seq::empty();
    let mut i: u32 = 0;
    while i < 3 + MAX_REMINISCE_YEARS_AGO
        invariant
            0 <= i <= reminisce_count(),
            valid_ymd(reference@),
            idx.len() == r.len(),
            forall|j: int| 0 <= j < idx.len() ==> 0 <= #[trigger] idx[j] < i,
            forall|j: int, k: int| 0 <= j < k < idx.len() ==> #[trigger] idx[j] < #[trigger] idx[k],
            forall|j: int|
                0 <= j < idx.len() ==> months_back(reference@, reminisce_offset(#[trigger] idx[j]))
                    == Some(r@[j]@),
            forall|t: int|
                0 <= t < i && (#[trigger] months_back(reference@, reminisce_offset(t))) is Some
                    ==> exists|j: int| 0 <= j < idx.len() && idx[j] == t,
            strictly_decreasing(dates_view(r@)),
        decreases reminisce_count() - i,
    {
        let offset = reminisce_offset_at(i);
        let candidate = reference.checked_sub_months(offset);
        match candidate {
            Some(d) => {
                let ghost old_r = dates_view(r@);
                let ghost old_idx = idx;
                proof {
                    assert forall|j: int| 0 <= j < old_idx.len() implies date_lt(
                        d@,
                        #[trigger] old_r[j],
                    ) by {
                        lemma_reminisce_offset_increasing(old_idx[j], i as int);
                        lemma_months_back_order(
                            reference@,
                            reminisce_offset(old_idx[j]),
                            reminisce_offset(i as int),
                        );
                    }
                }
                r.push(d);
                proof {
                    idx = idx.push(i as int);
                    assert(dates_view(r@) == old_r.push(d@));
                    assert forall|t: int|
                        0 <= t < i + 1 && (#[trigger] months_back(
                            reference@,
                            reminisce_offset(t),
                        )) is Some implies exists|j: int| 0 <= j < idx.len() && idx[j] == t by {
                        if t == i {
                            assert(idx[idx.len() - 1] == t);
                        } else {
                            let j = choose|j: int| 0 <= j < old_idx.len() && old_idx[j] == t;
                            assert(idx[j] == t);
                        }
                    }
                }
            },
            None => {},
        }
        i = i + 1;
    }
    proof {
        let rv = dates_view(r@);
        assert forall|x: (int, int, int)| rv.contains(x) implies is_reminisce_date(reference@, x) by {
            let j = choose|j: int| 0 <= j < rv.len() && rv[j] == x;
            assert(months_back(reference@, reminisce_offset(idx[j])) == Some(x));
        }
        assert forall|x: (int, int, int)| is_reminisce_date(reference@, x) implies rv.contains(x) by {
            let t = choose|t: int|
                0 <= t < reminisce_count() && #[trigger] months_back(reference@, reminisce_offset(t))
                    == Some(x);
            let j = choose|j: int| 0 <= j < idx.len() && idx[j] == t;
            assert(rv[j] == x);
        }
    }
    r
}

/// Longer reminisce intervals come later.
proof fn lemma_reminisce_offset_increasing(a: int, b: int)
    requires
        0 <= a < b,
    ensures
        0 < reminisce_offset(a) < reminisce_offset(b),
{
}

/// Going further back in months gives an earlier date.
pub proof fn lemma_months_back_order(v: (int, int, int), k1: int, k2: int)
    requires
        k1 < k2,
        months_back(v, k1) is Some,
        months_back(v, k2) is Some,
    ensures
        date_lt(months_back(v, k2).unwrap(), months_back(v, k1).unwrap()),
{
    let t1 = v.0 * 12 + v.1 - 1 - k1;
    let t2 = v.0 * 12 + v.1 - 1 - k2;
    assert(t2 < t1);
    assert(t2 / 12 <= t1 / 12) by (nonlinear_arith)
        requires
            t2 < t1,
    ;
    assert(t2 / 12 == t1 / 12 ==> t2 % 12 < t1 % 12) by (nonlinear_arith)
        requires
            t2 < t1,
    ;
}

/// The day before a day is an earlier day.
pub proof fn lemma_prev_day_earlier(v: (int, int, int))
    ensures
        date_lt(prev_day(v), v),
{
}

/// `k` days before `v`, for `k` up to 31, is a valid date when `v` is valid
/// and not within the first `k` days of the earliest supported year.
pub proof fn lemma_days_before_valid(v: (int, int, int), k: nat)
    requires
        valid_ymd(v),
        k <= 31,
        v.0 > MIN_YEAR || v.1 > 1 || v.2 > k,
    ensures
        valid_ymd(days_before(v, k)),
    decreases k,
{
    if k > 0 {
        let p = prev_day(v);
        assert(valid_ymd(p));
        assert(p.0 > MIN_YEAR || p.1 > 1 || p.2 > k - 1);
        lemma_days_before_valid(p, (k - 1) as nat);
    }
}

/// `k + 1` days before `v` is the day before `k` days before `v`.
pub proof fn lemma_days_before_step(v: (int, int, int), k: nat)
    ensures
        days_before(v, k + 1) == prev_day(days_before(v, k)),
    decreases k,
{
    assert(days_before(v, k + 1) == days_before(prev_day(v), k));
    if k > 0 {
        lemma_days_before_step(prev_day(v), (k - 1) as nat);
        assert(days_before(v, k) == days_before(prev_day(v), (k - 1) as nat));
    } else {
        assert(days_before(prev_day(v), 0) == prev_day(v));
    }
}

/// Going back more days gives an earlier date.
pub proof fn lemma_days_before_order(v: (int, int, int), i: nat, j: nat)
    requires
        i < j,
    ensures
        date_lt(days_before(v, j), days_before(v, i)),
    decreases j - i,
{
    lemma_days_before_step(v, (j - 1) as nat);
    lemma_prev_day_earlier(days_before(v, (j - 1) as nat));
    if i < j - 1 {
        lemma_days_before_order(v, i, (j - 1) as nat);
    }
}

/// Going back zero months from a valid date gives the date itself.
pub proof fn lemma_months_back_zero(v: (int, int, int))
    requires
        valid_ymd(v),
    ensures
        months_back(v, 0) == Some(v),
{
    let total = v.0 * 12 + v.1 - 1;
    assert(total / 12 == v.0 && total % 12 == v.1 - 1) by (nonlinear_arith)
        requires
            total == v.0 * 12 + v.1 - 1,
            1 <= v.1 <= 12,
    ;
}

/// A date some months back is a valid date.
pub proof fn lemma_months_back_valid(v: (int, int, int), n: int)
    requires
        valid_ymd(v),
        months_back(v, n) is Some,
    ensures
        valid_ymd(months_back(v, n).unwrap()),
{
}

/// Law: the retro dates of a reference date are the seven days before it,
/// one day apart, most recent first; each is a valid date earlier than the
/// reference, so today's entry is never among them.
pub proof fn law_retro_dates_are_previous_week(reference: (int, int, int))
    requires
        valid_ymd(reference),
        retro_in_range(reference),
    ensures
        retro_dates(reference).len() == 7,
        retro_dates(reference)[0] == prev_day(reference),
        forall|i: int| 0 <= i < 6 ==> retro_dates(reference)[i + 1] == prev_day(#[trigger] retro_dates(reference)[i]),
        forall|i: int| 0 <= i < 7 ==> valid_ymd(#[trigger] retro_dates(reference)[i]) && date_lt(retro_dates(reference)[i], reference),
        strictly_decreasing(retro_dates(reference)),
{
    let r = retro_dates(reference);
    assert(days_before(reference, 1) == days_before(prev_day(reference), 0));
    assert forall|i: int| 0 <= i < 6 implies r[i + 1] == prev_day(#[trigger] r[i]) by {
        lemma_days_before_step(reference, (i + 1) as nat);
    }
    assert forall|i: int| 0 <= i < 7 implies valid_ymd(#[trigger] r[i]) && date_lt(r[i], reference) by {
        lemma_days_before_valid(reference, (i + 1) as nat);
        lemma_days_before_order(reference, 0, (i + 1) as nat);
    }
    assert forall|i: int, j: int| 0 <= i < j < r.len() implies date_lt(#[trigger] r[j], #[trigger] r[i]) by {
        lemma_days_before_order(reference, (i + 1) as nat, (j + 1) as nat);
    }
}

/// Law: every reminisce date of a reference date is a valid date earlier
/// than the reference.
pub proof fn law_reminisce_dates_precede_reference(reference: (int, int, int), x: (int, int, int))
    requires
        valid_ymd(reference),
        is_reminisce_date(reference, x),
    ensures
        valid_ymd(x),
        date_lt(x, reference),
{
    let i = choose|i: int|
        0 <= i < reminisce_count() && #[trigger] months_back(reference, reminisce_offset(i)) == Some(x);
    lemma_months_back_zero(reference);
    lemma_months_back_valid(reference, reminisce_offset(i));
    lemma_reminisce_offset_increasing(0, 1);
    if i > 0 {
        lemma_reminisce_offset_increasing(0, i);
    }
    lemma_months_back_order(reference, 0, reminisce_offset(i));
}

/// Law: the one-month, three-month and six-month reminisce dates and the
/// one-year anniversary of a reference date are among its reminisce dates
/// whenever chrono can represent them.
pub proof fn law_reminisce_includes_intervals(reference: (int, int, int))
    ensures
        months_back(reference, 1) matches Some(x) ==> is_reminisce_date(reference, x),
        months_back(reference, 3) matches Some(x) ==> is_reminisce_date(reference, x),
        months_back(reference, 6) matches Some(x) ==> is_reminisce_date(reference, x),
        months_back(reference, 12) matches Some(x) ==> is_reminisce_date(reference, x),
{
    assert(reminisce_offset(0) == 1);
    assert(reminisce_offset(1) == 3);
    assert(reminisce_offset(2) == 6);
    assert(reminisce_offset(3) == 12);
}

/// Law: without a date string, the command-line flags choose the past
/// week whenever `--retro` is given (whatever `--reminisce` says), the
/// reminisce dates when only `--reminisce` is given, and today's entry when
/// neither is.
pub proof fn law_cli_flags_retro_first(retro: bool, reminisce: bool, r: Result<DateSpecifier, DateParseError>)
    requires
        cli_choice(retro, reminisce, None, r),
    ensures
        retro ==> r matches Ok(DateSpecifier::Retro),
        !retro && reminisce ==> r matches Ok(DateSpecifier::Reminisce),
        !retro && !reminisce ==> r matches Ok(DateSpecifier::Today),
{
}

/// The month intervals of reminiscing: one, three and six months, and
/// every whole number of years from one to a hundred.
pub open spec fn is_reminisce_interval(m: int) -> bool {
    m == 1 || m == 3 || m == 6 || (12 <= m <= 1200 && m % 12 == 0)
}

/// Law: the reminisce dates of a reference date are exactly the dates one,
/// three and six months before it and its anniversaries one to a hundred
/// years before it, as far as chrono can represent them; in particular the
/// anniversary `k` years back is among them for every `1 <= k <= 100`.
pub proof fn law_reminisce_dates_are_the_intervals(reference: (int, int, int), x: (int, int, int))
    ensures
        is_reminisce_date(reference, x) <==> exists|m: int| is_reminisce_interval(m) && #[trigger] months_back(reference, m) == Some(x),
        forall|k: int| 1 <= k <= 100 && #[trigger] months_back(reference, 12 * k) == Some(x) ==> is_reminisce_date(reference, x),
{
    if is_reminisce_date(reference, x) {
        let i = choose|i: int|
            0 <= i < reminisce_count() && #[trigger] months_back(reference, reminisce_offset(i)) == Some(x);
        if i >= 3 {
            assert((12 * (i - 2)) % 12 == 0);
        }
        assert(is_reminisce_interval(reminisce_offset(i)));
    }
    if exists|m: int| is_reminisce_interval(m) && #[trigger] months_back(reference, m) == Some(x) {
        let m = choose|m: int| is_reminisce_interval(m) && #[trigger] months_back(reference, m) == Some(x);
        if m == 1 {
            assert(months_back(reference, reminisce_offset(0)) == Some(x));
        } else if m == 3 {
            assert(months_back(reference, reminisce_offset(1)) == Some(x));
        } else if m == 6 {
            assert(months_back(reference, reminisce_offset(2)) == Some(x));
        } else {
            let k = m / 12;
            assert(m == 12 * k);
            assert(reminisce_offset(k + 2) == m);
            assert(months_back(reference, reminisce_offset(k + 2)) == Some(x));
        }
    }
    assert forall|k: int| 1 <= k <= 100 && #[trigger] months_back(reference, 12 * k) == Some(x) implies is_reminisce_date(reference, x) by {
        assert(reminisce_offset(k + 2) == 12 * k);
        assert(months_back(reference, reminisce_offset(k + 2)) == Some(x));
    }
}

/// For a reference date of a supported year from 1969 on, the past week
/// and the reminisce dates are not empty.
pub proof fn lemma_resolved_nonempty(spec: DateSpecifier, reference: (int, int, int), r: Seq<(int, int, int)>)
    requires
        spec is Retro || spec is Reminisce,
        reference.0 >= 1969,
        valid_ymd(reference),
        resolves_to(spec, reference, r),
    ensures
        r.len() > 0,
{
    if spec is Reminisce {
        let x = months_back(reference, 1).unwrap();
        assert(months_back(reference, reminisce_offset(0)) == Some(x));
        assert(is_reminisce_date(reference, x));
        assert(r.contains(x));
    }
}

} // verus!
