//! The cron expression engine: parses six-field cron expressions
//! (seconds, minutes, hours, day of month, month, day of week) and decides,
//! for a given reference time, whether a schedule is due. Each field accepts
//! `*`, a literal value, or `start/step`. Evaluation is pure: it depends on
//! the compiled expression and the reference time alone.

use vstd::prelude::*;

verus! {

/// One field of a compiled cron expression.
#[derive(Clone, Copy, Debug, PartialEq, Eq, Structural)]
pub enum CronField {
    /// `*`: matches every value.
    Any,
    /// A literal value.
    Literal(u32),
    /// `start/step`: matches `start`, `start + step`, `start + 2*step`, ...
    Step { start: u32, step: u32 },
}

/// A compiled six-field cron expression.
#[derive(Clone, Copy, Debug, PartialEq, Eq, Structural)]
pub struct CronExpression {
    pub seconds: CronField,
    pub minutes: CronField,
    pub hours: CronField,
    pub day_of_month: CronField,
    pub month: CronField,
    pub day_of_week: CronField,
}

/// A reference time, broken into the calendar fields a cron expression
/// is matched against. Day of week counts from Sunday = 0.
#[derive(Clone, Copy, Debug, PartialEq, Eq, Structural)]
pub struct TimeFields {
    pub second: u32,
    pub minute: u32,
    pub hour: u32,
    pub day_of_month: u32,
    pub month: u32,
    pub day_of_week: u32,
}

impl TimeFields {
    /// All fields within their calendar ranges.
    pub open spec fn wf(self) -> bool {
        &&& self.second < 60
        &&& self.minute < 60
        &&& self.hour < 24
        &&& 1 <= self.day_of_month <= 31
        &&& 1 <= self.month <= 12
        &&& self.day_of_week < 7
    }
}

/// Gregorian leap years.
pub open spec fn spec_is_leap(y: u64) -> bool {
    y % 4 == 0 && (y % 100 != 0 || y % 400 == 0)
}

/// Days in month `m` of year `y` (months count from 1).
pub open spec fn spec_days_in_month(y: u64, m: u64) -> u64 {
    if m == 2 {
        if spec_is_leap(y) {
            29
        } else {
            28
        }
    } else if m == 4 || m == 6 || m == 9 || m == 11 {
        30
    } else {
        31
    }
}

/// Days in year `y`, as a specification value.
pub open spec fn spec_days_in_year(y: u64) -> int {
    if spec_is_leap(y) {
        366
    } else {
        365
    }
}

/// Days from the epoch (1970-01-01) to the start of year `y`.
pub open spec fn days_before_year(y: u64) -> int
    decreases y,
{
    if y <= 1970 {
        0
    } else {
        days_before_year((y - 1) as u64) + spec_days_in_year((y - 1) as u64)
    }
}

/// Days from the start of year `y` to the start of its month `m`.
pub open spec fn days_before_month(y: u64, m: u64) -> int
    decreases m,
{
    if m <= 1 {
        0
    } else {
        days_before_month(y, (m - 1) as u64) + spec_days_in_month(y, (m - 1) as u64)
    }
}

/// Days in months `m ..= 12` of year `y`.
pub open spec fn month_tail_days(y: u64, m: u64) -> int
    decreases 13 - m,
{
    if m > 12 || m < 1 {
        0
    } else {
        spec_days_in_month(y, m) + month_tail_days(y, (m + 1) as u64)
    }
}

/// A year's months add up to its day count.
proof fn lemma_year_days(y: u64)
    ensures
        month_tail_days(y, 1) == if spec_is_leap(y) {
            366int
        } else {
            365int
        },
{
    reveal_with_fuel(month_tail_days, 14);
}

impl TimeFields {
    /// Breaks a count of seconds since the Unix epoch (1970-01-01, a
    /// Thursday, UTC) into calendar fields of the Gregorian calendar: the
    /// day count splits into whole years since 1970, whole months, and the
    /// day within the month.
    pub fn from_epoch_seconds(secs: u64) -> (r: TimeFields)
        ensures
            r.wf(),
            r.second == secs % 60,
            r.minute == secs / 60 % 60,
            r.hour == secs / 3600 % 24,
            r.day_of_week == (secs / 86400 + 4) % 7,
            exists|y: u64|
                #![auto]
                y >= 1970 && days_before_year(y) + days_before_month(y, r.month as u64)
                    + r.day_of_month - 1 == secs / 86400 && r.day_of_month <= spec_days_in_month(
                    y,
                    r.month as u64,
                ),
    {
        let second = (secs % 60) as u32;
        let minute = (secs / 60 % 60) as u32;
        let hour = (secs / 3600 % 24) as u32;
        let total_days = secs / 86400;
        proof {
            assert(secs / 86400 <= secs) by (nonlinear_arith);
            assert(secs / 86400 < 300000000000000) by (nonlinear_arith);
        }
        let day_of_week = ((total_days + 4) % 7) as u32;

        let mut days = total_days;
        let mut year: u64 = 1970;
        while days >= days_in_year(year)
            invariant
                days <= total_days,
                total_days < 300000000000000,
                year >= 1970,
                year - 1970 <= total_days - days,
                days_before_year(year) + days == total_days,
            decreases days,
        {
            days -= days_in_year(year);
            year += 1;
        }
        proof {
            lemma_year_days(year);
            assert(days < month_tail_days(year, 1));
        }
        let ghost year_start_days = days;

        let mut month: u64 = 1;
        while days >= days_in_month(year, month)
            invariant
                1 <= month <= 12,
                days < month_tail_days(year, month),
                days_before_month(year, month) + days == year_start_days,
            decreases 13 - month,
        {
            proof {
                reveal_with_fuel(month_tail_days, 3);
                if month == 12 {
                    assert(month_tail_days(year, 12) == spec_days_in_month(year, 12));
                    assert(false);
                }
            }
            days -= days_in_month(year, month);
            month += 1;
        }
        proof {
            reveal_with_fuel(month_tail_days, 2);
            assert(days < spec_days_in_month(year, month));
        }

        let r = TimeFields {
            second,
            minute,
            hour,
            day_of_month: (days + 1) as u32,
            month: month as u32,
            day_of_week,
        };
        proof {
            assert(days_before_year(year) + days_before_month(year, r.month as u64)
                + r.day_of_month - 1 == secs / 86400);
            assert(r.day_of_month <= spec_days_in_month(year, r.month as u64));
        }
        r
    }
}

/// Days in year `y`.
fn days_in_year(y: u64) -> (r: u64)
    ensures
        r == if spec_is_leap(y) {
            366u64
        } else {
            365u64
        },
{
    if y % 4 == 0 && (y % 100 != 0 || y % 400 == 0) {
        366
    } else {
        365
    }
}

/// Days in month `m` of year `y` (months count from 1).
fn days_in_month(y: u64, m: u64) -> (r: u64)
    ensures
        r == spec_days_in_month(y, m),
{
    if m == 2 {
        if y % 4 == 0 && (y % 100 != 0 || y % 400 == 0) {
            29
        } else {
            28
        }
    } else if m == 4 || m == 6 || m == 9 || m == 11 {
        30
    } else {
        31
    }
}

/// A rejected cron expression: either the wrong number of fields, or a
/// field that is malformed or out of range.
#[derive(Clone, Copy, Debug, PartialEq, Eq, Structural)]
pub enum ParseError {
    WrongFieldCount,
    InvalidField,
}

/// The inclusive value range of each of the six fields, low end.
pub open spec fn field_lo(idx: int) -> u32 {
    if idx == 3 || idx == 4 {
        1u32
    } else {
        0u32
    }
}

/// The inclusive value range of each of the six fields, high end
/// (seconds, minutes, hours, day of month, month, day of week).
pub open spec fn field_hi(idx: int) -> u32 {
    if idx == 0 || idx == 1 {
        59u32
    } else if idx == 2 {
        23u32
    } else if idx == 3 {
        31u32
    } else if idx == 4 {
        12u32
    } else {
        6u32
    }
}

impl CronField {
    /// Well-formed for a field whose values range over `lo ..= hi`.
    pub open spec fn wf(self, lo: u32, hi: u32) -> bool {
        match self {
            CronField::Any => true,
            CronField::Literal(v) => lo <= v <= hi,
            CronField::Step { start, step } => lo <= start <= hi && 1 <= step <= hi - lo + 1,
        }
    }

    /// Whether the field matches the value `v`.
    pub open spec fn spec_matches(self, v: u32) -> bool {
        match self {
            CronField::Any => true,
            CronField::Literal(x) => v == x,
            CronField::Step { start, step } => v >= start && (v - start) % (step as int) == 0,
        }
    }

    /// Whether the field matches the value `v`.
    pub fn matches_value(&self, v: u32) -> (r: bool)
        requires
            self matches CronField::Step { start, step } ==> step >= 1,
        ensures
            r == self.spec_matches(v),
    {
        match self {
            CronField::Any => true,
            CronField::Literal(x) => v == *x,
            CronField::Step { start, step } => v >= *start && (v - *start) % *step == 0,
        }
    }
}

impl CronExpression {
    /// Every field well-formed for its calendar range.
    pub open spec fn wf(self) -> bool {
        &&& self.seconds.wf(field_lo(0), field_hi(0))
        &&& self.minutes.wf(field_lo(1), field_hi(1))
        &&& self.hours.wf(field_lo(2), field_hi(2))
        &&& self.day_of_month.wf(field_lo(3), field_hi(3))
        &&& self.month.wf(field_lo(4), field_hi(4))
        &&& self.day_of_week.wf(field_lo(5), field_hi(5))
    }

    /// Whether the expression is due at the reference time: every field
    /// matches the corresponding time field.
    pub open spec fn spec_is_due(self, t: TimeFields) -> bool {
        &&& self.seconds.spec_matches(t.second)
        &&& self.minutes.spec_matches(t.minute)
        &&& self.hours.spec_matches(t.hour)
        &&& self.day_of_month.spec_matches(t.day_of_month)
        &&& self.month.spec_matches(t.month)
        &&& self.day_of_week.spec_matches(t.day_of_week)
    }

    /// Whether the expression is due at the reference time. Pure and
    /// deterministic: the result is a function of `self` and `t` alone.
    pub fn is_due(&self, t: &TimeFields) -> (r: bool)
        requires
            self.wf(),
        ensures
            r == self.spec_is_due(*t),
    {
        self.seconds.matches_value(t.second) && self.minutes.matches_value(t.minute)
            && self.hours.matches_value(t.hour) && self.day_of_month.matches_value(t.day_of_month)
            && self.month.matches_value(t.month) && self.day_of_week.matches_value(t.day_of_week)
    }
}

/// Evaluation is deterministic and pure: any two results of `is_due` on
/// the same expression and reference time agree, since each equals the
/// specification function of that pair.
pub proof fn lemma_is_due_deterministic(c: CronExpression, t: TimeFields, r1: bool, r2: bool)
    requires
        r1 == c.spec_is_due(t),
        r2 == c.spec_is_due(t),
    ensures
        r1 == r2,
{
}

/// Space and tab separate the six fields of an expression.
pub open spec fn spec_is_space(c: char) -> bool {
    c == ' ' || c == '\t'
}

/// The ten decimal digit characters.
pub open spec fn spec_is_digit(c: char) -> bool {
    48 <= c as int <= 57
}

/// The numeric value of a digit character.
pub open spec fn digit_val(c: char) -> int {
    c as int - 48
}

/// Whether every character of `s` is a decimal digit.
pub open spec fn all_digits(s: Seq<char>) -> bool {
    forall|i: int| 0 <= i < s.len() ==> spec_is_digit(s[i])
}

/// The value of a digit string read in base ten.
pub open spec fn digits_val(s: Seq<char>) -> int
    decreases s.len(),
{
    if s.len() == 0 {
        0
    } else {
        digits_val(s.drop_last()) * 10 + digit_val(s.last())
    }
}

/// Splits `s` into its maximal runs of non-space characters, `cur` being
/// the run in progress.
pub open spec fn split_acc(s: Seq<char>, cur: Seq<char>) -> Seq<Seq<char>>
    decreases s.len(),
{
    if s.len() == 0 {
        if cur.len() == 0 {
            Seq::empty()
        } else {
            seq![cur]
        }
    } else if spec_is_space(s[0]) {
        if cur.len() == 0 {
            split_acc(s.drop_first(), Seq::empty())
        } else {
            seq![cur] + split_acc(s.drop_first(), Seq::empty())
        }
    } else {
        split_acc(s.drop_first(), cur.push(s[0]))
    }
}

/// The whitespace-separated fields of an expression, in order.
pub open spec fn spec_tokens(s: Seq<char>) -> Seq<Seq<char>> {
    split_acc(s, Seq::empty())
}

/// `k` is the position of the first `/` in `s`.
pub open spec fn first_slash_at(s: Seq<char>, k: int) -> bool {
    &&& 0 <= k < s.len()
    &&& s[k] == '/'
    &&& forall|j: int| 0 <= j < k ==> s[j] != '/'
}

/// What a single field of the grammar means, over the value range
/// `lo ..= hi`: `*`, a literal in range, or `start/step` with `start` in
/// range and `step` between 1 and the width of the range. Anything else
/// is rejected.
pub open spec fn spec_parse_field(s: Seq<char>, lo: u32, hi: u32) -> Option<CronField> {
    if s.len() == 1 && s[0] == '*' {
        Some(CronField::Any)
    } else if s.len() >= 1 && all_digits(s) {
        if lo <= digits_val(s) && digits_val(s) <= hi {
            Some(CronField::Literal(digits_val(s) as u32))
        } else {
            None
        }
    } else if exists|k: int| first_slash_at(s, k) {
        let k = choose|k: int| first_slash_at(s, k);
        let a = s.subrange(0, k);
        let b = s.subrange(k + 1, s.len() as int);
        if a.len() >= 1 && all_digits(a) && b.len() >= 1 && all_digits(b) && lo <= digits_val(a)
            && digits_val(a) <= hi && 1 <= digits_val(b) && digits_val(b) <= hi - lo + 1 {
            Some(
                CronField::Step { start: digits_val(a) as u32, step: digits_val(b) as u32 },
            )
        } else {
            None
        }
    } else {
        None
    }
}

/// What parsing a whole expression means: six fields, each well-formed
/// for its calendar range; a wrong field count and a bad field are told
/// apart in the error.
pub open spec fn spec_parse(s: Seq<char>) -> Result<CronExpression, ParseError> {
    let toks = spec_tokens(s);
    if toks.len() != 6 {
        Err(ParseError::WrongFieldCount)
    } else {
        match (
            spec_parse_field(toks[0], field_lo(0), field_hi(0)),
            spec_parse_field(toks[1], field_lo(1), field_hi(1)),
            spec_parse_field(toks[2], field_lo(2), field_hi(2)),
            spec_parse_field(toks[3], field_lo(3), field_hi(3)),
            spec_parse_field(toks[4], field_lo(4), field_hi(4)),
            spec_parse_field(toks[5], field_lo(5), field_hi(5)),
        ) {
            (Some(f0), Some(f1), Some(f2), Some(f3), Some(f4), Some(f5)) => Ok(
                CronExpression {
                    seconds: f0,
                    minutes: f1,
                    hours: f2,
                    day_of_month: f3,
                    month: f4,
                    day_of_week: f5,
                },
            ),
            _ => Err(ParseError::InvalidField),
        }
    }
}

/// A field the grammar accepts is well-formed for its range.
pub proof fn lemma_parse_field_wf(s: Seq<char>, lo: u32, hi: u32)
    requires
        lo <= hi,
        hi <= 59,
    ensures
        spec_parse_field(s, lo, hi) matches Some(f) ==> f.wf(lo, hi),
{
    if s.len() == 1 && s[0] == '*' {
    } else if s.len() >= 1 && all_digits(s) {
        if lo <= digits_val(s) && digits_val(s) <= hi {
            assert(CronField::Literal(digits_val(s) as u32).wf(lo, hi));
        }
    } else if exists|k: int| first_slash_at(s, k) {
        let k = choose|k: int| first_slash_at(s, k);
        let a = s.subrange(0, k);
        let b = s.subrange(k + 1, s.len() as int);
        if a.len() >= 1 && all_digits(a) && b.len() >= 1 && all_digits(b) && lo <= digits_val(a)
            && digits_val(a) <= hi && 1 <= digits_val(b) && digits_val(b) <= hi - lo + 1 {
            assert(CronField::Step {
                start: digits_val(a) as u32,
                step: digits_val(b) as u32,
            }.wf(lo, hi));
        }
    }
}

fn is_space_char(c: char) -> (r: bool)
    ensures
        r == spec_is_space(c),
{
    c == ' ' || c == '\t'
}

fn is_digit_char(c: char) -> (r: bool)
    ensures
        r == spec_is_digit(c),
{
    let u = c as u32;
    48 <= u && u <= 57
}

/// Reads `tok[from..to]` as a base-ten number. `None` means the range is
/// empty or holds a non-digit; values from 1000 up are saturated to 1000.
fn parse_number(tok: &Vec<char>, from: usize, to: usize) -> (r: Option<u32>)
    requires
        from <= to <= tok@.len(),
    ensures
        r is Some ==> to - from >= 1 && all_digits(tok@.subrange(from as int, to as int)),
        r matches Some(v) ==> (v < 1000 && v == digits_val(
            tok@.subrange(from as int, to as int),
        )) || (v == 1000 && digits_val(tok@.subrange(from as int, to as int)) >= 1000),
        r is None ==> to == from || !all_digits(tok@.subrange(from as int, to as int)),
{
    if to == from {
        return None;
    }
    let mut acc: u32 = 0;
    let mut i: usize = from;
    while i < to
        invariant
            from <= i <= to <= tok@.len(),
            all_digits(tok@.subrange(from as int, i as int)),
            acc <= 1000,
            (acc < 1000 && acc == digits_val(tok@.subrange(from as int, i as int))) || (acc == 1000
                && digits_val(tok@.subrange(from as int, i as int)) >= 1000),
        decreases to - i,
    {
        let c = tok[i];
        if !is_digit_char(c) {
            proof {
                assert(tok@.subrange(from as int, to as int)[i - from] == tok@[i as int]);
                assert(!all_digits(tok@.subrange(from as int, to as int)));
            }
            return None;
        }
        let d = c as u32 - 48;
        proof {
            let s1 = tok@.subrange(from as int, i + 1);
            assert(s1.drop_last() =~= tok@.subrange(from as int, i as int));
            assert(s1.last() == tok@[i as int]);
        }
        if acc >= 100 {
            acc = 1000;
        } else {
            acc = acc * 10 + d;
        }
        i += 1;
    }
    Some(acc)
}

/// Splits an expression into its whitespace-separated fields.
fn tokenize(expr: &str) -> (r: Vec<Vec<char>>)
    ensures
        r.deep_view() == spec_tokens(expr@),
{
    let n = expr.unicode_len();
    let mut chars: Vec<char> = Vec::new();
    let mut i: usize = 0;
    while i < n
        invariant
            i <= n,
            n == expr@.len(),
            chars@ =~= expr@.subrange(0, i as int),
        decreases n - i,
    {
        chars.push(expr.get_char(i));
        i += 1;
    }
    proof {
        assert(chars@ =~= expr@);
    }

    let mut tokens: Vec<Vec<char>> = Vec::new();
    let mut cur: Vec<char> = Vec::new();
    let mut j: usize = 0;
    while j < n
        invariant
            j <= n,
            n == chars@.len(),
            chars@ == expr@,
            spec_tokens(expr@) == tokens.deep_view() + split_acc(
                chars@.subrange(j as int, n as int),
                cur@,
            ),
        decreases n - j,
    {
        proof {
            let rest = chars@.subrange(j as int, n as int);
            assert(rest[0] == chars@[j as int]);
            assert(rest.drop_first() =~= chars@.subrange(j as int + 1, n as int));
        }
        let c = chars[j];
        if is_space_char(c) {
            if cur.len() > 0 {
                let ghost old_tokens = tokens.deep_view();
                let ghost finished = cur@;
                tokens.push(cur);
                cur = Vec::new();
                proof {
                    assert(tokens.deep_view() =~~= old_tokens.push(finished));
                    assert(old_tokens + (seq![finished] + split_acc(
                        chars@.subrange(j as int + 1, n as int),
                        Seq::empty(),
                    )) =~= tokens.deep_view() + split_acc(
                        chars@.subrange(j as int + 1, n as int),
                        Seq::empty(),
                    ));
                }
            } else {
                proof {
                    assert(cur@ =~= Seq::<char>::empty());
                }
            }
        } else {
            cur.push(c);
        }
        j += 1;
    }
    proof {
        assert(chars@.subrange(n as int, n as int) =~= Seq::<char>::empty());
    }
    if cur.len() > 0 {
        let ghost old_tokens = tokens.deep_view();
        let ghost finished = cur@;
        tokens.push(cur);
        proof {
            assert(tokens.deep_view() =~~= old_tokens.push(finished));
            assert(old_tokens + seq![finished] =~= tokens.deep_view());
        }
    } else {
        proof {
            assert(tokens.deep_view() + Seq::<Seq<char>>::empty() =~= tokens.deep_view());
        }
    }
    tokens
}

/// The position of the first `/` in the token, if any.
fn find_slash(tok: &Vec<char>) -> (r: Option<usize>)
    ensures
        r matches Some(k) ==> first_slash_at(tok@, k as int),
        r is None ==> forall|j: int| 0 <= j < tok@.len() ==> tok@[j] != '/',
{
    let n = tok.len();
    let mut i: usize = 0;
    while i < n
        invariant
            i <= n,
            n == tok@.len(),
            forall|j: int| 0 <= j < i ==> tok@[j] != '/',
        decreases n - i,
    {
        if tok[i] == '/' {
            return Some(i);
        }
        i += 1;
    }
    None
}

/// Parses one field over the value range `lo ..= hi`.
fn parse_field(tok: &Vec<char>, lo: u32, hi: u32) -> (r: Option<CronField>)
    requires
        lo <= hi,
        hi <= 59,
    ensures
        r == spec_parse_field(tok@, lo, hi),
{
    let n = tok.len();
    if n == 1 && tok[0] == '*' {
        return Some(CronField::Any);
    }

    match find_slash(tok) {
        None => {
            proof {
                assert forall|k: int| !first_slash_at(tok@, k) by {
                    if 0 <= k < tok@.len() {
                        assert(tok@[k] != '/');
                    }
                }
            }
            match parse_number(tok, 0, n) {
                Some(v) => {
                    proof {
                        assert(tok@.subrange(0, n as int) =~= tok@);
                    }
                    if lo <= v && v <= hi {
                        Some(CronField::Literal(v))
                    } else {
                        None
                    }
                },
                None => None,
            }
        },
        Some(k) => {
            proof {
                assert(first_slash_at(tok@, k as int));
                let kk = choose|kk: int| first_slash_at(tok@, kk);
                if kk < k {
                    assert(tok@[kk] == '/');
                    assert(false);
                }
                if kk > k {
                    assert(tok@[k as int] == '/');
                    assert(false);
                }
                assert(kk == k);
                assert(!spec_is_digit('/'));
                assert(!all_digits(tok@));
                assert(!(tok@.len() == 1 && tok@[0] == '*'));
            }
            let a = parse_number(tok, 0, k);
            let b = parse_number(tok, k + 1, n);
            match (a, b) {
                (Some(va), Some(vb)) => {
                    if lo <= va && va <= hi && 1 <= vb && vb <= hi - lo + 1 {
                        Some(CronField::Step { start: va, step: vb })
                    } else {
                        None
                    }
                },
                _ => None,
            }
        },
    }
}

/// Parses a six-field cron expression. Returns `Ok` exactly on the
/// expressions the grammar in `spec_parse` accepts; the compiled
/// expression is then well-formed. Never panics.
pub fn parse(expr: &str) -> (r: Result<CronExpression, ParseError>)
    ensures
        r == spec_parse(expr@),
        r matches Ok(c) ==> c.wf(),
{
    let tokens = tokenize(expr);
    if tokens.len() != 6 {
        return Err(ParseError::WrongFieldCount);
    }
    proof {
        assert(tokens.deep_view().len() == 6);
        assert forall|i: int| 0 <= i < 6 implies tokens@[i]@ == spec_tokens(expr@)[i] by {
            assert(tokens.deep_view()[i] == tokens@[i].deep_view());
        }
        lemma_parse_field_wf(spec_tokens(expr@)[0], field_lo(0), field_hi(0));
        lemma_parse_field_wf(spec_tokens(expr@)[1], field_lo(1), field_hi(1));
        lemma_parse_field_wf(spec_tokens(expr@)[2], field_lo(2), field_hi(2));
        lemma_parse_field_wf(spec_tokens(expr@)[3], field_lo(3), field_hi(3));
        lemma_parse_field_wf(spec_tokens(expr@)[4], field_lo(4), field_hi(4));
        lemma_parse_field_wf(spec_tokens(expr@)[5], field_lo(5), field_hi(5));
    }
    let f0 = parse_field(&tokens[0], 0, 59);
    let f1 = parse_field(&tokens[1], 0, 59);
    let f2 = parse_field(&tokens[2], 0, 23);
    let f3 = parse_field(&tokens[3], 1, 31);
    let f4 = parse_field(&tokens[4], 1, 12);
    let f5 = parse_field(&tokens[5], 0, 6);
    match (f0, f1, f2, f3, f4, f5) {
        (Some(s0), Some(s1), Some(s2), Some(s3), Some(s4), Some(s5)) => Ok(
            CronExpression {
                seconds: s0,
                minutes: s1,
                hours: s2,
                day_of_month: s3,
                month: s4,
                day_of_week: s5,
            },
        ),
        _ => Err(ParseError::InvalidField),
    }
}

} // verus!

