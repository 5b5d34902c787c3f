//! Signed durations with nanosecond precision, as `chrono`'s `TimeDelta` counts them: at most
//! `i64::MAX` milliseconds either way, built from a count of some unit and read back as whole
//! counts of a unit, rounded toward zero.
use vstd::prelude::*;
use crate::datetime::{offset_string, offset_string_spec, DateTimeError};
use crate::httpserver::RouteTimeout;
use crate::text::{decimal, digit_char};
use vstd::arithmetic::div_mod::{
    lemma_div_denominator, lemma_div_is_ordered_by_denominator, lemma_div_pos_is_pos, lemma_fundamental_div_mod,
    lemma_fundamental_div_mod_converse,
};

verus! {

/// The most nanoseconds a duration holds either way: `i64::MAX` milliseconds.
pub open spec fn max_duration_nanos() -> int {
    9_223_372_036_854_775_807int * 1_000_000int
}

/// Whether `n` nanoseconds make a duration.
pub open spec fn duration_in_range(n: int) -> bool {
    -max_duration_nanos() <= n <= max_duration_nanos()
}

/// Division by a positive `b`, rounded toward zero as Rust's `/` rounds.
pub open spec fn trunc_div(a: int, b: int) -> int {
    if a >= 0 {
        a / b
    } else {
        -((-a) / b)
    }
}

/// A signed duration. It is held as whole seconds, rounded down, and the nanoseconds left
/// over; its view is its length in nanoseconds.
#[derive(Debug, Clone, Copy, PartialEq, Eq, Structural)]
pub struct TimeDelta {
    secs: i64,
    nanos: u32,
}

impl View for TimeDelta {
    type V = int;

    closed spec fn view(&self) -> int {
        self.secs * 1_000_000_000 + self.nanos
    }
}

impl TimeDelta {
    #[verifier::type_invariant]
    spec fn well_formed(self) -> bool {
        &&& self.nanos < 1_000_000_000
        &&& duration_in_range(self.secs * 1_000_000_000 + self.nanos)
    }

    /// The duration of `secs` seconds and `nanos` nanoseconds more.
    pub(crate) fn from_parts(secs: i64, nanos: u32) -> (r: TimeDelta)
        requires
            nanos < 1_000_000_000,
            duration_in_range(secs * 1_000_000_000 + nanos),
        ensures
            r@ == secs * 1_000_000_000 + nanos,
    {
        TimeDelta { secs, nanos }
    }

    /// The duration's whole seconds, rounded down, and the nanoseconds left over.
    pub(crate) fn parts(&self) -> (r: (i64, u32))
        ensures
            r.1 < 1_000_000_000,
            r.0 * 1_000_000_000 + r.1 == self@,
            duration_in_range(self@),
    {
        proof {
            use_type_invariant(self);
        }
        (self.secs, self.nanos)
    }

    /// The duration of `seconds` seconds, where one can be had.
    fn whole_seconds(seconds: i64) -> (r: Option<TimeDelta>)
        ensures
            duration_in_range(seconds * 1_000_000_000) ==> (r matches Some(d) && d@ == seconds * 1_000_000_000),
            !duration_in_range(seconds * 1_000_000_000) ==> r is None,
    {
        if -9_223_372_036_854_775 <= seconds && seconds <= 9_223_372_036_854_775 {
            Some(TimeDelta::from_parts(seconds, 0))
        } else {
            None
        }
    }

    /// The duration of `weeks` weeks; refused where it would leave the range.
    pub fn from_weeks(weeks: i64) -> (r: Result<TimeDelta, DateTimeError>)
        ensures
            duration_in_range(weeks * 604_800_000_000_000) ==> (r matches Ok(d) && d@ == weeks * 604_800_000_000_000),
            !duration_in_range(weeks * 604_800_000_000_000) ==> r == Err::<TimeDelta, DateTimeError>(DateTimeError::InvalidWeeks),
    {
        match weeks.checked_mul(604_800) {
            Some(s) => match TimeDelta::whole_seconds(s) {
                Some(d) => Ok(d),
                None => Err(DateTimeError::InvalidWeeks),
            },
            None => Err(DateTimeError::InvalidWeeks),
        }
    }

    /// The duration of `days` days; refused where it would leave the range.
    pub fn from_days(days: i64) -> (r: Result<TimeDelta, DateTimeError>)
        ensures
            duration_in_range(days * 86_400_000_000_000) ==> (r matches Ok(d) && d@ == days * 86_400_000_000_000),
            !duration_in_range(days * 86_400_000_000_000) ==> r == Err::<TimeDelta, DateTimeError>(DateTimeError::InvalidDays),
    {
        match days.checked_mul(86_400) {
            Some(s) => match TimeDelta::whole_seconds(s) {
                Some(d) => Ok(d),
                None => Err(DateTimeError::InvalidDays),
            },
            None => Err(DateTimeError::InvalidDays),
        }
    }

    /// The duration of `hours` hours; refused where it would leave the range.
    pub fn from_hours(hours: i64) -> (r: Result<TimeDelta, DateTimeError>)
        ensures
            duration_in_range(hours * 3_600_000_000_000) ==> (r matches Ok(d) && d@ == hours * 3_600_000_000_000),
            !duration_in_range(hours * 3_600_000_000_000) ==> r == Err::<TimeDelta, DateTimeError>(DateTimeError::InvalidHours),
    {
        match hours.checked_mul(3_600) {
            Some(s) => match TimeDelta::whole_seconds(s) {
                Some(d) => Ok(d),
                None => Err(DateTimeError::InvalidHours),
            },
            None => Err(DateTimeError::InvalidHours),
        }
    }

    /// The duration of `minutes` minutes; refused where it would leave the range.
    pub fn from_minutes(minutes: i64) -> (r: Result<TimeDelta, DateTimeError>)
        ensures
            duration_in_range(minutes * 60_000_000_000) ==> (r matches Ok(d) && d@ == minutes * 60_000_000_000),
            !duration_in_range(minutes * 60_000_000_000) ==> r == Err::<TimeDelta, DateTimeError>(DateTimeError::InvalidMinutes),
    {
        match minutes.checked_mul(60) {
            Some(s) => match TimeDelta::whole_seconds(s) {
                Some(d) => Ok(d),
                None => Err(DateTimeError::InvalidMinutes),
            },
            None => Err(DateTimeError::InvalidMinutes),
        }
    }

    /// The duration of `seconds` seconds; refused where it would leave the range.
    pub fn from_seconds(seconds: i64) -> (r: Result<TimeDelta, DateTimeError>)
        ensures
            duration_in_range(seconds * 1_000_000_000) ==> (r matches Ok(d) && d@ == seconds * 1_000_000_000),
            !duration_in_range(seconds * 1_000_000_000) ==> r == Err::<TimeDelta, DateTimeError>(DateTimeError::InvalidSeconds),
    {
        match TimeDelta::whole_seconds(seconds) {
            Some(d) => Ok(d),
            None => Err(DateTimeError::InvalidSeconds),
        }
    }

    /// The duration of `millis` milliseconds; refused where it would leave the range, which
    /// only `i64::MIN` does.
    pub fn from_millis(millis: i64) -> (r: Result<TimeDelta, DateTimeError>)
        ensures
            duration_in_range(millis * 1_000_000) ==> (r matches Ok(d) && d@ == millis * 1_000_000),
            !duration_in_range(millis * 1_000_000) ==> r == Err::<TimeDelta, DateTimeError>(DateTimeError::InvalidMillis),
    {
        if millis == i64::MIN {
            return Err(DateTimeError::InvalidMillis);
        }
        let secs = match millis.checked_div_euclid(1000) {
            Some(q) => q,
            None => return Err(DateTimeError::InvalidMillis),
        };
        let rem = match millis.checked_rem_euclid(1000) {
            Some(m) => m,
            None => return Err(DateTimeError::InvalidMillis),
        };
        assert(millis == secs * 1000 + rem) by {
            vstd::arithmetic::div_mod::lemma_fundamental_div_mod(millis as int, 1000);
        }
        let nanos: u32 = (rem as u32) * 1_000_000;
        Ok(TimeDelta::from_parts(secs, nanos))
    }

    /// The duration of `micros` microseconds; every count of them is one.
    pub fn from_micros(micros: i64) -> (r: TimeDelta)
        ensures
            r@ == micros * 1_000,
    {
        let secs = match micros.checked_div_euclid(1_000_000) {
            Some(q) => q,
            None => 0,
        };
        let rem = match micros.checked_rem_euclid(1_000_000) {
            Some(m) => m,
            None => 0,
        };
        assert(micros == secs * 1_000_000 + rem && 0 <= rem < 1_000_000) by {
            vstd::arithmetic::div_mod::lemma_fundamental_div_mod(micros as int, 1_000_000);
        }
        let nanos: u32 = (rem as u32) * 1_000;
        TimeDelta::from_parts(secs, nanos)
    }

    /// The duration of `nanos` nanoseconds; every count of them is one.
    pub fn from_nanos(nanos: i64) -> (r: TimeDelta)
        ensures
            r@ == nanos,
    {
        let secs = match nanos.checked_div_euclid(1_000_000_000) {
            Some(q) => q,
            None => 0,
        };
        let rem = match nanos.checked_rem_euclid(1_000_000_000) {
            Some(m) => m,
            None => 0,
        };
        assert(nanos == secs * 1_000_000_000 + rem && 0 <= rem < 1_000_000_000) by {
            vstd::arithmetic::div_mod::lemma_fundamental_div_mod(nanos as int, 1_000_000_000);
        }
        TimeDelta::from_parts(secs, rem as u32)
    }
}

/// `a / b` rounded toward zero, for a positive `b`.
fn div_toward_zero(a: i64, b: i64) -> (r: i64)
    requires
        b > 0,
        a > i64::MIN,
    ensures
        r == trunc_div(a as int, b as int),
        a >= 0 ==> 0 <= r <= a,
        a < 0 ==> a <= r <= 0,
{
    proof {
        let m: int = if a >= 0 { a as int } else { -a };
        lemma_div_pos_is_pos(m, b as int);
        lemma_div_is_ordered_by_denominator(m, 1, b as int);
    }
    if a >= 0 {
        a / b
    } else {
        let m: i64 = -a;
        -(m / b)
    }
}

/// Dividing twice, each time rounding toward zero, is dividing once by the product.
proof fn lemma_trunc_div_twice(v: int, b: int, c: int)
    requires
        b > 0,
        c > 0,
    ensures
        trunc_div(trunc_div(v, b), c) == trunc_div(v, b * c),
{
    if v >= 0 {
        lemma_div_pos_is_pos(v, b);
        lemma_div_denominator(v, b, c);
    } else {
        lemma_div_pos_is_pos(-v, b);
        lemma_div_pos_is_pos((-v) / b, c);
        lemma_div_denominator(-v, b, c);
    }
}

/// A duration built from a count of a unit reads back that count in the unit: `n * unit`
/// nanoseconds, counted in whole `unit`s and rounded toward zero, are `n` of them. So a
/// duration made `from_weeks(n)` has `weeks()` equal to `n`, and so on for each unit.
pub proof fn lemma_count_round_trip(n: int, unit: int)
    requires
        unit > 0,
    ensures
        trunc_div(n * unit, unit) == n,
{
    if n >= 0 {
        vstd::arithmetic::mul::lemma_mul_nonnegative(n, unit);
        lemma_fundamental_div_mod_converse(n * unit, unit, n, 0);
    } else {
        vstd::arithmetic::mul::lemma_mul_strictly_positive(-n, unit);
        vstd::arithmetic::mul::lemma_mul_unary_negation(n, unit);
        lemma_fundamental_div_mod_converse((-n) * unit, unit, -n, 0);
    }
}

/// The text of a count of nanoseconds below a second as `chrono` writes it after a decimal
/// point: nine digits, with the zeros at their end dropped.
pub open spec fn fraction_text(f: nat) -> Seq<char> {
    trim_trailing_zeros(fixed_digits(f, 9))
}

/// The last `width` decimal digits of `n`, zeros in front where it has fewer.
pub open spec fn fixed_digits(n: nat, width: nat) -> Seq<char>
    decreases width,
{
    if width == 0 {
        seq![]
    } else {
        fixed_digits(n / 10, (width - 1) as nat).push(digit_char(n % 10))
    }
}

/// `s` without the zeros at its end.
pub open spec fn trim_trailing_zeros(s: Seq<char>) -> Seq<char>
    decreases s.len(),
{
    if s.len() > 0 && s.last() == '0' {
        trim_trailing_zeros(s.drop_last())
    } else {
        s
    }
}

/// The ISO 8601 text of a duration of `n` nanoseconds, as `chrono` writes it: `P0D` for none;
/// else a `-` for a negative one, `PT`, the whole seconds of its length, a point and the rest
/// of a second where there is one, and `S`.
pub open spec fn iso_duration_text(n: int) -> Seq<char> {
    let a = if n < 0 { -n } else { n };
    if a == 0 {
        "P0D"@
    } else {
        (if n < 0 { "-"@ } else { ""@ }) + "PT"@ + decimal((a / 1_000_000_000) as nat) + (if a
            % 1_000_000_000 > 0 {
            seq!['.'] + fraction_text((a % 1_000_000_000) as nat)
        } else {
            ""@
        }) + "S"@
    }
}

/// `chrono`'s ISO 8601 text of a duration (`TimeDelta`'s `Display`), for the duration of
/// `secs` seconds and `nanos` nanoseconds more. The contract states what its source writes.
#[verifier::external_body]
fn iso_text(secs: i64, nanos: u32) -> (r: String)
    requires
        nanos < 1_000_000_000,
        duration_in_range(secs * 1_000_000_000 + nanos),
    ensures
        r@ == iso_duration_text(secs * 1_000_000_000 + nanos),
{
    match chrono::TimeDelta::new(secs, nanos) {
        Some(d) => d.to_string(),
        None => String::new(),
    }
}

impl TimeDelta {
    /// Whole seconds rounded toward zero, and the nanoseconds left over, which carry the
    /// duration's sign.
    fn signed_parts(&self) -> (r: (i64, i32))
        ensures
            r.0 == trunc_div(self@, 1_000_000_000),
            -9_223_372_036_854_775 <= r.0 <= 9_223_372_036_854_775,
            r.0 * 1_000_000_000 + r.1 == self@,
            self@ >= 0 ==> 0 <= r.1 < 1_000_000_000,
            self@ < 0 ==> -1_000_000_000 < r.1 <= 0,
            duration_in_range(self@),
    {
        proof {
            use_type_invariant(self);
        }
        if self.secs < 0 && self.nanos > 0 {
            proof {
                lemma_fundamental_div_mod_converse(
                    -self@,
                    1_000_000_000,
                    -self.secs - 1,
                    1_000_000_000 - self.nanos,
                );
            }
            let sub: i32 = (self.nanos as i32) - 1_000_000_000;
            (self.secs + 1, sub)
        } else {
            proof {
                if self.secs >= 0 {
                    lemma_fundamental_div_mod_converse(self@, 1_000_000_000, self.secs as int, self.nanos as int);
                } else {
                    lemma_fundamental_div_mod_converse(-self@, 1_000_000_000, -self.secs, 0);
                }
            }
            (self.secs, self.nanos as i32)
        }
    }

    /// Whole seconds, rounded toward zero.
    pub fn seconds(&self) -> (r: i64)
        ensures
            r == trunc_div(self@, 1_000_000_000),
            -9_223_372_036_854_775 <= r <= 9_223_372_036_854_775,
    {
        self.signed_parts().0
    }

    /// Whole minutes, rounded toward zero.
    pub fn minutes(&self) -> (r: i64)
        ensures
            r == trunc_div(self@, 60_000_000_000),
    {
        let s = self.seconds();
        proof {
            lemma_trunc_div_twice(self@, 1_000_000_000, 60);
        }
        div_toward_zero(s, 60)
    }

    /// Whole hours, rounded toward zero.
    pub fn hours(&self) -> (r: i64)
        ensures
            r == trunc_div(self@, 3_600_000_000_000),
    {
        let s = self.seconds();
        proof {
            lemma_trunc_div_twice(self@, 1_000_000_000, 3_600);
        }
        div_toward_zero(s, 3_600)
    }

    /// Whole days, rounded toward zero.
    pub fn days(&self) -> (r: i64)
        ensures
            r == trunc_div(self@, 86_400_000_000_000),
    {
        let s = self.seconds();
        proof {
            lemma_trunc_div_twice(self@, 1_000_000_000, 86_400);
        }
        div_toward_zero(s, 86_400)
    }

    /// Whole weeks, rounded toward zero.
    pub fn weeks(&self) -> (r: i64)
        ensures
            r == trunc_div(self@, 604_800_000_000_000),
    {
        let d = self.days();
        proof {
            lemma_trunc_div_twice(self@, 86_400_000_000_000, 7);
        }
        div_toward_zero(d, 7)
    }

    /// Whole milliseconds, rounded toward zero.
    pub fn millis(&self) -> (r: i64)
        ensures
            r == trunc_div(self@, 1_000_000),
    {
        let (s, sub) = self.signed_parts();
        let part = div_toward_zero(sub as i64, 1_000_000);
        proof {
            let v = self@;
            if v >= 0 {
                lemma_fundamental_div_mod(sub as int, 1_000_000);
                lemma_fundamental_div_mod_converse(v, 1_000_000, s * 1000 + (sub as int) / 1_000_000, (sub as int) % 1_000_000);
            } else {
                lemma_fundamental_div_mod(-sub, 1_000_000);
                lemma_fundamental_div_mod_converse(-v, 1_000_000, -s * 1000 + (-sub) / 1_000_000, (-sub) % 1_000_000);
            }
            assert(s * 1000 + part == trunc_div(v, 1_000_000));
            assert(-9_223_372_036_854_775_807 <= trunc_div(v, 1_000_000) <= 9_223_372_036_854_775_807);
        }
        s * 1000 + part
    }

    /// Whole microseconds, rounded toward zero, where their count fits in an `i64`.
    pub fn micros(&self) -> (r: Option<i64>)
        ensures
            r == (if i64::MIN <= trunc_div(self@, 1_000) <= i64::MAX {
                Some(trunc_div(self@, 1_000) as i64)
            } else {
                None
            }),
    {
        let (s, sub) = self.signed_parts();
        let part = div_toward_zero(sub as i64, 1_000);
        proof {
            let v = self@;
            if v >= 0 {
                lemma_fundamental_div_mod(sub as int, 1_000);
                lemma_fundamental_div_mod_converse(v, 1_000, s * 1_000_000 + (sub as int) / 1_000, (sub as int) % 1_000);
            } else {
                lemma_fundamental_div_mod(-sub, 1_000);
                lemma_fundamental_div_mod_converse(-v, 1_000, -s * 1_000_000 + (-sub) / 1_000, (-sub) % 1_000);
            }
            assert(s * 1_000_000 + part == trunc_div(v, 1_000));
        }
        match s.checked_mul(1_000_000) {
            Some(whole) => whole.checked_add(part),
            None => None,
        }
    }

    /// The length in nanoseconds, where it fits in an `i64`.
    pub fn nanos(&self) -> (r: Option<i64>)
        ensures
            r == (if i64::MIN <= self@ <= i64::MAX { Some(self@ as i64) } else { None }),
    {
        let (s, sub) = self.signed_parts();
        match s.checked_mul(1_000_000_000) {
            Some(whole) => whole.checked_add(sub as i64),
            None => None,
        }
    }

    /// The sum of two durations; it must stay in range.
    pub fn plus(&self, other: &TimeDelta) -> (r: TimeDelta)
        requires
            duration_in_range(self@ + other@),
        ensures
            r@ == self@ + other@,
    {
        proof {
            use_type_invariant(self);
            use_type_invariant(other);
        }
        let mut secs: i64 = self.secs + other.secs;
        let mut nanos: u32 = self.nanos + other.nanos;
        if nanos >= 1_000_000_000 {
            nanos = nanos - 1_000_000_000;
            secs = secs + 1;
        }
        TimeDelta::from_parts(secs, nanos)
    }

    /// This duration less `other`; the difference must stay in range.
    pub fn minus(&self, other: &TimeDelta) -> (r: TimeDelta)
        requires
            duration_in_range(self@ - other@),
        ensures
            r@ == self@ - other@,
    {
        proof {
            use_type_invariant(self);
            use_type_invariant(other);
        }
        let mut secs: i64 = self.secs - other.secs;
        let nanos: u32 = if self.nanos >= other.nanos {
            self.nanos - other.nanos
        } else {
            secs = secs - 1;
            self.nanos + 1_000_000_000 - other.nanos
        };
        TimeDelta::from_parts(secs, nanos)
    }

    /// Whether two durations are of one length.
    pub fn equals(&self, other: &TimeDelta) -> (r: bool)
        ensures
            r == (self@ == other@),
    {
        proof {
            use_type_invariant(self);
            use_type_invariant(other);
        }
        self.secs == other.secs && self.nanos == other.nanos
    }

    /// Whether this duration is shorter than `other`, signs counted.
    pub fn is_less_than(&self, other: &TimeDelta) -> (r: bool)
        ensures
            r == (self@ < other@),
    {
        proof {
            use_type_invariant(self);
            use_type_invariant(other);
        }
        self.secs < other.secs || (self.secs == other.secs && self.nanos < other.nanos)
    }

    /// Whether this duration is at most `other`, signs counted.
    pub fn is_at_most(&self, other: &TimeDelta) -> (r: bool)
        ensures
            r == (self@ <= other@),
    {
        proof {
            use_type_invariant(self);
            use_type_invariant(other);
        }
        self.secs < other.secs || (self.secs == other.secs && self.nanos <= other.nanos)
    }

    /// The duration as an offset from UTC: its sign, whole hours and whole minutes within the
    /// hour, as in `+05:30`.
    pub fn offset_string(&self) -> (r: String)
        ensures
            r@ == offset_string_spec(
                trunc_div(self@, 1_000_000_000),
                trunc_div(self@, 3_600_000_000_000),
                trunc_div(self@, 60_000_000_000),
            ),
    {
        offset_string(self.seconds(), self.hours(), self.minutes())
    }

    /// The duration as a route's timeout (as `chrono`'s `to_std` turns it into a standard
    /// duration): its whole seconds and the nanoseconds past them; a negative duration is
    /// refused.
    pub fn to_route_timeout(&self) -> (r: Result<RouteTimeout, DateTimeError>)
        ensures
            self@ < 0 ==> r == Err::<RouteTimeout, DateTimeError>(DateTimeError::NegativeDuration),
            self@ >= 0 ==> (r matches Ok(t) && t.secs == self@ / 1_000_000_000 && t.nanos == self@ % 1_000_000_000),
    {
        proof {
            use_type_invariant(self);
            if self.secs >= 0 {
                lemma_fundamental_div_mod_converse(self@, 1_000_000_000, self.secs as int, self.nanos as int);
            }
        }
        if self.secs < 0 {
            Err(DateTimeError::NegativeDuration)
        } else {
            Ok(RouteTimeout { secs: self.secs as u64, nanos: self.nanos })
        }
    }

    /// The duration's ISO 8601 text, as in `PT10S` or `-PT1.5S`.
    pub fn to_string(&self) -> (r: String)
        ensures
            r@ == iso_duration_text(self@),
    {
        proof {
            use_type_invariant(self);
        }
        iso_text(self.secs, self.nanos)
    }
}

} // verus!
