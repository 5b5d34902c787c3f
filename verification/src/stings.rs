//! Stings: their states and targets in text form, and the per-target sums of sting aggregates.
use std::collections::HashMap;
use vstd::prelude::*;
use crate::text::{append_str, decimal, format_u64, parse_u64, parse_u64_spec, str_eq};

verus! {

broadcast use vstd::std_specs::hash::group_hash_axioms;

/// The state of a sting.
#[derive(Debug, Clone, Copy, PartialEq, Eq, Structural, Hash, Default)]
pub enum StingState {
    #[default]
    Active,
    Voided,
    Handled,
}

/// Who created a sting, or whom it targets: a user (by id) or the system.
#[derive(Debug, Clone, Copy, PartialEq, Eq, Structural)]
pub enum StingTarget {
    User(u64),
    System,
}

/// Why a sting state or target could not be read from text.
#[derive(Debug, Clone, PartialEq, Eq)]
pub enum StingParseError {
    /// Not one of `active`, `voided`, `handled`; holds the input.
    InvalidState(String),
    /// Neither `system` nor `user:<id>`; holds the input.
    InvalidCreator(String),
    /// `user:` followed by something that is not a user id; holds what followed.
    InvalidUserId(String),
}

/// The text form of a state.
pub open spec fn state_text(s: StingState) -> Seq<char> {
    match s {
        StingState::Active => seq!['a', 'c', 't', 'i', 'v', 'e'],
        StingState::Voided => seq!['v', 'o', 'i', 'd', 'e', 'd'],
        StingState::Handled => seq!['h', 'a', 'n', 'd', 'l', 'e', 'd'],
    }
}

/// What reading `s` as a state gives.
pub open spec fn parse_state_spec(s: Seq<char>) -> Option<StingState> {
    if s == state_text(StingState::Active) {
        Some(StingState::Active)
    } else if s == state_text(StingState::Voided) {
        Some(StingState::Voided)
    } else if s == state_text(StingState::Handled) {
        Some(StingState::Handled)
    } else {
        None
    }
}

/// The text `system`.
pub open spec fn system_text() -> Seq<char> {
    seq!['s', 'y', 's', 't', 'e', 'm']
}

/// The prefix `user:`.
pub open spec fn user_prefix() -> Seq<char> {
    seq!['u', 's', 'e', 'r', ':']
}

/// The text form of a target: `system`, or `user:` followed by the id in decimal.
pub open spec fn target_text(t: StingTarget) -> Seq<char> {
    match t {
        StingTarget::System => system_text(),
        StingTarget::User(id) => user_prefix() + decimal(id as nat),
    }
}

/// What reading `s` as a target gives: `None` where `s` is not `system` and does not start
/// with `user:`; `Some(None)` where the id after `user:` is not a `u64`.
pub open spec fn parse_target_spec(s: Seq<char>) -> Option<Option<StingTarget>> {
    if s == system_text() {
        Some(Some(StingTarget::System))
    } else if s.len() >= 5 && s.take(5) == user_prefix() {
        match parse_u64_spec(s.skip(5)) {
            Some(id) => Some(Some(StingTarget::User(id))),
            None => Some(None),
        }
    } else {
        None
    }
}

impl StingState {
    /// The text form: `active`, `voided` or `handled`.
    pub fn to_string(&self) -> (r: String)
        ensures
            r@ == state_text(*self),
    {
        let s = match self {
            StingState::Active => "active",
            StingState::Voided => "voided",
            StingState::Handled => "handled",
        };
        proof {
            reveal_strlit("active");
            reveal_strlit("voided");
            reveal_strlit("handled");
            assert("active"@ =~= state_text(StingState::Active));
            assert("voided"@ =~= state_text(StingState::Voided));
            assert("handled"@ =~= state_text(StingState::Handled));
        }
        s.to_owned()
    }

    /// Reads a state from its text form.
    pub fn from_str(s: &str) -> (r: Result<StingState, StingParseError>)
        ensures
            match parse_state_spec(s@) {
                Some(st) => r == Ok::<StingState, StingParseError>(st),
                None => r matches Err(StingParseError::InvalidState(t)) && t@ == s@,
            },
    {
        proof {
            reveal_strlit("active");
            reveal_strlit("voided");
            reveal_strlit("handled");
            assert("active"@ =~= state_text(StingState::Active));
            assert("voided"@ =~= state_text(StingState::Voided));
            assert("handled"@ =~= state_text(StingState::Handled));
        }
        if str_eq(s, "active") {
            Ok(StingState::Active)
        } else if str_eq(s, "voided") {
            Ok(StingState::Voided)
        } else if str_eq(s, "handled") {
            Ok(StingState::Handled)
        } else {
            Err(StingParseError::InvalidState(s.to_owned()))
        }
    }
}

impl StingTarget {
    /// The text form: `system`, or `user:<id>`.
    pub fn to_string(&self) -> (r: String)
        ensures
            r@ == target_text(*self),
    {
        proof {
            reveal_strlit("system");
            reveal_strlit("user:");
            assert("system"@ =~= system_text());
            assert("user:"@ =~= user_prefix());
        }
        match self {
            StingTarget::System => "system".to_owned(),
            StingTarget::User(id) => {
                let mut s = "user:".to_owned();
                let digits = format_u64(*id);
                append_str(&mut s, digits.as_str());
                s
            },
        }
    }

    /// Reads a target from its text form.
    pub fn from_str(s: &str) -> (r: Result<StingTarget, StingParseError>)
        ensures
            r matches Ok(t) ==> parse_target_spec(s@) == Some(Some(t)),
            r matches Err(e) ==> match e {
                StingParseError::InvalidCreator(t) => parse_target_spec(s@) is None && t@ == s@,
                StingParseError::InvalidUserId(t) => parse_target_spec(s@) == Some(
                    None::<StingTarget>,
                ) && t@ == s@.skip(5),
                StingParseError::InvalidState(_) => false,
            },
            parse_target_spec(s@) matches Some(Some(t)) ==> r == Ok::<StingTarget, StingParseError>(t),
    {
        proof {
            reveal_strlit("system");
            reveal_strlit("user:");
            assert("system"@ =~= system_text());
            assert("user:"@ =~= user_prefix());
        }
        if str_eq(s, "system") {
            return Ok(StingTarget::System);
        }
        let n = s.unicode_len();
        if n >= 5 {
            let head = s.substring_char(0, 5);
            if str_eq(head, "user:") {
                let rest = s.substring_char(5, n);
                assert(s@.take(5) =~= head@);
                assert(s@.skip(5) =~= rest@);
                return match parse_u64(rest) {
                    Some(id) => Ok(StingTarget::User(id)),
                    None => Err(StingParseError::InvalidUserId(rest.to_owned())),
                };
            }
            assert(s@.take(5) =~= head@);
        }
        Err(StingParseError::InvalidCreator(s.to_owned()))
    }
}

/// Reading the text form of a state gives the state back.
pub proof fn lemma_state_text_roundtrip(st: StingState)
    ensures
        parse_state_spec(state_text(st)) == Some(st),
{
    assert(state_text(StingState::Active) != state_text(StingState::Voided));
    assert(state_text(StingState::Active) != state_text(StingState::Handled));
    assert(state_text(StingState::Voided) != state_text(StingState::Handled));
}

/// Reading the text form of a target gives the target back.
pub proof fn lemma_target_text_roundtrip(t: StingTarget)
    ensures
        parse_target_spec(target_text(t)) == Some(Some(t)),
{
    match t {
        StingTarget::System => {
            assert(system_text().take(5) != user_prefix());
        },
        StingTarget::User(id) => {
            let s = target_text(t);
            assert(s.take(5) =~= user_prefix());
            assert(s.skip(5) =~= decimal(id as nat));
            assert(s[0] != system_text()[0]);
            crate::text::lemma_parse_decimal(id);
        },
    }
}

/// An aggregate of stings: how many stings (`total_stings`) a target holds from a source.
#[derive(Debug, Clone)]
pub struct StingAggregate {
    pub src: Option<String>,
    pub target: StingTarget,
    pub total_stings: i64,
}

/// Whether `x` fits in an `i64`.
pub open spec fn fits_i64(x: int) -> bool {
    i64::MIN <= x <= i64::MAX
}

/// The sum of all totals in `s`.
pub open spec fn sum_totals(s: Seq<StingAggregate>) -> int
    decreases s.len(),
{
    if s.len() == 0 {
        0
    } else {
        sum_totals(s.drop_last()) + s.last().total_stings
    }
}

/// The sum of the totals in `s` that target the system.
pub open spec fn system_total(s: Seq<StingAggregate>) -> int
    decreases s.len(),
{
    if s.len() == 0 {
        0
    } else {
        system_total(s.drop_last()) + if s.last().target == StingTarget::System {
            s.last().total_stings as int
        } else {
            0
        }
    }
}

/// The sum of the totals in `s` that target the user `u`.
pub open spec fn user_total(s: Seq<StingAggregate>, u: u64) -> int
    decreases s.len(),
{
    if s.len() == 0 {
        0
    } else {
        user_total(s.drop_last(), u) + if s.last().target == StingTarget::User(u) {
            s.last().total_stings as int
        } else {
            0
        }
    }
}

/// Whether some aggregate in `s` targets the user `u`.
pub open spec fn targets_user(s: Seq<StingAggregate>, u: u64) -> bool {
    exists|i: int| 0 <= i < s.len() && s[i].target == StingTarget::User(u)
}

/// A user whom no aggregate targets has total zero.
proof fn lemma_user_total_untargeted(s: Seq<StingAggregate>, u: u64)
    requires
        !targets_user(s, u),
    ensures
        user_total(s, u) == 0,
    decreases s.len(),
{
    if s.len() > 0 {
        assert(s.last() == s[s.len() - 1]);
        assert(!targets_user(s.drop_last(), u)) by {
            if targets_user(s.drop_last(), u) {
                let j = choose|j: int| 0 <= j < s.drop_last().len() && s.drop_last()[j].target == StingTarget::User(u);
                assert(s[j] == s.drop_last()[j]);
            }
        }
        lemma_user_total_untargeted(s.drop_last(), u);
    }
}

/// Adding the totals one by one, left to right, never leaves the `i64` range.
pub open spec fn running_sum_fits(s: Seq<StingAggregate>) -> bool {
    forall|k: int| 0 <= k <= s.len() ==> fits_i64(#[trigger] sum_totals(s.take(k)))
}

/// Adding the system totals one by one, and each user's totals one by one, never leaves the
/// `i64` range, nor does any user's total plus the system total.
pub open spec fn per_user_sums_fit(s: Seq<StingAggregate>) -> bool {
    &&& forall|k: int| 0 <= k <= s.len() ==> fits_i64(#[trigger] system_total(s.take(k)))
    &&& forall|k: int, u: u64| 0 <= k <= s.len() ==> fits_i64(#[trigger] user_total(s.take(k), u))
    &&& forall|u: u64| targets_user(s, u) ==> fits_i64(#[trigger] user_total(s, u) + system_total(s))
}

impl StingAggregate {
    /// The sum of all totals.
    pub fn total_stings(vec: Vec<StingAggregate>) -> (r: i64)
        requires
            running_sum_fits(vec@),
        ensures
            r == sum_totals(vec@),
    {
        let mut acc: i64 = 0;
        let mut i: usize = 0;
        while i < vec.len()
            invariant
                i <= vec.len(),
                running_sum_fits(vec@),
                acc == sum_totals(vec@.take(i as int)),
            decreases vec.len() - i,
        {
            assert(vec@.take(i + 1).drop_last() =~= vec@.take(i as int));
            assert(fits_i64(sum_totals(vec@.take(i + 1))));
            acc = acc + vec[i].total_stings;
            i = i + 1;
        }
        assert(vec@.take(vec.len() as int) =~= vec@);
        acc
    }

    /// Each user's total with the system total added, keyed by user id, and the system total.
    pub fn total_stings_per_user(vec: Vec<StingAggregate>) -> (r: (HashMap<u64, i64>, i64))
        requires
            per_user_sums_fit(vec@),
        ensures
            r.1 == system_total(vec@),
            forall|u: u64| #[trigger] r.0@.contains_key(u) <==> targets_user(vec@, u),
            forall|u: u64| r.0@.contains_key(u) ==> #[trigger] r.0@[u] == user_total(vec@, u)
                + system_total(vec@),
    {
        let mut map: HashMap<u64, i64> = HashMap::new();
        let mut users: Vec<u64> = Vec::new();
        let mut system: i64 = 0;
        let mut i: usize = 0;
        while i < vec.len()
            invariant
                i <= vec.len(),
                per_user_sums_fit(vec@),
                system == system_total(vec@.take(i as int)),
                forall|u: u64| #[trigger] map@.contains_key(u) <==> targets_user(vec@.take(i as int), u),
                forall|u: u64| map@.contains_key(u) ==> #[trigger] map@[u] == user_total(vec@.take(i as int), u),
                forall|j: int| 0 <= j < users.len() ==> map@.contains_key(#[trigger] users@[j]),
                forall|u: u64| map@.contains_key(u) ==> users@.contains(u),
                users@.no_duplicates(),
            decreases vec.len() - i,
        {
            let ghost prev = vec@.take(i as int);
            let ghost next = vec@.take(i + 1);
            assert(next.drop_last() =~= prev);
            assert(next.last() == vec@[i as int]);
            let item = &vec[i];
            match item.target {
                StingTarget::System => {
                    assert(fits_i64(system_total(next)));
                    system = system + item.total_stings;
                    assert forall|u: u64| targets_user(next, u) <==> targets_user(prev, u) by {
                        if targets_user(next, u) {
                            let j = choose|j: int| 0 <= j < next.len() && next[j].target == StingTarget::User(u);
                            assert(prev[j] == next[j]);
                        }
                        if targets_user(prev, u) {
                            let j = choose|j: int| 0 <= j < prev.len() && prev[j].target == StingTarget::User(u);
                            assert(prev[j] == next[j]);
                        }
                    }
                    assert forall|u: u64| user_total(next, u) == user_total(prev, u) by {}
                },
                StingTarget::User(uid) => {
                    assert(fits_i64(user_total(next, uid)));
                    let ghost before = map@;
                    let ghost users_before = users@;
                    let cur: i64 = match map.get(&uid) {
                        Some(v) => *v,
                        None => 0,
                    };
                    if !map.contains_key(&uid) {
                        users.push(uid);
                    }
                    proof {
                        if !before.contains_key(uid) {
                            lemma_user_total_untargeted(prev, uid);
                            assert(!users_before.contains(uid));
                        }
                    }
                    map.insert(uid, cur + item.total_stings);
                    assert forall|u: u64| targets_user(next, u) <==> (targets_user(prev, u) || u == uid) by {
                        if targets_user(next, u) && u != uid {
                            let j = choose|j: int| 0 <= j < next.len() && next[j].target == StingTarget::User(u);
                            assert(prev[j] == next[j]);
                        }
                        if targets_user(prev, u) {
                            let j = choose|j: int| 0 <= j < prev.len() && prev[j].target == StingTarget::User(u);
                            assert(prev[j] == next[j]);
                        }
                        if u == uid {
                            assert(next[i as int].target == StingTarget::User(u));
                        }
                    }
                    assert forall|u: u64| u != uid implies user_total(next, u) == user_total(prev, u) by {}
                    assert forall|u: u64| #[trigger] map@.contains_key(u) implies users@.contains(u) by {
                        if u != uid {
                            assert(before.contains_key(u));
                            assert(users_before.contains(u));
                            let j = choose|j: int| 0 <= j < users_before.len() && users_before[j] == u;
                            assert(users@[j] == u);
                        } else {
                            if before.contains_key(uid) {
                                assert(users_before.contains(u));
                                let j = choose|j: int| 0 <= j < users_before.len() && users_before[j] == u;
                                assert(users@[j] == u);
                            } else {
                                assert(users@[users@.len() - 1] == u);
                            }
                        }
                    }
                },
            }
            i = i + 1;
        }
        assert(vec@.take(vec.len() as int) =~= vec@);
        let ghost first = map@;
        let mut k: usize = 0;
        while k < users.len()
            invariant
                k <= users.len(),
                per_user_sums_fit(vec@),
                system == system_total(vec@),
                forall|u: u64| #[trigger] first.contains_key(u) <==> targets_user(vec@, u),
                forall|u: u64| first.contains_key(u) ==> #[trigger] first[u] == user_total(vec@, u),
                forall|j: int| 0 <= j < users.len() ==> first.contains_key(#[trigger] users@[j]),
                forall|u: u64| first.contains_key(u) ==> users@.contains(u),
                users@.no_duplicates(),
                map@.dom() == first.dom(),
                forall|u: u64| map@.contains_key(u) ==> #[trigger] map@[u] == first[u] + if users@.take(k as int).contains(u) { system as int } else { 0 },
            decreases users.len() - k,
        {
            let uid = users[k];
            assert(first.contains_key(users@[k as int]));
            let cur: i64 = match map.get(&uid) {
                Some(v) => *v,
                None => 0,
            };
            assert(!users@.take(k as int).contains(uid)) by {
                if users@.take(k as int).contains(uid) {
                    let j = choose|j: int| 0 <= j < k && users@.take(k as int)[j] == uid;
                    assert(users@[j] == users@[k as int]);
                }
            }
            assert(fits_i64(user_total(vec@, uid) + system_total(vec@)));
            let ghost mid = map@;
            assert(mid.contains_key(uid));
            assert(cur == mid[uid]);
            map.insert(uid, cur + system);
            assert(users@.take(k + 1) =~= users@.take(k as int).push(uid));
            assert forall|u: u64| map@.contains_key(u) implies #[trigger] map@[u] == first[u] + if users@.take(k + 1).contains(u) { system as int } else { 0 } by {
                if u != uid {
                    assert(mid.contains_key(u));
                    assert(users@.take(k + 1).contains(u) == users@.take(k as int).contains(u));
                } else {
                    assert(users@.take(k + 1)[k as int] == uid);
                    assert(users@.take(k + 1).contains(uid));
                }
            }
            k = k + 1;
        }
        assert forall|u: u64| map@.contains_key(u) implies #[trigger] map@[u] == user_total(vec@, u) + system_total(vec@) by {
            assert(users@.take(users.len() as int) =~= users@);
        }
        (map, system)
    }
}

} // verus!
