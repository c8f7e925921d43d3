//! Attention reminders: when the next one is due, and the attention timer's
//! state machine.
//!
//! An attention reminder fires at fixed local times of day on chosen weekdays.
//! Which UTC instant a local time of day corresponds to depends on the machine's
//! time zone; it is resolved by `chrono` behind `time::utc_from_local`.

use vstd::prelude::*;

use crate::config::{AppConfig, AttentionSettings};
use crate::models::{AttentionId, Command, PauseReason, SchedulerEvent, reason_text};
use crate::shared_state::{SharedSchedulerState, SharedStateModel};
use crate::text::{concat3, decimal, u64_to_decimal};
use crate::time::{
    days_contain, local_from_utc, now_utc, schedulable, utc_from_local, valid_timestamp,
    weekday_from_day, weekday_of_day, is_least_above, LocalDateTime, MAX_ABS_DAY, MAX_ABS_TIMESTAMP,
};

verus! {

/// A local reading `local` of the UTC time `now`: within a day of it, as any
/// time zone offset is.
pub open spec fn local_reading_of(now: int, local: LocalDateTime) -> bool {
    &&& local.wf()
    &&& -86400 < local.naive_seconds() - now < 86400
}

/// `x` is the earliest of the times `s`.
pub open spec fn is_least(s: Seq<u32>, x: u32) -> bool {
    &&& s.contains(x)
    &&& forall|i: int| 0 <= i < s.len() ==> x <= s[i]
}

/// The candidate (day, time of day) of today: the earliest configured time after
/// now, if today is a configured weekday and such a time exists.
pub open spec fn today_candidate(a: AttentionSettings, now: LocalDateTime) -> Option<(i64, u32)> {
    if a.days_of_week@.contains(now.weekday()) && exists|x: u32| is_least_above(a.times.times@, now.secs as int, x) {
        Some((now.day, choose|x: u32| is_least_above(a.times.times@, now.secs as int, x)))
    } else {
        None
    }
}

/// The candidates of the next `n` days after today, in order: each configured
/// weekday at the earliest configured time.
pub open spec fn later_candidates(a: AttentionSettings, now: LocalDateTime, n: nat) -> Seq<(i64, u32)>
    decreases n,
{
    if n == 0 {
        Seq::empty()
    } else {
        let prev = later_candidates(a, now, (n - 1) as nat);
        let day = now.day + n;
        if a.days_of_week@.contains(weekday_of_day(day)) && a.times.times@.len() > 0 {
            prev.push((day as i64, choose|x: u32| is_least(a.times.times@, x)))
        } else {
            prev
        }
    }
}

/// The (local day, time of day) readings tried in order for the next occurrence
/// of an attention reminder: none if it is disabled or has no times or days;
/// otherwise today's next time, then each of the next seven days at the first time.
pub open spec fn attention_candidates(a: AttentionSettings, now: LocalDateTime) -> Seq<(i64, u32)> {
    if !a.enabled || a.times.times@.len() == 0 || a.days_of_week@.len() == 0 {
        Seq::empty()
    } else {
        let later = later_candidates(a, now, 7);
        match today_candidate(a, now) {
            Some(c) => seq![c] + later,
            None => later,
        }
    }
}

/// The earliest configured time is unique.
proof fn lemma_least_unique(s: Seq<u32>, x: u32, y: u32)
    requires
        is_least(s, x),
        is_least(s, y),
    ensures
        x == y,
{
    let i = choose|i: int| 0 <= i < s.len() && s[i] == x;
    let j = choose|j: int| 0 <= j < s.len() && s[j] == y;
}

/// The earliest configured time after `t` is unique.
proof fn lemma_least_above_unique(s: Seq<u32>, t: int, x: u32, y: u32)
    requires
        is_least_above(s, t, x),
        is_least_above(s, t, y),
    ensures
        x == y,
{
    let i = choose|i: int| 0 <= i < s.len() && s[i] == x;
    let j = choose|j: int| 0 <= j < s.len() && s[j] == y;
}

/// Candidate readings lie on today or one of the next seven days, at a configured time.
proof fn lemma_candidate_range(a: AttentionSettings, now: LocalDateTime, n: nat)
    requires
        n <= 7,
        now.wf(),
    ensures
        forall|j: int| 0 <= j < later_candidates(a, now, n).len() ==> {
            let c = #[trigger] later_candidates(a, now, n)[j];
            &&& now.day < c.0 <= now.day + n
            &&& a.times.times@.contains(c.1)
        },
    decreases n,
{
    if n > 0 {
        lemma_candidate_range(a, now, (n - 1) as nat);
        let prev = later_candidates(a, now, (n - 1) as nat);
        if a.days_of_week@.contains(weekday_of_day(now.day + n)) && a.times.times@.len() > 0 {
            lemma_least_exists(a.times.times@);
            let x = choose|x: u32| is_least(a.times.times@, x);
            assert(is_least(a.times.times@, x));
            assert(later_candidates(a, now, n) == prev.push(((now.day + n) as i64, x)));
            assert forall|j: int| 0 <= j < later_candidates(a, now, n).len() implies {
                let c = #[trigger] later_candidates(a, now, n)[j];
                &&& now.day < c.0 <= now.day + n
                &&& a.times.times@.contains(c.1)
            } by {
                if j < prev.len() {
                    assert(later_candidates(a, now, n)[j] == prev[j]);
                }
            }
        }
    }
}

/// A nonempty sequence of times has an earliest one.
proof fn lemma_least_exists(s: Seq<u32>)
    requires
        s.len() > 0,
    ensures
        exists|x: u32| is_least(s, x),
    decreases s.len(),
{
    if s.len() == 1 {
        assert(is_least(s, s[0]));
    } else {
        let t = s.drop_last();
        lemma_least_exists(t);
        let y = choose|x: u32| is_least(t, x);
        let i = choose|i: int| 0 <= i < t.len() && t[i] == y;
        assert(s[i] == y);
        if s.last() < y {
            assert(s[s.len() - 1] == s.last());
            assert forall|k: int| 0 <= k < s.len() implies s.last() <= s[k] by {
                if k < t.len() {
                    assert(s[k] == t[k]);
                }
            }
            assert(is_least(s, s.last()));
        } else {
            assert forall|k: int| 0 <= k < s.len() implies y <= s[k] by {
                if k < t.len() {
                    assert(s[k] == t[k]);
                }
            }
            assert(is_least(s, y));
        }
    }
}

/// Every candidate reading lies on today or one of the next seven days, at a
/// configured time of day.
pub proof fn lemma_attention_candidates(a: AttentionSettings, now: LocalDateTime)
    requires
        now.wf(),
    ensures
        forall|j: int| 0 <= j < attention_candidates(a, now).len() ==> {
            let c = #[trigger] attention_candidates(a, now)[j];
            &&& now.day <= c.0 <= now.day + 7
            &&& a.times.times@.contains(c.1)
        },
{
    lemma_candidate_range(a, now, 7);
    if a.enabled && a.times.times@.len() > 0 && a.days_of_week@.len() > 0 {
        let later = later_candidates(a, now, 7);
        match today_candidate(a, now) {
            Some(c) => {
                let x = choose|x: u32| is_least_above(a.times.times@, now.secs as int, x);
                assert forall|j: int| 0 <= j < attention_candidates(a, now).len() implies {
                    let c = #[trigger] attention_candidates(a, now)[j];
                    &&& now.day <= c.0 <= now.day + 7
                    &&& a.times.times@.contains(c.1)
                } by {
                    if j > 0 {
                        assert(attention_candidates(a, now)[j] == later[j - 1]);
                    }
                }
            },
            None => {},
        }
    }
}

/// Each candidate lies on a later day than now, except the first, which may lie
/// on today at a later time of day.
pub proof fn lemma_candidates_after_now(a: AttentionSettings, now: LocalDateTime)
    requires
        now.wf(),
    ensures
        forall|j: int| 0 <= j < attention_candidates(a, now).len() ==> {
            let c = #[trigger] attention_candidates(a, now)[j];
            c.0 > now.day || (j == 0 && c.0 == now.day && c.1 > now.secs)
        },
{
    lemma_candidate_range(a, now, 7);
    if a.enabled && a.times.times@.len() > 0 && a.days_of_week@.len() > 0 {
        let later = later_candidates(a, now, 7);
        match today_candidate(a, now) {
            Some(c) => {
                let x = choose|x: u32| is_least_above(a.times.times@, now.secs as int, x);
                assert(is_least_above(a.times.times@, now.secs as int, x));
                assert forall|j: int| 0 <= j < attention_candidates(a, now).len() implies {
                    let c = #[trigger] attention_candidates(a, now)[j];
                    c.0 > now.day || (j == 0 && c.0 == now.day && c.1 > now.secs)
                } by {
                    if j > 0 {
                        assert(attention_candidates(a, now)[j] == later[j - 1]);
                    }
                }
            },
            None => {},
        }
    }
}

/// Returns the (local day, time of day) readings to try, in order, for the next
/// occurrence of `attention` after local time `now`.
pub fn get_attention_candidates(attention: &AttentionSettings, now: LocalDateTime) -> (r: Vec<(i64, u32)>)
    requires
        now.wf(),
    ensures
        r@ == attention_candidates(*attention, now),
{
    let mut r: Vec<(i64, u32)> = Vec::new();
    if !attention.enabled || attention.times.is_empty() || attention.days_of_week.len() == 0 {
        return r;
    }
    let today = weekday_from_day(now.day);
    if days_contain(&attention.days_of_week, today) {
        if let Some(t) = attention.times.earliest_after(now.secs) {
            proof {
                let c = choose|x: u32| is_least_above(attention.times.times@, now.secs as int, x);
                lemma_least_above_unique(attention.times.times@, now.secs as int, t, c);
            }
            r.push((now.day, t));
        }
    }
    let ghost start = r@;
    assert(start == match today_candidate(*attention, now) { Some(c) => seq![c], None => Seq::<(i64, u32)>::empty() });
    let first = attention.times.first();
    let mut i: i64 = 1;
    while i <= 7
        invariant
            1 <= i <= 8,
            now.wf(),
            attention.times.times@.len() > 0,
            first matches Some(x) && is_least(attention.times.times@, x),
            r@ == start + later_candidates(*attention, now, (i - 1) as nat),
        decreases 8 - i,
    {
        let day = now.day + i;
        let w = weekday_from_day(day);
        let t = first.unwrap();
        proof {
            let c = choose|x: u32| is_least(attention.times.times@, x);
            lemma_least_unique(attention.times.times@, t, c);
        }
        if days_contain(&attention.days_of_week, w) {
            r.push((day, t));
        }
        proof {
            assert(later_candidates(*attention, now, i as nat) == {
                let prev = later_candidates(*attention, now, (i - 1) as nat);
                if attention.days_of_week@.contains(weekday_of_day(now.day + i)) && attention.times.times@.len() > 0 {
                    prev.push(((now.day + i) as i64, choose|x: u32| is_least(attention.times.times@, x)))
                } else {
                    prev
                }
            });
        }
        i += 1;
    }
    r
}

/// A resolved occurrence lies at most a week and two days around the local reading `now`.
pub open spec fn near_reading(now: LocalDateTime, t: int) -> bool {
    now.naive_seconds() - 2 * 86400 < t < now.naive_seconds() + 9 * 86400
}

/// The first resolved reading of a sequence of resolutions, if any.
pub open spec fn first_resolved(res: Seq<Option<i64>>) -> Option<i64>
    decreases res.len(),
{
    if res.len() == 0 {
        None
    } else {
        match res[0] {
            Some(t) => Some(t),
            None => first_resolved(res.drop_first()),
        }
    }
}

/// `res` lists possible resolutions of the readings `cands`: a resolved reading
/// lies within a day of its local reading.
pub open spec fn resolutions_of(cands: Seq<(i64, u32)>, res: Seq<Option<i64>>) -> bool {
    &&& res.len() == cands.len()
    &&& forall|k: int| 0 <= k < res.len() ==> (#[trigger] res[k] matches Some(ts) ==> -86400 < (cands[k].0 * 86400 + cands[k].1) - ts < 86400)
}

proof fn lemma_first_resolved_push(res: Seq<Option<i64>>, x: Option<i64>)
    requires
        first_resolved(res) is None,
    ensures
        first_resolved(res.push(x)) == x,
    decreases res.len(),
{
    assert(first_resolved(Seq::<Option<i64>>::empty()) is None);
    assert(res.push(x)[0] == if res.len() == 0 { x } else { res[0] });
    if res.len() == 0 {
        assert(res.push(x).drop_first() =~= Seq::<Option<i64>>::empty());
    } else {
        assert(res.push(x).drop_first() =~= res.drop_first().push(x));
        lemma_first_resolved_push(res.drop_first(), x);
    }
}

proof fn lemma_first_resolved_prefix(res: Seq<Option<i64>>, k: int)
    requires
        0 <= k < res.len(),
        first_resolved(res.subrange(0, k)) is None,
        res[k] is Some,
    ensures
        first_resolved(res) == res[k],
    decreases k,
{
    if k == 0 {
    } else {
        assert(res.subrange(0, k).drop_first() =~= res.drop_first().subrange(0, k - 1));
        lemma_first_resolved_prefix(res.drop_first(), k - 1);
    }
}

/// A resolved reading of a sequence of resolutions is one of its entries.
proof fn lemma_first_resolved_member(res: Seq<Option<i64>>)
    ensures
        first_resolved(res) is Some ==> exists|k: int| 0 <= k < res.len() && res[k] == first_resolved(res),
    decreases res.len(),
{
    if res.len() > 0 && res[0] is None {
        lemma_first_resolved_member(res.drop_first());
        if first_resolved(res.drop_first()) is Some {
            let k = choose|k: int| 0 <= k < res.drop_first().len() && res.drop_first()[k] == first_resolved(res.drop_first());
            assert(res[k + 1] == first_resolved(res));
        }
    } else if res.len() > 0 {
        assert(res[0] == first_resolved(res));
    }
}

/// Resolves each candidate (local day, time of day) reading to a UTC timestamp in
/// the machine's time zone, in order.
pub fn resolve_candidates(cands: &Vec<(i64, u32)>) -> (res: Vec<Option<i64>>)
    requires
        forall|j: int| 0 <= j < cands@.len() ==>
            -MAX_ABS_DAY - 16 <= #[trigger] cands@[j].0 <= MAX_ABS_DAY + 16 && cands@[j].1 < 86400,
    ensures
        resolutions_of(cands@, res@),
{
    let mut res: Vec<Option<i64>> = Vec::new();
    let mut k: usize = 0;
    while k < cands.len()
        invariant
            k <= cands.len(),
            forall|j: int| 0 <= j < cands@.len() ==>
                -MAX_ABS_DAY - 16 <= #[trigger] cands@[j].0 <= MAX_ABS_DAY + 16 && cands@[j].1 < 86400,
            resolutions_of(cands@.subrange(0, k as int), res@),
        decreases cands.len() - k,
    {
        let (day, secs) = cands[k];
        let t = utc_from_local(day, secs);
        let ghost prev = res@;
        res.push(t);
        proof {
            assert(cands@.subrange(0, k + 1) == cands@.subrange(0, k as int).push(cands@[k as int]));
            assert forall|j: int| 0 <= j < res@.len() implies (#[trigger] res@[j] matches Some(ts) ==>
                -86400 < (cands@.subrange(0, k + 1)[j].0 * 86400 + cands@.subrange(0, k + 1)[j].1) - ts < 86400) by {
                if j < k {
                    assert(res@[j] == prev[j]);
                }
            }
        }
        k += 1;
    }
    proof {
        assert(cands@.subrange(0, cands@.len() as int) == cands@);
    }
    res
}

/// Returns the first resolved reading, if any.
pub fn first_resolution(resolved: &Vec<Option<i64>>) -> (r: Option<i64>)
    ensures
        r == first_resolved(resolved@),
{
    let mut k: usize = 0;
    proof {
        assert(resolved@.subrange(0, 0) =~= Seq::<Option<i64>>::empty());
    }
    while k < resolved.len()
        invariant
            k <= resolved.len(),
            first_resolved(resolved@.subrange(0, k as int)) is None,
        decreases resolved.len() - k,
    {
        if resolved[k].is_some() {
            proof {
                lemma_first_resolved_prefix(resolved@, k as int);
            }
            return resolved[k];
        }
        proof {
            lemma_first_resolved_push(resolved@.subrange(0, k as int), None);
            assert(resolved@.subrange(0, k + 1) =~= resolved@.subrange(0, k as int).push(None));
        }
        k += 1;
    }
    proof {
        assert(resolved@.subrange(0, resolved@.len() as int) =~= resolved@);
    }
    None
}

/// Returns the next occurrence of `attention` after local time `now`, as a UTC
/// timestamp: the first candidate reading that exists in the machine's time zone.
pub fn get_next_attention_time(attention: &AttentionSettings, now: LocalDateTime) -> (r: Option<i64>)
    requires
        now.wf(),
        attention.wf(),
    ensures
        exists|res: Seq<Option<i64>>|
            resolutions_of(attention_candidates(*attention, now), res) && r == first_resolved(res),
        r matches Some(t) ==> near_reading(now, t as int),
{
    let cands = get_attention_candidates(attention, now);
    proof {
        lemma_attention_candidates(*attention, now);
        assert forall|j: int| 0 <= j < cands@.len() implies now.day <= #[trigger] cands@[j].0 <= now.day + 7 && cands@[j].1 < 86400 by {
            let c = cands@[j];
            let i = choose|i: int| 0 <= i < attention.times.times@.len() && attention.times.times@[i] == c.1;
        }
    }
    let res = resolve_candidates(&cands);
    let r = first_resolution(&res);
    proof {
        lemma_first_resolved_member(res@);
        if let Some(t) = r {
            let k = choose|k: int| 0 <= k < res@.len() && res@[k] == first_resolved(res@);
            assert(res@[k] == Some(t));
            let c = cands@[k];
            assert(now.day <= c.0 <= now.day + 7 && c.1 < 86400);
            assert(-86400 < (c.0 * 86400 + c.1) - t < 86400);
            assert(now.day * 86400 <= c.0 * 86400 <= now.day * 86400 + 7 * 86400) by (nonlinear_arith)
                requires
                    now.day <= c.0 <= now.day + 7,
            ;
        }
    }
    r
}

/// `i` is the first position of a smallest time in `s`.
pub open spec fn is_first_min(s: Seq<(AttentionId, i64)>, i: int) -> bool {
    &&& 0 <= i < s.len()
    &&& forall|j: int| 0 <= j < s.len() ==> s[i].1 <= #[trigger] s[j].1
    &&& forall|j: int| 0 <= j < i ==> s[i].1 < #[trigger] s[j].1
}

/// The first entry with the smallest time, if any.
pub open spec fn spec_select_earliest(s: Seq<(AttentionId, i64)>) -> Option<(AttentionId, i64)> {
    if exists|i: int| is_first_min(s, i) {
        Some(s[choose|i: int| is_first_min(s, i)])
    } else {
        None
    }
}

/// The first position of a smallest time is unique and exists in a nonempty sequence.
pub proof fn lemma_first_min_unique(s: Seq<(AttentionId, i64)>, i: int, k: int)
    requires
        is_first_min(s, i),
        is_first_min(s, k),
    ensures
        i == k,
{
    if i < k {
        assert(s[k].1 < s[i].1);
        assert(s[k].1 <= s[i].1);
    } else if k < i {
        assert(s[i].1 < s[k].1);
        assert(s[i].1 <= s[k].1);
    }
}

/// A nonempty sequence has a first position of a smallest time.
pub proof fn lemma_first_min_exists(s: Seq<(AttentionId, i64)>)
    requires
        s.len() > 0,
    ensures
        exists|i: int| is_first_min(s, i),
    decreases s.len(),
{
    if s.len() == 1 {
        assert(is_first_min(s, 0));
    } else {
        let t = s.drop_last();
        lemma_first_min_exists(t);
        let i = choose|i: int| is_first_min(t, i);
        assert forall|j: int| 0 <= j < t.len() implies s[j] == t[j] by {}
        if s.last().1 < s[i].1 {
            let k = s.len() - 1;
            assert forall|j: int| 0 <= j < s.len() implies s[k].1 <= #[trigger] s[j].1 by {
                if j < t.len() {
                    assert(t[i].1 <= t[j].1);
                }
            }
            assert forall|j: int| 0 <= j < k implies s[k].1 < #[trigger] s[j].1 by {
                assert(t[i].1 <= t[j].1);
            }
            assert(is_first_min(s, k));
        } else {
            assert forall|j: int| 0 <= j < s.len() implies s[i].1 <= #[trigger] s[j].1 by {
                if j < t.len() {
                    assert(t[i].1 <= t[j].1);
                }
            }
            assert forall|j: int| 0 <= j < i implies s[i].1 < #[trigger] s[j].1 by {
                assert(t[i].1 < t[j].1);
            }
            assert(is_first_min(s, i));
        }
    }
}

/// Returns the first entry with the smallest time, if any.
pub fn select_earliest(cands: &Vec<(AttentionId, i64)>) -> (r: Option<(AttentionId, i64)>)
    ensures
        r == spec_select_earliest(cands@),
        r is None <==> cands@.len() == 0,
{
    if cands.len() == 0 {
        return None;
    }
    let mut best: usize = 0;
    let mut i: usize = 1;
    while i < cands.len()
        invariant
            1 <= i <= cands.len(),
            best < i,
            forall|j: int| 0 <= j < i ==> cands@[best as int].1 <= #[trigger] cands@[j].1,
            forall|j: int| 0 <= j < best ==> cands@[best as int].1 < #[trigger] cands@[j].1,
        decreases cands.len() - i,
    {
        if cands[i].1 < cands[best].1 {
            best = i;
        }
        i += 1;
    }
    proof {
        assert(is_first_min(cands@, best as int));
        assert forall|k: int| is_first_min(cands@, k) implies k == best by {
            lemma_first_min_unique(cands@, best as int, k);
        }
    }
    Some(cands[best])
}

/// The entries (identifier, time) of the attentions whose next occurrence resolved.
pub open spec fn collect_present(atts: Seq<AttentionSettings>, times: Seq<Option<i64>>) -> Seq<(AttentionId, i64)>
    decreases atts.len(),
{
    if atts.len() == 0 || times.len() == 0 {
        Seq::empty()
    } else {
        let prev = collect_present(atts.drop_last(), times.drop_last());
        match times.last() {
            Some(t) => prev.push((atts.last().id, t)),
            None => prev,
        }
    }
}

/// `t` is a possible next occurrence of attention `a` after local time `now`.
pub open spec fn possible_next(a: AttentionSettings, now: LocalDateTime, t: Option<i64>) -> bool {
    &&& exists|res: Seq<Option<i64>>| resolutions_of(attention_candidates(a, now), res) && t == first_resolved(res)
    &&& t matches Some(x) ==> near_reading(now, x as int)
}

/// `times` lists possible next occurrences, one per attention.
pub open spec fn possible_nexts(atts: Seq<AttentionSettings>, now: LocalDateTime, times: Seq<Option<i64>>) -> bool {
    &&& times.len() == atts.len()
    &&& forall|i: int| 0 <= i < atts.len() ==> possible_next(#[trigger] atts[i], now, times[i])
}

/// Every entry collected is near the local reading `now`.
proof fn lemma_collect_near(atts: Seq<AttentionSettings>, now: LocalDateTime, times: Seq<Option<i64>>)
    requires
        possible_nexts(atts, now, times),
    ensures
        forall|j: int| 0 <= j < collect_present(atts, times).len() ==> near_reading(now, #[trigger] collect_present(atts, times)[j].1 as int),
    decreases atts.len(),
{
    if atts.len() > 0 {
        let a2 = atts.drop_last();
        let t2 = times.drop_last();
        assert forall|i: int| 0 <= i < a2.len() implies possible_next(#[trigger] a2[i], now, t2[i]) by {
            assert(a2[i] == atts[i] && t2[i] == times[i]);
        }
        lemma_collect_near(a2, now, t2);
        assert(possible_next(atts[atts.len() - 1], now, times[times.len() - 1]));
        let prev = collect_present(a2, t2);
        assert forall|j: int| 0 <= j < collect_present(atts, times).len() implies near_reading(now, #[trigger] collect_present(atts, times)[j].1 as int) by {
            if j < prev.len() {
                assert(collect_present(atts, times)[j] == prev[j]);
            }
        }
    }
}

/// Returns the earliest of the given next occurrences, one per attention (the
/// first such attention on a tie); attentions without an occurrence are skipped.
pub fn earliest_next(attentions: &Vec<AttentionSettings>, times: &Vec<Option<i64>>) -> (r: Option<(AttentionId, i64)>)
    requires
        times@.len() == attentions@.len(),
    ensures
        r == spec_select_earliest(collect_present(attentions@, times@)),
{
    let mut cands: Vec<(AttentionId, i64)> = Vec::new();
    let mut i: usize = 0;
    proof {
        assert(attentions@.subrange(0, 0) =~= Seq::<AttentionSettings>::empty());
    }
    while i < attentions.len()
        invariant
            i <= attentions.len(),
            times@.len() == attentions@.len(),
            cands@ == collect_present(attentions@.subrange(0, i as int), times@.subrange(0, i as int)),
        decreases attentions.len() - i,
    {
        proof {
            let a2 = attentions@.subrange(0, i + 1);
            let t2 = times@.subrange(0, i + 1);
            assert(a2.drop_last() =~= attentions@.subrange(0, i as int));
            assert(t2.drop_last() =~= times@.subrange(0, i as int));
            assert(a2.last() == attentions@[i as int]);
            assert(t2.last() == times@[i as int]);
        }
        if let Some(t) = times[i] {
            cands.push((attentions[i].id, t));
        }
        i += 1;
    }
    proof {
        assert(attentions@.subrange(0, attentions@.len() as int) =~= attentions@);
        assert(times@.subrange(0, times@.len() as int) =~= times@);
    }
    select_earliest(&cands)
}

/// The next attention at local time `now`: the earliest next occurrence over all
/// attentions (the first such attention on a tie).
pub fn calculate_next_attention_at(attentions: &Vec<AttentionSettings>, now: LocalDateTime) -> (r: Option<(AttentionId, i64)>)
    requires
        now.wf(),
        forall|i: int| 0 <= i < attentions@.len() ==> #[trigger] attentions@[i].wf(),
    ensures
        exists|times: Seq<Option<i64>>|
            possible_nexts(attentions@, now, times) && r == spec_select_earliest(collect_present(attentions@, times)),
        r matches Some(e) ==> near_reading(now, e.1 as int),
{
    let mut times: Vec<Option<i64>> = Vec::new();
    let mut i: usize = 0;
    while i < attentions.len()
        invariant
            i <= attentions.len(),
            now.wf(),
            forall|k: int| 0 <= k < attentions@.len() ==> #[trigger] attentions@[k].wf(),
            possible_nexts(attentions@.subrange(0, i as int), now, times@),
        decreases attentions.len() - i,
    {
        let t = get_next_attention_time(&attentions[i], now);
        let ghost prev_times = times@;
        times.push(t);
        proof {
            let sub = attentions@.subrange(0, i + 1);
            assert forall|k: int| 0 <= k < sub.len() implies possible_next(#[trigger] sub[k], now, times@[k]) by {
                if k < i {
                    assert(sub[k] == attentions@.subrange(0, i as int)[k]);
                    assert(times@[k] == prev_times[k]);
                }
            }
        }
        i += 1;
    }
    proof {
        assert(attentions@.subrange(0, attentions@.len() as int) =~= attentions@);
        lemma_collect_near(attentions@, now, times@);
    }
    let r = earliest_next(attentions, &times);
    proof {
        if let Some(e) = r {
            let c = collect_present(attentions@, times@);
            let k = choose|k: int| is_first_min(c, k);
            lemma_first_min_exists_when_some(c);
            assert(c[k] == e);
        }
    }
    r
}

/// A selected earliest entry comes from a first position of a smallest time.
proof fn lemma_first_min_exists_when_some(s: Seq<(AttentionId, i64)>)
    ensures
        spec_select_earliest(s) is Some ==> is_first_min(s, choose|k: int| is_first_min(s, k)),
{
}

/// The next attention when the clock reads `now_ts` (UTC seconds): none outside
/// the range of timestamps the library works with, otherwise the one planned at
/// the local reading of that time.
pub fn calculate_next_attention_from(attentions: &Vec<AttentionSettings>, now_ts: i64) -> (r: Option<(AttentionId, i64)>)
    requires
        forall|i: int| 0 <= i < attentions@.len() ==> #[trigger] attentions@[i].wf(),
    ensures
        !valid_timestamp(now_ts as int) ==> r is None,
        valid_timestamp(now_ts as int) ==> exists|l: LocalDateTime| local_reading_of(now_ts as int, l) && planned_next(attentions@, l, r),
{
    if now_ts < -MAX_ABS_TIMESTAMP || now_ts > MAX_ABS_TIMESTAMP {
        return None;
    }
    let local = local_from_utc(now_ts);
    let r = calculate_next_attention_at(attentions, local);
    assert(local_reading_of(now_ts as int, local) && planned_next(attentions@, local, r));
    r
}

/// The next attention from the machine's clock and time zone. A clock reading
/// before 1970 or outside the range of timestamps the library works with gives none.
pub fn calculate_next_attention(attentions: &Vec<AttentionSettings>) -> (r: Option<(AttentionId, i64)>)
    requires
        forall|i: int| 0 <= i < attentions@.len() ==> #[trigger] attentions@[i].wf(),
    ensures
        r matches Some(e) ==> exists|local: LocalDateTime, times: Seq<Option<i64>>|
            local.wf() && possible_nexts(attentions@, local, times)
            && r == spec_select_earliest(collect_present(attentions@, times)),
{
    match now_utc() {
        None => None,
        Some(now) => calculate_next_attention_from(attentions, now),
    }
}

/// A scheduled attention reminder.
#[derive(Debug, Clone, Copy, PartialEq, Eq, Structural)]
pub struct AttentionInfo {
    pub attention_id: AttentionId,
    /// When it is due (UTC timestamp, seconds).
    pub attention_time: i64,
}

/// The state of the attention timer.
#[derive(Debug, Clone, Copy, PartialEq, Eq, Structural)]
pub enum AttentionTimerState {
    /// Paused.
    Paused(PauseReason),
    /// No enabled attention.
    Idle,
    /// Waiting for an attention to become due.
    WaitingForAttention(AttentionInfo),
}

/// Work the caller performs on behalf of the attention timer, in order.
#[derive(Debug, Clone, Copy, PartialEq, Eq, Structural)]
pub enum AttentionAction {
    /// Open the prompt windows for the event.
    CreatePromptWindows(SchedulerEvent),
    /// Plan the next attention again, with a fresh clock reading (`recalculate`).
    Recalculate,
}

/// The attention timer.
#[derive(Debug, Clone, Copy, PartialEq, Eq, Structural)]
pub struct AttentionTimer {
    pub state: AttentionTimerState,
}

/// The result of a decision: the timer, the shared state and the actions.
pub struct AttentionStep {
    pub timer: AttentionTimer,
    pub shared: SharedStateModel,
    pub actions: Seq<AttentionAction>,
}

/// The step made of a timer, a shared state and the actions so far.
pub open spec fn astep_of(t: AttentionTimer, sh: SharedStateModel, a: Seq<AttentionAction>) -> AttentionStep {
    AttentionStep { timer: t, shared: sh, actions: a }
}

/// The text of a state, such as `WaitingForAttention(4)`.
pub open spec fn attention_state_text(st: AttentionTimerState) -> Seq<char> {
    match st {
        AttentionTimerState::Paused(r) => "Paused("@ + reason_text(r) + ")"@,
        AttentionTimerState::Idle => "Idle"@,
        AttentionTimerState::WaitingForAttention(i) => "WaitingForAttention("@ + decimal(i.attention_id.0 as nat) + ")"@,
    }
}

/// A planned attention time that the timer accepts.
pub open spec fn next_ok(next: Option<(AttentionId, i64)>, now: int) -> bool {
    next matches Some(e) ==> now - 3 * 86400 < e.1 < now + 10 * 86400
}

/// `next` is a possible outcome of planning the next attention among `atts` at
/// local time `local`: the earliest of possible next occurrences.
pub open spec fn planned_next(atts: Seq<AttentionSettings>, local: LocalDateTime, next: Option<(AttentionId, i64)>) -> bool {
    exists|times: Seq<Option<i64>>| possible_nexts(atts, local, times) && next == spec_select_earliest(collect_present(atts, times))
}

/// The configuration in force after a command.
pub open spec fn config_in_force(cmd: Command, config: AppConfig) -> AppConfig {
    match cmd {
        Command::UpdateConfig(c) => c,
        _ => config,
    }
}

impl AttentionTimer {
    /// The due time of a waiting attention is within the library's range.
    pub open spec fn wf(self) -> bool {
        self.state matches AttentionTimerState::WaitingForAttention(i) ==> valid_timestamp(i.attention_time as int)
    }
}

/// Shows the attention now: the session starts, the windows open and the next one is planned.
pub open spec fn spec_execute_attention(st: AttentionStep, id: AttentionId) -> AttentionStep {
    AttentionStep {
        shared: SharedStateModel { in_attention_session: true, ..st.shared },
        actions: st.actions.push(AttentionAction::CreatePromptWindows(SchedulerEvent::Attention(id))).push(AttentionAction::Recalculate),
        ..st
    }
}

/// Moves to the state that waits for the planned attention `next`; one already
/// due is shown at once; without one the timer is idle.
pub open spec fn spec_apply_next(st: AttentionStep, next: Option<(AttentionId, i64)>, now: int) -> AttentionStep {
    match next {
        None => AttentionStep { timer: AttentionTimer { state: AttentionTimerState::Idle }, ..st },
        Some(e) => if e.1 <= now {
            spec_execute_attention(st, e.0)
        } else {
            AttentionStep {
                timer: AttentionTimer {
                    state: AttentionTimerState::WaitingForAttention(AttentionInfo { attention_id: e.0, attention_time: e.1 }),
                },
                ..st
            }
        },
    }
}

/// The effect of a command on the attention timer, given the attention planned
/// from the configuration in force after the command.
pub open spec fn spec_attention_command(st: AttentionStep, cmd: Command, now: int, next: Option<(AttentionId, i64)>) -> AttentionStep {
    match cmd {
        Command::Pause(r) => AttentionStep { timer: AttentionTimer { state: AttentionTimerState::Paused(r) }, ..st },
        Command::Resume(_) => match st.timer.state {
            AttentionTimerState::Paused(_) => spec_apply_next(st, next, now),
            _ => st,
        },
        Command::UpdateConfig(_) => match st.timer.state {
            AttentionTimerState::Paused(_) => st,
            _ => spec_apply_next(st, next, now),
        },
        Command::TriggerEvent(SchedulerEvent::Attention(id)) => spec_execute_attention(st, id),
        Command::PromptFinished(SchedulerEvent::Attention(_)) => spec_apply_next(
            AttentionStep { shared: SharedStateModel { in_attention_session: false, ..st.shared }, ..st },
            next,
            now,
        ),
        _ => st,
    }
}

impl AttentionTimer {
    /// A timer that has not planned anything yet.
    pub fn new() -> (t: AttentionTimer)
        ensures
            t.state == AttentionTimerState::Idle,
    {
        AttentionTimer { state: AttentionTimerState::Idle }
    }

    /// The text of the current state.
    pub fn get_state(&self) -> (s: String)
        ensures
            s@ == attention_state_text(self.state),
    {
        match &self.state {
            AttentionTimerState::Paused(r) => concat3("Paused(", r.as_str(), ")"),
            AttentionTimerState::Idle => String::from_str("Idle"),
            AttentionTimerState::WaitingForAttention(info) => {
                let id = u64_to_decimal(info.attention_id.0);
                concat3("WaitingForAttention(", id.as_str(), ")")
            },
        }
    }

    /// The attention being waited for, if any.
    pub fn get_next_attention_info(&self) -> (r: Option<(AttentionId, i64)>)
        ensures
            r == (match self.state {
                AttentionTimerState::WaitingForAttention(i) => Some((i.attention_id, i.attention_time)),
                _ => None,
            }),
    {
        match &self.state {
            AttentionTimerState::WaitingForAttention(info) => Some((info.attention_id, info.attention_time)),
            _ => None,
        }
    }

    /// Seconds until the waited-for attention is due, if any.
    pub fn get_duration_for_current_state(&self, now: i64) -> (d: Option<i64>)
        requires
            self.wf(),
            schedulable(now as int),
        ensures
            d == (match self.state {
                AttentionTimerState::WaitingForAttention(i) => Some((i.attention_time - now) as i64),
                _ => None,
            }),
    {
        match &self.state {
            AttentionTimerState::WaitingForAttention(info) => Some(info.attention_time - now),
            _ => None,
        }
    }

    fn execute_attention(&mut self, id: AttentionId, shared: &mut SharedSchedulerState, actions: &mut Vec<AttentionAction>)
        ensures
            astep_of(*final(self), final(shared)@, final(actions)@) == spec_execute_attention(astep_of(*old(self), old(shared)@, old(actions)@), id),
    {
        shared.start_attention_session();
        actions.push(AttentionAction::CreatePromptWindows(SchedulerEvent::Attention(id)));
        actions.push(AttentionAction::Recalculate);
    }

    fn apply_next(
        &mut self,
        next: Option<(AttentionId, i64)>,
        shared: &mut SharedSchedulerState,
        now: i64,
        actions: &mut Vec<AttentionAction>,
    )
        requires
            schedulable(now as int),
            next_ok(next, now as int),
        ensures
            astep_of(*final(self), final(shared)@, final(actions)@) == spec_apply_next(astep_of(*old(self), old(shared)@, old(actions)@), next, now as int),
            old(self).wf() ==> final(self).wf(),
    {
        match next {
            None => {
                self.state = AttentionTimerState::Idle;
            },
            Some((id, t)) => {
                if t <= now {
                    self.execute_attention(id, shared, actions);
                } else {
                    self.state = AttentionTimerState::WaitingForAttention(AttentionInfo { attention_id: id, attention_time: t });
                }
            },
        }
    }

    /// Moves to the state that waits for the planned attention `next` (computed by
    /// `calculate_next_attention_at` for the current configuration and time).
    pub fn apply_calculation(
        &mut self,
        next: Option<(AttentionId, i64)>,
        shared: &mut SharedSchedulerState,
        now: i64,
    ) -> (actions: Vec<AttentionAction>)
        requires
            schedulable(now as int),
            next_ok(next, now as int),
        ensures
            astep_of(*final(self), final(shared)@, actions@) == spec_apply_next(astep_of(*old(self), old(shared)@, Seq::empty()), next, now as int),
            old(self).wf() ==> final(self).wf(),
    {
        let mut actions: Vec<AttentionAction> = Vec::new();
        self.apply_next(next, shared, now, &mut actions);
        actions
    }

    /// Plans the next attention from `config` at time `now` (local reading `now_local`).
    pub fn recalculate(
        &mut self,
        shared: &mut SharedSchedulerState,
        config: &AppConfig,
        now: i64,
        now_local: LocalDateTime,
    ) -> (actions: Vec<AttentionAction>)
        requires
            schedulable(now as int),
            local_reading_of(now as int, now_local),
            config.wf(),
        ensures
            exists|next: Option<(AttentionId, i64)>|
                next_ok(next, now as int)
                && planned_next(config.attentions@, now_local, next)
                && astep_of(*final(self), final(shared)@, actions@) == spec_apply_next(astep_of(*old(self), old(shared)@, Seq::empty()), next, now as int),
            old(self).wf() ==> final(self).wf(),
    {
        let next = calculate_next_attention_at(&config.attentions, now_local);
        self.apply_calculation(next, shared, now)
    }

    /// Starts the timer: unless paused, it plans the first attention.
    pub fn start(
        &mut self,
        shared: &mut SharedSchedulerState,
        config: &AppConfig,
        now: i64,
        now_local: LocalDateTime,
    ) -> (actions: Vec<AttentionAction>)
        requires
            schedulable(now as int),
            local_reading_of(now as int, now_local),
            config.wf(),
        ensures
            old(self).state is Paused ==> *final(self) == *old(self) && final(shared)@ == old(shared)@ && actions@.len() == 0,
            !(old(self).state is Paused) ==> exists|next: Option<(AttentionId, i64)>|
                next_ok(next, now as int)
                && planned_next(config.attentions@, now_local, next)
                && astep_of(*final(self), final(shared)@, actions@) == spec_apply_next(astep_of(*old(self), old(shared)@, Seq::empty()), next, now as int),
            old(self).wf() ==> final(self).wf(),
    {
        if let AttentionTimerState::Paused(_) = self.state {
            Vec::new()
        } else {
            self.recalculate(shared, config, now, now_local)
        }
    }

    /// The waited-for attention is due: it is shown.
    pub fn on_timer_fired(&mut self, shared: &mut SharedSchedulerState) -> (actions: Vec<AttentionAction>)
        ensures
            astep_of(*final(self), final(shared)@, actions@) == (match old(self).state {
                AttentionTimerState::WaitingForAttention(i) => spec_execute_attention(astep_of(*old(self), old(shared)@, Seq::empty()), i.attention_id),
                _ => astep_of(*old(self), old(shared)@, Seq::empty()),
            }),
    {
        let mut actions: Vec<AttentionAction> = Vec::new();
        if let AttentionTimerState::WaitingForAttention(info) = self.state {
            self.execute_attention(info.attention_id, shared, &mut actions);
        }
        actions
    }

    /// Handles a command, given the attention `next` planned from the configuration
    /// in force after the command.
    pub fn handle_command_with(
        &mut self,
        cmd: &Command,
        shared: &mut SharedSchedulerState,
        now: i64,
        next: Option<(AttentionId, i64)>,
    ) -> (actions: Vec<AttentionAction>)
        requires
            schedulable(now as int),
            next_ok(next, now as int),
        ensures
            astep_of(*final(self), final(shared)@, actions@) == spec_attention_command(astep_of(*old(self), old(shared)@, Seq::empty()), *cmd, now as int, next),
            old(self).wf() ==> final(self).wf(),
    {
        let mut actions: Vec<AttentionAction> = Vec::new();
        match cmd {
            Command::Pause(reason) => {
                self.state = AttentionTimerState::Paused(*reason);
            },
            Command::Resume(_) => {
                if let AttentionTimerState::Paused(_) = self.state {
                    self.apply_next(next, shared, now, &mut actions);
                }
            },
            Command::UpdateConfig(_) => {
                if let AttentionTimerState::Paused(_) = self.state {
                } else {
                    self.apply_next(next, shared, now, &mut actions);
                }
            },
            Command::TriggerEvent(SchedulerEvent::Attention(id)) => {
                self.execute_attention(*id, shared, &mut actions);
            },
            Command::PromptFinished(SchedulerEvent::Attention(_)) => {
                shared.end_attention_session();
                self.apply_next(next, shared, now, &mut actions);
            },
            _ => {},
        }
        actions
    }

    /// Handles a command at time `now` (local reading `now_local`) under `config`;
    /// for `UpdateConfig` the command's own configuration plans the next attention.
    pub fn handle_command(
        &mut self,
        cmd: &Command,
        shared: &mut SharedSchedulerState,
        config: &AppConfig,
        now: i64,
        now_local: LocalDateTime,
    ) -> (actions: Vec<AttentionAction>)
        requires
            schedulable(now as int),
            local_reading_of(now as int, now_local),
            config.wf(),
            cmd matches Command::UpdateConfig(c) ==> c.wf(),
        ensures
            exists|next: Option<(AttentionId, i64)>|
                next_ok(next, now as int)
                && planned_next(config_in_force(*cmd, *config).attentions@, now_local, next)
                && astep_of(*final(self), final(shared)@, actions@) == spec_attention_command(astep_of(*old(self), old(shared)@, Seq::empty()), *cmd, now as int, next),
            old(self).wf() ==> final(self).wf(),
    {
        let in_force = match cmd {
            Command::UpdateConfig(c) => c,
            _ => config,
        };
        assert(*in_force == config_in_force(*cmd, *config));
        let next = calculate_next_attention_at(&in_force.attentions, now_local);
        assert(planned_next(config_in_force(*cmd, *config).attentions@, now_local, next));
        assert(next_ok(next, now as int));
        self.handle_command_with(cmd, shared, now, next)
    }
}

} // verus!
