//! Allowed-hours payloads, weekly time limits, and the checks on the account
//! name that a command names.

use vstd::prelude::*;

use crate::keyed::StrMap;
use crate::text::{decimal, decimal_string, lemma_decimal_injective, str_equal};

verus! {

/// The allowed minutes within one hour and whether that hour counts against the
/// day's limit: the `STARTMIN`, `ENDMIN` and `UACC` fields of an hour.
#[derive(Clone, Copy, Debug, PartialEq, Eq, Structural)]
pub struct HourSpec {
    pub start_min: i32,
    pub end_min: i32,
    pub uacc: i32,
}

/// The allowed hours of one day, keyed by the hour's decimal text.
pub type AllowedHoursDay = StrMap<HourSpec>;

/// An hour that is allowed in full and not accounted.
pub open spec fn full_access_hour() -> HourSpec {
    HourSpec { start_min: 0, end_min: 60, uacc: 0 }
}

/// The keys of a full-access day: the hours 0 to 23 in decimal.
pub open spec fn day_hour_keys() -> Seq<Seq<char>> {
    Seq::new(24, |h: int| decimal(h as nat))
}

/// The allowed hours of a day on which every hour is allowed in full.
pub open spec fn full_access_day_map() -> Map<Seq<char>, HourSpec> {
    Map::new(|k: Seq<char>| day_hour_keys().to_set().contains(k), |k: Seq<char>| full_access_hour())
}

/// A day on which every hour from 0 to 23 is allowed in full.
pub fn build_full_access_day() -> (day: AllowedHoursDay)
    ensures
        day@ == full_access_day_map(),
        day.key_order() == day_hour_keys(),
        day@.dom() == day_hour_keys().to_set(),
        forall|k: Seq<char>| #[trigger] day@.contains_key(k) ==> day@[k] == full_access_hour(),
{
    let mut day: AllowedHoursDay = StrMap::new();
    let mut hour: u64 = 0;
    while hour < 24
        invariant
            hour <= 24,
            day.key_order() == day_hour_keys().take(hour as int),
            day@.dom() == day.key_order().to_set(),
            forall|k: Seq<char>| #[trigger] day@.contains_key(k) ==> day@[k] == full_access_hour(),
        decreases 24 - hour,
    {
        let key = decimal_string(hour);
        proof {
            assert forall|j: int| 0 <= j < hour implies day_hour_keys().take(hour as int)[j]
                != decimal(hour as nat) by {
                if day_hour_keys()[j] == decimal(hour as nat) {
                    lemma_decimal_injective(j as nat, hour as nat);
                }
            }
            assert(!day.key_order().contains(key@));
            assert(!day@.contains_key(key@));
        }
        day.insert(key, HourSpec { start_min: 0, end_min: 60, uacc: 0 });
        assert(day_hour_keys().take(hour as int).push(decimal(hour as nat)) =~= day_hour_keys().take(
            hour as int + 1,
        ));
        hour = hour + 1;
    }
    assert(day_hour_keys().take(24) =~= day_hour_keys());
    assert(day@ =~= full_access_day_map());
    day
}

/// What the parser reads of one hour's entry in an allowed-hours payload: whether it
/// is an object and, for each of the three fields, the field's value if it is an
/// integer that fits in 64 bits.
#[derive(Clone, Copy, Debug, PartialEq, Eq, Structural)]
pub enum HourSpecPayload {
    NotObject,
    Object { start_min: Option<i64>, end_min: Option<i64>, uacc: Option<i64> },
}

/// What the parser reads of a day's allowed-hours payload: whether it is an object
/// and, if so, its entries in the object's order.
pub enum DayHoursPayload {
    NotObject,
    Object(Vec<(String, HourSpecPayload)>),
}

/// The start of every message about one hour's entry.
pub open spec fn hour_message_prefix(day: Seq<char>, hour: Seq<char>) -> Seq<char> {
    "Allowed-hours spec for day "@ + day + ", hour "@ + hour
}

/// One field of an hour: its value if it is an integer that fits in `i32`, else the error.
pub open spec fn hour_field(day: Seq<char>, hour: Seq<char>, field: Seq<char>, raw: Option<i64>) -> Result<
    i32,
    Seq<char>,
> {
    match raw {
        None => Err(hour_message_prefix(day, hour) + " is missing integer field "@ + field),
        Some(v) => if i32::MIN <= v <= i32::MAX {
            Ok(v as i32)
        } else {
            Err(hour_message_prefix(day, hour) + " has out-of-range field "@ + field)
        },
    }
}

/// One hour's entry, checked field by field in the order STARTMIN, ENDMIN, UACC.
pub open spec fn hour_spec_of(day: Seq<char>, hour: Seq<char>, p: HourSpecPayload) -> Result<
    HourSpec,
    Seq<char>,
> {
    match p {
        HourSpecPayload::NotObject => Err(hour_message_prefix(day, hour) + " must be an object"@),
        HourSpecPayload::Object { start_min, end_min, uacc } => match hour_field(
            day,
            hour,
            "STARTMIN"@,
            start_min,
        ) {
            Err(e) => Err(e),
            Ok(s) => match hour_field(day, hour, "ENDMIN"@, end_min) {
                Err(e) => Err(e),
                Ok(en) => match hour_field(day, hour, "UACC"@, uacc) {
                    Err(e) => Err(e),
                    Ok(u) => Ok(HourSpec { start_min: s, end_min: en, uacc: u }),
                },
            },
        },
    }
}

/// The entries checked in order: the first error, or every hour stored under its key
/// (a later entry with the same key replacing an earlier one).
pub open spec fn hour_entries_of(day: Seq<char>, entries: Seq<(String, HourSpecPayload)>) -> Result<
    Map<Seq<char>, HourSpec>,
    Seq<char>,
>
    decreases entries.len(),
{
    if entries.len() == 0 {
        Ok(Map::empty())
    } else {
        match hour_entries_of(day, entries.drop_last()) {
            Err(e) => Err(e),
            Ok(m) => match hour_spec_of(day, entries.last().0@, entries.last().1) {
                Err(e) => Err(e),
                Ok(h) => Ok(m.insert(entries.last().0@, h)),
            },
        }
    }
}

/// What parsing a day's allowed-hours payload gives.
pub open spec fn day_hours_of(day: Seq<char>, payload: DayHoursPayload) -> Result<
    Map<Seq<char>, HourSpec>,
    Seq<char>,
> {
    match payload {
        DayHoursPayload::NotObject => Err(
            "Allowed-hours payload for day "@ + day + " must be an object"@,
        ),
        DayHoursPayload::Object(entries) => hour_entries_of(day, entries@),
    }
}

proof fn lemma_entries_error_persists(
    day: Seq<char>,
    entries: Seq<(String, HourSpecPayload)>,
    k: int,
    e: Seq<char>,
)
    requires
        0 <= k <= entries.len(),
        hour_entries_of(day, entries.take(k)) == Err::<Map<Seq<char>, HourSpec>, Seq<char>>(e),
    ensures
        hour_entries_of(day, entries.take(entries.len() as int)) == Err::<
            Map<Seq<char>, HourSpec>,
            Seq<char>,
        >(e),
    decreases entries.len() - k,
{
    if k < entries.len() {
        assert(entries.take(k + 1).drop_last() =~= entries.take(k));
        lemma_entries_error_persists(day, entries, k + 1, e);
    }
}

fn hour_message_start(day_str: &str, hour: &str) -> (s: String)
    ensures
        s@ == hour_message_prefix(day_str@, hour@),
{
    let mut s = String::from_str("Allowed-hours spec for day ");
    s.append(day_str);
    s.append(", hour ");
    s.append(hour);
    s
}

fn parse_hour_field(day_str: &str, hour: &str, field: &str, raw: Option<i64>) -> (r: Result<
    i32,
    String,
>)
    ensures
        match (r, hour_field(day_str@, hour@, field@, raw)) {
            (Ok(a), Ok(b)) => a == b,
            (Err(a), Err(b)) => a@ == b,
            _ => false,
        },
{
    match raw {
        None => {
            let mut s = hour_message_start(day_str, hour);
            s.append(" is missing integer field ");
            s.append(field);
            Err(s)
        },
        Some(v) => {
            if i32::MIN as i64 <= v && v <= i32::MAX as i64 {
                Ok(v as i32)
            } else {
                let mut s = hour_message_start(day_str, hour);
                s.append(" has out-of-range field ");
                s.append(field);
                Err(s)
            }
        },
    }
}

fn parse_hour_spec(day_str: &str, hour: &str, p: HourSpecPayload) -> (r: Result<HourSpec, String>)
    ensures
        match (r, hour_spec_of(day_str@, hour@, p)) {
            (Ok(a), Ok(b)) => a == b,
            (Err(a), Err(b)) => a@ == b,
            _ => false,
        },
{
    match p {
        HourSpecPayload::NotObject => {
            let mut s = hour_message_start(day_str, hour);
            s.append(" must be an object");
            Err(s)
        },
        HourSpecPayload::Object { start_min, end_min, uacc } => {
            let s: i32 = match parse_hour_field(day_str, hour, "STARTMIN", start_min) {
                Ok(v) => v,
                Err(e) => return Err(e),
            };
            let en: i32 = match parse_hour_field(day_str, hour, "ENDMIN", end_min) {
                Ok(v) => v,
                Err(e) => return Err(e),
            };
            let u: i32 = match parse_hour_field(day_str, hour, "UACC", uacc) {
                Ok(v) => v,
                Err(e) => return Err(e),
            };
            Ok(HourSpec { start_min: s, end_min: en, uacc: u })
        },
    }
}

/// Parses the allowed hours of the day `day_str`: the first entry that is not an
/// object, or that lacks one of the three integer fields or holds one outside the
/// `i32` range, decides the error; otherwise every hour is stored under its key.
pub fn parse_day_hours(value: &DayHoursPayload, day_str: &str) -> (r: Result<AllowedHoursDay, String>)
    ensures
        match (r, day_hours_of(day_str@, *value)) {
            (Ok(a), Ok(b)) => a@ == b,
            (Err(a), Err(b)) => a@ == b,
            _ => false,
        },
{
    match value {
        DayHoursPayload::NotObject => {
            let mut s = String::from_str("Allowed-hours payload for day ");
            s.append(day_str);
            s.append(" must be an object");
            Err(s)
        },
        DayHoursPayload::Object(entries) => {
            let mut parsed: AllowedHoursDay = StrMap::new();
            let mut i: usize = 0;
            while i < entries.len()
                invariant
                    i <= entries@.len(),
                    day_hours_of(day_str@, *value) == hour_entries_of(day_str@, entries@),
                    hour_entries_of(day_str@, entries@.take(i as int)) == Ok::<
                        Map<Seq<char>, HourSpec>,
                        Seq<char>,
                    >(parsed@),
                decreases entries.len() - i,
            {
                let ghost prefix = entries@.take(i as int + 1);
                assert(prefix.drop_last() =~= entries@.take(i as int));
                let hour = &entries[i].0;
                match parse_hour_spec(day_str, hour.as_str(), entries[i].1) {
                    Ok(spec) => {
                        assert(prefix.last() == entries@[i as int]);
                        parsed.insert(hour.clone(), spec);
                    },
                    Err(e) => {
                        assert(prefix.last() == entries@[i as int]);
                        assert(hour_entries_of(day_str@, prefix) == Err::<
                            Map<Seq<char>, HourSpec>,
                            Seq<char>,
                        >(e@));
                        proof {
                            lemma_entries_error_persists(day_str@, entries@, i as int + 1, e@);
                            assert(entries@.take(entries@.len() as int) =~= entries@);
                        }
                        return Err(e);
                    },
                }
                i = i + 1;
            }
            assert(entries@.take(entries@.len() as int) =~= entries@);
            Ok(parsed)
        },
    }
}


/// What the weekly schedule says of one day's hours, in the terms the conversion
/// decides on: a negative number (negative zero included), or a non-negative one
/// with whether it is above zero and `hours * 3600` rounded to whole seconds, when
/// that count fits in 64 bits.
#[derive(Clone, Copy, Debug, PartialEq, Eq, Structural)]
pub enum DayHours {
    Negative,
    NonNegative { positive: bool, rounded_seconds: Option<u64> },
}

/// The longest limit a day can have, in seconds.
pub const SECONDS_PER_DAY: u64 = 86400;

/// The schedule's key for the `i`th day of the week, Monday first.
pub open spec fn day_name(i: int) -> Seq<char> {
    if i == 0 {
        "monday"@
    } else if i == 1 {
        "tuesday"@
    } else if i == 2 {
        "wednesday"@
    } else if i == 3 {
        "thursday"@
    } else if i == 4 {
        "friday"@
    } else if i == 5 {
        "saturday"@
    } else {
        "sunday"@
    }
}

/// The allowed days and daily limits of the first `k` days, or the error of the
/// first day among them that is negative or whose limit falls outside one day.
pub open spec fn week_limits_of(week: Seq<DayHours>, k: int) -> Result<
    (Seq<Seq<char>>, Seq<i32>),
    Seq<char>,
>
    decreases k,
{
    if k <= 0 {
        Ok((Seq::empty(), Seq::empty()))
    } else {
        match week_limits_of(week, k - 1) {
            Err(e) => Err(e),
            Ok((days, limits)) => match week[k - 1] {
                DayHours::Negative => Err(
                    "Schedule value for "@ + day_name(k - 1) + " must not be negative"@,
                ),
                DayHours::NonNegative { positive, rounded_seconds } => match rounded_seconds {
                    Some(sec) if sec <= SECONDS_PER_DAY => Ok(
                        (
                            if positive {
                                days.push(decimal(k as nat))
                            } else {
                                days
                            },
                            limits.push(sec as i32),
                        ),
                    ),
                    _ => Err("Schedule value for "@ + day_name(k - 1) + " is out of range"@),
                },
            },
        }
    }
}

fn day_name_str(i: usize) -> (s: &'static str)
    requires
        i < 7,
    ensures
        s@ == day_name(i as int),
{
    if i == 0 {
        "monday"
    } else if i == 1 {
        "tuesday"
    } else if i == 2 {
        "wednesday"
    } else if i == 3 {
        "thursday"
    } else if i == 4 {
        "friday"
    } else if i == 5 {
        "saturday"
    } else {
        "sunday"
    }
}

proof fn lemma_week_error_persists(week: Seq<DayHours>, k: int, e: Seq<char>)
    requires
        0 <= k <= 7,
        week_limits_of(week, k) == Err::<(Seq<Seq<char>>, Seq<i32>), Seq<char>>(e),
    ensures
        week_limits_of(week, 7) == Err::<(Seq<Seq<char>>, Seq<i32>), Seq<char>>(e),
    decreases 7 - k,
{
    if k < 7 {
        lemma_week_error_persists(week, k + 1, e);
    }
}

/// Converts the week, Monday first, into the allowed days ("1" for Monday to "7"
/// for Sunday, for each day with more than zero hours) and the limit of every day in
/// seconds. The first day that is negative, or whose limit is not within one day,
/// decides the error.
pub fn schedule_to_day_limits(week: &[DayHours; 7]) -> (r: Result<(Vec<String>, Vec<i32>), String>)
    ensures
        match (r, week_limits_of(week@, 7)) {
            (Ok((days, limits)), Ok((sd, sl))) => days@.map_values(|d: String| d@) == sd
                && limits@ == sl,
            (Err(a), Err(b)) => a@ == b,
            _ => false,
        },
{
    let mut allowed_days: Vec<String> = Vec::new();
    let mut day_limits: Vec<i32> = Vec::new();
    let mut index: usize = 0;
    assert(allowed_days@.map_values(|d: String| d@) =~= Seq::<Seq<char>>::empty());
    assert(day_limits@ =~= Seq::<i32>::empty());
    while index < 7
        invariant
            index <= 7,
            week_limits_of(week@, index as int) == Ok::<(Seq<Seq<char>>, Seq<i32>), Seq<char>>(
                (allowed_days@.map_values(|d: String| d@), day_limits@),
            ),
        decreases 7 - index,
    {
        match week[index] {
            DayHours::Negative => {
                let mut s = String::from_str("Schedule value for ");
                s.append(day_name_str(index));
                s.append(" must not be negative");
                proof { lemma_week_error_persists(week@, index as int + 1, s@); }
                return Err(s);
            },
            DayHours::NonNegative { positive, rounded_seconds } => {
                let in_range = match rounded_seconds {
                    Some(sec) => sec <= SECONDS_PER_DAY,
                    None => false,
                };
                if !in_range {
                    let mut s = String::from_str("Schedule value for ");
                    s.append(day_name_str(index));
                    s.append(" is out of range");
                    proof { lemma_week_error_persists(week@, index as int + 1, s@); }
                    return Err(s);
                }
                let sec: u64 = rounded_seconds.unwrap();
                let ghost before = allowed_days@;
                if positive {
                    allowed_days.push(decimal_string(index as u64 + 1));
                    assert(allowed_days@.map_values(|d: String| d@) =~= before.map_values(
                        |d: String| d@,
                    ).push(decimal(index as nat + 1)));
                }
                day_limits.push(sec as i32);
            },
        }
        index = index + 1;
    }
    Ok((allowed_days, day_limits))
}

/// A first character allowed in a Linux account name.
pub open spec fn username_head_char(c: char) -> bool {
    ('a' <= c && c <= 'z') || c == '_'
}

/// A later character allowed in a Linux account name.
pub open spec fn username_tail_char(c: char) -> bool {
    ('a' <= c && c <= 'z') || ('0' <= c && c <= '9') || c == '_' || c == '-'
}

/// A Linux account name: 1 to 32 characters, the first a lowercase letter or `_`,
/// the rest lowercase letters, digits, `_` or `-`. All of these are ASCII, so the
/// bound on characters is the bound on bytes.
pub open spec fn valid_linux_username(s: Seq<char>) -> bool {
    &&& 1 <= s.len() <= 32
    &&& username_head_char(s[0])
    &&& forall|i: int| 1 <= i < s.len() ==> username_tail_char(#[trigger] s[i])
}

/// Whether `username` is a well-formed Linux account name.
pub fn is_valid_linux_username(username: &str) -> (r: bool)
    ensures
        r == valid_linux_username(username@),
{
    let n: usize = username.unicode_len();
    if n == 0 || n > 32 {
        return false;
    }
    let first: char = username.get_char(0);
    if !(('a' <= first && first <= 'z') || first == '_') {
        return false;
    }
    let mut i: usize = 1;
    while i < n
        invariant
            n == username@.len(),
            1 <= i <= n,
            forall|j: int| 1 <= j < i ==> username_tail_char(#[trigger] username@[j]),
        decreases n - i,
    {
        let ch: char = username.get_char(i);
        if !(('a' <= ch && ch <= 'z') || ('0' <= ch && ch <= '9') || ch == '_' || ch == '-') {
            return false;
        }
        i = i + 1;
    }
    true
}

/// The actions that act on the device as a whole rather than on one account.
pub open spec fn device_wide_action(action: Seq<char>) -> bool {
    ||| action == "get_domain_policy_state"@
    ||| action == "begin_domain_policy_sync"@
    ||| action == "delete_domain_policy_sources"@
    ||| action == "sync_domain_policy_chunk"@
    ||| action == "update_domain_policy_manifest"@
    ||| action == "finalize_domain_policy_sync"@
    ||| action == "abort_domain_policy_sync"@
    ||| action == "sync_domain_policy"@
    ||| action == "sync_screenshot_policy"@
    ||| action == "capture_screenshot"@
    ||| action == "unenroll"@
}

/// Whether the command `action` acts on a Linux account, so that its user name must be checked.
pub fn command_requires_linux_username(action: &str) -> (r: bool)
    ensures
        r == !device_wide_action(action@),
{
    !(str_equal(action, "get_domain_policy_state") || str_equal(action, "begin_domain_policy_sync")
        || str_equal(action, "delete_domain_policy_sources") || str_equal(
        action,
        "sync_domain_policy_chunk",
    ) || str_equal(action, "update_domain_policy_manifest") || str_equal(
        action,
        "finalize_domain_policy_sync",
    ) || str_equal(action, "abort_domain_policy_sync") || str_equal(action, "sync_domain_policy")
        || str_equal(action, "sync_screenshot_policy") || str_equal(action, "capture_screenshot")
        || str_equal(action, "unenroll"))
}


/// A day of the week converts without error: it is not negative and its limit is
/// at most one day.
pub open spec fn day_in_range(d: DayHours) -> bool {
    match d {
        DayHours::Negative => false,
        DayHours::NonNegative { rounded_seconds, .. } => match rounded_seconds {
            Some(sec) => sec <= SECONDS_PER_DAY,
            None => false,
        },
    }
}

/// The limit, in seconds, of a day that converts without error.
pub open spec fn day_seconds(d: DayHours) -> u64 {
    match d {
        DayHours::NonNegative { rounded_seconds: Some(sec), .. } => sec,
        _ => 0,
    }
}

/// A day with more than zero hours.
pub open spec fn day_positive(d: DayHours) -> bool {
    match d {
        DayHours::NonNegative { positive, .. } => positive,
        _ => false,
    }
}

/// Weekly conversion keeps every day: it succeeds exactly when every day is in range,
/// and then the limits are the seven days' seconds in order and the allowed days are
/// exactly the numbers (1 for Monday) of the days with more than zero hours, each
/// once and in order.
pub proof fn law_week_limits_keep_every_day(week: Seq<DayHours>, k: int)
    requires
        0 <= k <= 7,
        week.len() == 7,
    ensures
        (week_limits_of(week, k) is Ok) == (forall|i: int| 0 <= i < k ==> day_in_range(#[trigger] week[i])),
        week_limits_of(week, k) is Ok ==> {
            let (days, limits) = week_limits_of(week, k)->Ok_0;
            &&& limits.len() == k
            &&& forall|i: int| 0 <= i < k ==> #[trigger] limits[i] == day_seconds(week[i]) as i32
            &&& forall|x: Seq<char>| days.contains(x) <==> exists|i: int|
                0 <= i < k && day_positive(#[trigger] week[i]) && x == decimal((i + 1) as nat)
            &&& forall|a: int, b: int| 0 <= a < b < days.len() ==> #[trigger] days[a] != #[trigger] days[b]
        },
    decreases k,
{
    if k > 0 {
        law_week_limits_keep_every_day(week, k - 1);
        let prev = week_limits_of(week, k - 1);
        if prev is Ok {
            let (days, limits) = prev->Ok_0;
            let d = week[k - 1];
            if day_in_range(d) {
                let (days2, limits2) = week_limits_of(week, k)->Ok_0;
                assert(limits2 == limits.push(day_seconds(d) as i32));
                assert forall|i: int| 0 <= i < k implies #[trigger] limits2[i] == day_seconds(week[i]) as i32 by {
                    if i < k - 1 {
                        assert(limits2[i] == limits[i]);
                    }
                }
                assert forall|x: Seq<char>| days2.contains(x) <==> exists|i: int|
                    0 <= i < k && day_positive(#[trigger] week[i]) && x == decimal((i + 1) as nat) by {
                    if days2.contains(x) {
                        let j = choose|j: int| 0 <= j < days2.len() && days2[j] == x;
                        if j < days.len() {
                            assert(days2[j] == days[j]);
                            assert(days.contains(x));
                        } else {
                            assert(day_positive(week[k - 1]));
                            assert(x == decimal(k as nat));
                        }
                    }
                    if exists|i: int| 0 <= i < k && day_positive(#[trigger] week[i]) && x == decimal((i + 1) as nat) {
                        let i = choose|i: int| 0 <= i < k && day_positive(#[trigger] week[i]) && x == decimal((i + 1) as nat);
                        if i < k - 1 {
                            assert(days.contains(x));
                            let j = choose|j: int| 0 <= j < days.len() && days[j] == x;
                            assert(days2[j] == x);
                        } else {
                            assert(days2[days2.len() - 1] == x);
                        }
                    }
                }
                assert forall|a: int, b: int| 0 <= a < b < days2.len() implies #[trigger] days2[a]
                    != #[trigger] days2[b] by {
                    if b < days.len() {
                        assert(days2[a] == days[a] && days2[b] == days[b]);
                    } else if a < days.len() {
                        assert(days2[a] == days[a]);
                        assert(days.contains(days[a]));
                        let i = choose|i: int| 0 <= i < k - 1 && day_positive(#[trigger] week[i]) && days[a] == decimal((i + 1) as nat);
                        if days2[a] == days2[b] {
                            lemma_decimal_injective((i + 1) as nat, k as nat);
                        }
                    }
                }
            } else {
                assert(!(forall|i: int| 0 <= i < k ==> day_in_range(#[trigger] week[i])));
            }
        } else {
            assert(!(forall|i: int| 0 <= i < k ==> day_in_range(#[trigger] week[i])));
        }
    } else {
        let (days, limits) = week_limits_of(week, k)->Ok_0;
        assert(days.len() == 0);
    }
}

/// The entry for one hour passes the parser.
pub open spec fn hour_entry_ok(day: Seq<char>, e: (String, HourSpecPayload)) -> bool {
    hour_spec_of(day, e.0@, e.1) is Ok
}

/// An allowed-hours payload parses exactly when every entry is an object with the three
/// integer fields in the `i32` range; then the day has exactly the payload's hours,
/// and each hour holds the fields of the last entry for it.
pub proof fn law_day_hours_need_every_field(day: Seq<char>, entries: Seq<(String, HourSpecPayload)>)
    ensures
        (hour_entries_of(day, entries) is Ok) == (forall|i: int|
            0 <= i < entries.len() ==> hour_entry_ok(day, #[trigger] entries[i])),
        hour_entries_of(day, entries) is Ok ==> {
            let m = hour_entries_of(day, entries)->Ok_0;
            &&& forall|k: Seq<char>| m.contains_key(k) <==> exists|i: int|
                0 <= i < entries.len() && (#[trigger] entries[i]).0@ == k
            &&& forall|i: int| 0 <= i < entries.len() ==> (forall|j: int|
                i < j < entries.len() ==> (#[trigger] entries[j]).0@ != entries[i].0@) ==> m[(
            #[trigger] entries[i]).0@] == hour_spec_of(day, entries[i].0@, entries[i].1)->Ok_0
        },
    decreases entries.len(),
{
    if entries.len() > 0 {
        let prev = entries.drop_last();
        law_day_hours_need_every_field(day, prev);
        let last = entries.last();
        if hour_entries_of(day, prev) is Ok && hour_entry_ok(day, last) {
            let m0 = hour_entries_of(day, prev)->Ok_0;
            let m = hour_entries_of(day, entries)->Ok_0;
            assert(m == m0.insert(last.0@, hour_spec_of(day, last.0@, last.1)->Ok_0));
            assert forall|i: int| 0 <= i < entries.len() implies hour_entry_ok(day, #[trigger] entries[i]) by {
                if i < entries.len() - 1 {
                    assert(entries[i] == prev[i]);
                }
            }
            assert forall|k: Seq<char>| m.contains_key(k) <==> exists|i: int|
                0 <= i < entries.len() && (#[trigger] entries[i]).0@ == k by {
                if m0.contains_key(k) {
                    let i = choose|i: int| 0 <= i < prev.len() && (#[trigger] prev[i]).0@ == k;
                    assert(entries[i] == prev[i]);
                }
                if exists|i: int| 0 <= i < entries.len() && (#[trigger] entries[i]).0@ == k {
                    let i = choose|i: int| 0 <= i < entries.len() && (#[trigger] entries[i]).0@ == k;
                    if i < entries.len() - 1 {
                        assert(prev[i] == entries[i]);
                    }
                }
            }
            assert forall|i: int| 0 <= i < entries.len() && (forall|j: int|
                i < j < entries.len() ==> (#[trigger] entries[j]).0@ != entries[i].0@) implies m[(
            #[trigger] entries[i]).0@] == hour_spec_of(day, entries[i].0@, entries[i].1)->Ok_0 by {
                if i < entries.len() - 1 {
                    assert(entries[i] == prev[i]);
                    assert(entries[entries.len() - 1].0@ != entries[i].0@);
                    assert forall|j: int| i < j < prev.len() implies (#[trigger] prev[j]).0@ != prev[i].0@ by {
                        assert(prev[j] == entries[j]);
                    }
                }
            }
        } else if hour_entries_of(day, prev) is Ok {
            assert(!hour_entry_ok(day, entries[entries.len() - 1]));
        } else {
            let i = choose|i: int| 0 <= i < prev.len() && !hour_entry_ok(day, #[trigger] prev[i]);
            assert(entries[i] == prev[i]);
        }
    }
}


/// How an hour's allowed minutes are written in a payload: an object with the three
/// integer fields.
pub open spec fn hour_payload(h: HourSpec) -> HourSpecPayload {
    HourSpecPayload::Object {
        start_min: Some(h.start_min as i64),
        end_min: Some(h.end_min as i64),
        uacc: Some(h.uacc as i64),
    }
}

/// The entries write the day `m`: each key once, each entry holding its hour's fields,
/// and every hour of `m` among them.
pub open spec fn entries_write_day(entries: Seq<(String, HourSpecPayload)>, m: Map<Seq<char>, HourSpec>) -> bool {
    &&& forall|i: int, j: int|
        0 <= i < j < entries.len() ==> (#[trigger] entries[i]).0@ != (#[trigger] entries[j]).0@
    &&& forall|i: int|
        0 <= i < entries.len() ==> m.contains_key((#[trigger] entries[i]).0@) && entries[i].1
            == hour_payload(m[entries[i].0@])
    &&& forall|k: Seq<char>| #[trigger] m.contains_key(k) ==> exists|i: int|
        0 <= i < entries.len() && (#[trigger] entries[i]).0@ == k
}

/// A day's allowed hours, written as a payload with one entry per hour, parse back to
/// the same day, whatever day number they are parsed for.
pub proof fn law_written_day_parses_back(
    day: Seq<char>,
    entries: Seq<(String, HourSpecPayload)>,
    m: Map<Seq<char>, HourSpec>,
)
    requires
        entries_write_day(entries, m),
    ensures
        hour_entries_of(day, entries) == Ok::<Map<Seq<char>, HourSpec>, Seq<char>>(m),
    decreases entries.len(),
{
    if entries.len() == 0 {
        assert(m =~= Map::<Seq<char>, HourSpec>::empty());
    } else {
        let prev = entries.drop_last();
        let last = entries.last();
        let k = last.0@;
        let m0 = m.remove(k);
        assert(entries[entries.len() - 1] == last);
        assert forall|i: int| 0 <= i < prev.len() implies m0.contains_key((#[trigger] prev[i]).0@)
            && prev[i].1 == hour_payload(m0[prev[i].0@]) by {
            assert(prev[i] == entries[i]);
            assert(entries[i].0@ != entries[entries.len() - 1].0@);
        }
        assert forall|i: int, j: int| 0 <= i < j < prev.len() implies (#[trigger] prev[i]).0@
            != (#[trigger] prev[j]).0@ by {
            assert(prev[i] == entries[i] && prev[j] == entries[j]);
        }
        assert forall|kk: Seq<char>| #[trigger] m0.contains_key(kk) implies exists|i: int|
            0 <= i < prev.len() && (#[trigger] prev[i]).0@ == kk by {
            let i = choose|i: int| 0 <= i < entries.len() && (#[trigger] entries[i]).0@ == kk;
            assert(i != entries.len() - 1);
            assert(prev[i] == entries[i]);
        }
        law_written_day_parses_back(day, prev, m0);
        let h = m[k];
        assert(hour_spec_of(day, k, last.1) == Ok::<HourSpec, Seq<char>>(h));
        assert(m0.insert(k, h) =~= m);
    }
}

/// The full-access day, written as a payload with one entry per hour in any order,
/// parses back to the full-access day.
pub proof fn law_full_access_day_parses_back(day: Seq<char>, payload: DayHoursPayload)
    requires
        payload matches DayHoursPayload::Object(v) && entries_write_day(v@, full_access_day_map()),
    ensures
        day_hours_of(day, payload) == Ok::<Map<Seq<char>, HourSpec>, Seq<char>>(full_access_day_map()),
{
    law_written_day_parses_back(day, payload->Object_0@, full_access_day_map());
}


/// An hour's entry as the original accepts it: an object whose `STARTMIN`, `ENDMIN`
/// and `UACC` fields are all present integers in the `i32` range.
pub open spec fn complete_hour(p: HourSpecPayload) -> bool {
    p matches HourSpecPayload::Object { start_min: Some(s), end_min: Some(e), uacc: Some(u) }
        && i32::MIN <= s <= i32::MAX && i32::MIN <= e <= i32::MAX && i32::MIN <= u <= i32::MAX
}

/// One hour's entry parses exactly when all three fields are present integers in the
/// `i32` range, and then to those three values; an entry whose `UACC` is missing (its
/// other two fields being fine) is refused with the message that names `UACC`.
pub proof fn law_hour_needs_all_three_fields(day: Seq<char>, hour: Seq<char>, p: HourSpecPayload)
    ensures
        (hour_spec_of(day, hour, p) is Ok) == complete_hour(p),
        match p {
            HourSpecPayload::Object { start_min: Some(s), end_min: Some(e), uacc: Some(u) } =>
                complete_hour(p) ==> hour_spec_of(day, hour, p) == Ok::<HourSpec, Seq<char>>(
                HourSpec { start_min: s as i32, end_min: e as i32, uacc: u as i32 },
            ),
            HourSpecPayload::Object { start_min: Some(s), end_min: Some(e), uacc: None } => (
            i32::MIN <= s <= i32::MAX && i32::MIN <= e <= i32::MAX) ==> hour_spec_of(day, hour, p)
                == Err::<HourSpec, Seq<char>>(
                "Allowed-hours spec for day "@ + day + ", hour "@ + hour
                    + " is missing integer field UACC"@,
            ),
            _ => true,
        },
{
    reveal_strlit(" is missing integer field ");
    reveal_strlit("UACC");
    reveal_strlit(" is missing integer field UACC");
    assert(" is missing integer field "@ + "UACC"@ =~= " is missing integer field UACC"@);
    assert(hour_message_prefix(day, hour) + " is missing integer field "@ + "UACC"@
        =~= "Allowed-hours spec for day "@ + day + ", hour "@ + hour
        + " is missing integer field UACC"@);
}

/// A day's allowed-hours entries parse exactly when every entry has all three fields
/// as integers in the `i32` range.
pub proof fn law_day_needs_complete_hours(day: Seq<char>, entries: Seq<(String, HourSpecPayload)>)
    ensures
        (hour_entries_of(day, entries) is Ok) == (forall|i: int|
            0 <= i < entries.len() ==> complete_hour(#[trigger] entries[i].1)),
{
    law_day_hours_need_every_field(day, entries);
    assert forall|i: int| 0 <= i < entries.len() implies hour_entry_ok(day, #[trigger] entries[i])
        == complete_hour(entries[i].1) by {
        law_hour_needs_all_three_fields(day, entries[i].0@, entries[i].1);
    }
}

} // verus!
