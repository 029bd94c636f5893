//! Counters that the storage extension reports, and what changed between two
//! readings of them.
use crate::json::{self, as_unsigned, as_whole, copied, copy, member, whole, Json};
use crate::text::{self, same_text, starts_with};
use vstd::prelude::*;

verus! {

/// The value of a counter: the first entry with its name.
pub open spec fn stat_of(values: Seq<(String, i64)>, key: Seq<char>) -> Option<i64>
    decreases values.len(),
{
    if values.len() == 0 {
        None
    } else if values[0].0@ == key {
        Some(values[0].1)
    } else {
        stat_of(values.drop_first(), key)
    }
}

/// The value of a counter.
pub fn find_stat(values: &Vec<(String, i64)>, key: &str) -> (value: Option<i64>)
    ensures
        value == stat_of(values@, key@),
{
    let mut i: usize = 0;
    assert(values@.skip(0) =~= values@);
    while i < values.len()
        invariant
            i <= values@.len(),
            stat_of(values@, key@) == stat_of(values@.skip(i as int), key@),
        decreases values.len() - i,
    {
        assert(values@.skip(i as int)[0] == values@[i as int]);
        assert(values@.skip(i as int).drop_first() =~= values@.skip(i + 1));
        if same_text(&values[i].0, key) {
            return Some(values[i].1);
        }
        i += 1;
    }
    None
}

/// A counter was asked for that the extension did not report.
#[derive(Clone, Debug, PartialEq, Eq)]
pub enum StatError {
    Omitted(String),
    OmittedBefore(String),
    OmittedAfter(String),
}

/// The value of a counter, which must be there.
pub fn stat(values: &Vec<(String, i64)>, key: &str) -> (value: Result<i64, StatError>)
    ensures
        value is Ok <==> stat_of(values@, key@) is Some,
        value matches Ok(v) ==> stat_of(values@, key@) == Some(v),
        value matches Err(e) ==> e matches StatError::Omitted(name) && name@ == key@,
{
    match find_stat(values, key) {
        Some(v) => Ok(v),
        None => Err(StatError::Omitted(copied(key))),
    }
}

/// A difference, held to the range of 64 signed bits.
pub open spec fn clamped(d: int) -> int {
    if d < i64::MIN {
        i64::MIN as int
    } else if d > i64::MAX {
        i64::MAX as int
    } else {
        d
    }
}

pub(crate) fn clamped_difference(a: i64, b: i64) -> (d: i64)
    ensures
        d == clamped(a - b),
{
    let wide: i128 = a as i128 - b as i128;
    if wide < i64::MIN as i128 {
        i64::MIN
    } else if wide > i64::MAX as i128 {
        i64::MAX
    } else {
        wide as i64
    }
}

/// By how much a counter grew between two readings.
pub fn stat_delta(
    before: &Vec<(String, i64)>,
    after: &Vec<(String, i64)>,
    key: &str,
) -> (delta: Result<i64, StatError>)
    ensures
        match delta {
            Ok(d) => stat_of(before@, key@) matches Some(b) && stat_of(after@, key@) matches Some(a)
                && d == clamped(a - b),
            Err(StatError::OmittedBefore(name)) => stat_of(before@, key@) is None && name@ == key@,
            Err(StatError::OmittedAfter(name)) => stat_of(before@, key@) is Some && stat_of(
                after@,
                key@,
            ) is None && name@ == key@,
            Err(StatError::Omitted(_)) => false,
        },
{
    match find_stat(before, key) {
        None => Err(StatError::OmittedBefore(copied(key))),
        Some(b) => match find_stat(after, key) {
            None => Err(StatError::OmittedAfter(copied(key))),
            Some(a) => Ok(clamped_difference(a, b)),
        },
    }
}

/// The entries of a list as names and values.
pub open spec fn stat_views(values: Seq<(String, i64)>) -> Seq<(Seq<char>, i64)> {
    values.map_values(|e: (String, i64)| (e.0@, e.1))
}

/// What the queries between two readings did: every query counter that both
/// readings have, with its growth, in the order of the second reading.
pub open spec fn work_of(before: Seq<(String, i64)>, after: Seq<(String, i64)>) -> Seq<
    (Seq<char>, i64),
>
    decreases after.len(),
{
    if after.len() == 0 {
        Seq::empty()
    } else {
        let rest = work_of(before, after.drop_last());
        let (key, value) = after.last();
        match stat_of(before, key@) {
            Some(old_value) => if text::begins_with(key@, "query_"@) {
                rest.push((key@, clamped(value - old_value) as i64))
            } else {
                rest
            },
            None => rest,
        }
    }
}

/// What the queries between two readings did.
pub fn work_delta(before: &Vec<(String, i64)>, after: &Vec<(String, i64)>) -> (work: Vec<
    (String, i64),
>)
    ensures
        stat_views(work@) == work_of(before@, after@),
{
    let mut work: Vec<(String, i64)> = Vec::new();
    let mut i: usize = 0;
    assert(stat_views(work@) =~= work_of(before@, after@.take(0)));
    while i < after.len()
        invariant
            i <= after@.len(),
            stat_views(work@) == work_of(before@, after@.take(i as int)),
        decreases after.len() - i,
    {
        let ghost seen = work@;
        assert(after@.take(i + 1).drop_last() =~= after@.take(i as int));
        assert(after@.take(i + 1).last() == after@[i as int]);
        if starts_with(&after[i].0, "query_") {
            if let Some(old_value) = find_stat(before, &after[i].0) {
                work.push((copied(&after[i].0), clamped_difference(after[i].1, old_value)));
                assert(stat_views(work@) =~= stat_views(seen).push(
                    (after@[i as int].0@, clamped(after@[i as int].1 - old_value) as i64),
                ));
            }
        }
        i += 1;
    }
    assert(after@.take(i as int) =~= after@);
    work
}

/// The integer under a name in a JSON object of counters.
pub open spec fn json_stat(stats: Json, key: Seq<char>) -> Option<i64> {
    match json::member_of(stats, key) {
        Some(value) => json::whole_of(value),
        None => None,
    }
}

/// The integer under a name in a JSON object of counters.
pub fn stat_i64(stats: &Json, key: &str) -> (value: Option<i64>)
    ensures
        value == json_stat(*stats, key@),
{
    match member(stats, key) {
        Some(value) => as_whole(value),
        None => None,
    }
}

/// What became of one member between two readings, if it is a counter.
pub open spec fn member_delta(before: Option<Json>, after: Json) -> Option<Json> {
    match before {
        Some(b) => match (json::whole_of(b), json::whole_of(after)) {
            (Some(x), Some(y)) => Some(json::whole_value((y - x) as i64)),
            _ => match (json::unsigned_of(b), json::unsigned_of(after)) {
                (Some(x), Some(y)) => Some(
                    Json::Unsigned(
                        if y > x {
                            (y - x) as u64
                        } else {
                            0
                        },
                    ),
                ),
                _ => None,
            },
        },
        None => None,
    }
}

/// The growth of one member fits in 64 signed bits, where it is one.
pub open spec fn growth_fits(before: Option<Json>, after: Json) -> bool {
    match before {
        Some(b) => match (json::whole_of(b), json::whole_of(after)) {
            (Some(x), Some(y)) => i64::MIN <= y - x <= i64::MAX,
            _ => true,
        },
        None => true,
    }
}

/// The growth of every counter with a prefix fits in 64 signed bits.
pub open spec fn deltas_fit(before: Json, after: Json, prefix: Seq<char>) -> bool {
    after matches Json::Object(members) ==> forall|i: int|
        0 <= i < members@.len() && text::begins_with((#[trigger] members@[i]).0@, prefix)
            ==> growth_fits(json::member_of(before, members@[i].0@), members@[i].1)
}

/// Whether the growth of every counter with a prefix fits in 64 signed bits.
#[verifier::loop_isolation(false)]
pub fn growth_is_representable(before: &Json, after: &Json, prefix: &str) -> (yes: bool)
    ensures
        yes == deltas_fit(*before, *after, prefix@),
{
    if let Json::Object(members) = after {
        let mut i: usize = 0;
        while i < members.len()
            invariant
                i <= members@.len(),
                forall|j: int|
                    0 <= j < i && text::begins_with((#[trigger] members@[j]).0@, prefix@)
                        ==> growth_fits(json::member_of(*before, members@[j].0@), members@[j].1),
            decreases members.len() - i,
        {
            if starts_with(&members[i].0, prefix) {
                if let Some(b) = member(before, &members[i].0) {
                    if let (Some(x), Some(y)) = (as_whole(b), as_whole(&members[i].1)) {
                        let wide: i128 = y as i128 - x as i128;
                        if wide < i64::MIN as i128 || wide > i64::MAX as i128 {
                            assert(!growth_fits(
                                json::member_of(*before, members@[i as int].0@),
                                members@[i as int].1,
                            ));
                            return false;
                        }
                    }
                }
            }
            i += 1;
        }
    }
    true
}

/// The members of an object as names and values.
pub open spec fn entries(list: Seq<(String, Json)>) -> Seq<(Seq<char>, Json)> {
    list.map_values(|e: (String, Json)| (e.0@, e.1))
}

/// The growth of the counters with a prefix, in the order of the second reading.
pub open spec fn deltas(before: Json, after: Seq<(String, Json)>, prefix: Seq<char>) -> Seq<
    (Seq<char>, Json),
>
    decreases after.len(),
{
    if after.len() == 0 {
        Seq::empty()
    } else {
        let rest = deltas(before, after.drop_last(), prefix);
        let (key, value) = after.last();
        match member_delta(json::member_of(before, key@), value) {
            Some(delta) => if text::begins_with(key@, prefix) {
                rest.push((key@, delta))
            } else {
                rest
            },
            None => rest,
        }
    }
}

fn delta_of(before: Option<&Json>, after: &Json) -> (delta: Option<Json>)
    requires
        match before {
            Some(b) => growth_fits(Some(*b), *after),
            None => true,
        },
    ensures
        delta == member_delta(
            match before {
                Some(b) => Some(*b),
                None => None,
            },
            *after,
        ),
{
    match before {
        Some(b) => match (as_whole(b), as_whole(after)) {
            (Some(x), Some(y)) => Some(whole(y - x)),
            _ => match (as_unsigned(b), as_unsigned(after)) {
                (Some(x), Some(y)) => Some(
                    Json::Unsigned(
                        if y > x {
                            y - x
                        } else {
                            0
                        },
                    ),
                ),
                _ => None,
            },
        },
        None => None,
    }
}

/// The growth of the counters with a prefix between two readings. A reading
/// that is no object has no counters.
#[verifier::loop_isolation(false)]
pub fn prefix_numeric_delta(before: &Json, after: &Json, prefix: &str) -> (result: Vec<
    (String, Json),
>)
    requires
        deltas_fit(*before, *after, prefix@),
    ensures
        match (*before, *after) {
            (Json::Object(_), Json::Object(members)) => entries(result@) == deltas(
                *before,
                members@,
                prefix@,
            ),
            _ => result@.len() == 0,
        },
{
    let mut result: Vec<(String, Json)> = Vec::new();
    if let (Json::Object(_), Json::Object(members)) = (before, after) {
        let mut i: usize = 0;
        assert(entries(result@) =~= deltas(*before, members@.take(0), prefix@));
        while i < members.len()
            invariant
                i <= members@.len(),
                entries(result@) == deltas(*before, members@.take(i as int), prefix@),
            decreases members.len() - i,
        {
            let ghost seen = result@;
            assert(members@.take(i + 1).drop_last() =~= members@.take(i as int));
            assert(members@.take(i + 1).last() == members@[i as int]);
            if starts_with(&members[i].0, prefix) {
                let found = member(before, &members[i].0);
                if let Some(delta) = delta_of(found, &members[i].1) {
                    result.push((copied(&members[i].0), delta));
                    assert(entries(result@) =~= entries(seen).push(
                        (members@[i as int].0@, delta),
                    ));
                }
            }
            i += 1;
        }
        assert(members@.take(i as int) =~= members@);
    }
    result
}

/// The fields of an object under given names; null where there is none.
pub fn select_fields(value: &Json, fields: &[&str]) -> (result: Vec<(String, Json)>)
    ensures
        result@.len() == fields@.len(),
        forall|i: int|
            0 <= i < fields@.len() ==> (#[trigger] result@[i]).0@ == fields@[i]@ && match json::member_of(
                *value,
                fields@[i]@,
            ) {
                Some(v) => json::tree(result@[i].1) == json::tree(v),
                None => result@[i].1 is Null,
            },
{
    let mut result: Vec<(String, Json)> = Vec::new();
    let mut i: usize = 0;
    while i < fields.len()
        invariant
            i <= fields@.len(),
            result@.len() == i,
            forall|j: int|
                0 <= j < i ==> (#[trigger] result@[j]).0@ == fields@[j]@ && match json::member_of(
                    *value,
                    fields@[j]@,
                ) {
                    Some(v) => json::tree(result@[j].1) == json::tree(v),
                    None => result@[j].1 is Null,
                },
        decreases fields.len() - i,
    {
        let found = match member(value, fields[i]) {
            Some(v) => copy(v),
            None => Json::Null,
        };
        result.push((copied(fields[i]), found));
        i += 1;
    }
    result
}

} // verus!
