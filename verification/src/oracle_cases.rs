//! What the cases of an oracle fixture ask, and what they expect.
use crate::calendar::{self, CalendarError};
use crate::json::{self, as_whole, copied, member, Json, Tree};
use crate::moments::{self, format_timestamp, replace_marks, timestamp};
use crate::text::{self, push_decimal, push_signed};
use vstd::prelude::*;
use vstd::string::*;

verus! {

/// Why a case cannot be used.
#[derive(Clone, Copy, Debug, PartialEq, Eq)]
pub enum CaseError {
    /// An integer is missing.
    Integer(&'static str),
    /// An array is missing.
    List(&'static str),
    /// A string is missing.
    Text(&'static str),
    /// A value is missing.
    Missing(&'static str),
    /// A row is no document.
    Document,
    /// A value is no object.
    NotObject(&'static str),
    /// A value is neither a string nor a number.
    NotScalar,
    /// An offset is no integer.
    NotInteger,
    /// A list has no value, or a pair has none.
    Empty,
    /// A time leaves the range in which it can be written.
    Time,
    /// A calendar field has no value.
    Calendar(CalendarError),
}

/// The object has a key.
pub open spec fn has_key(case: Json, name: &'static str) -> bool {
    json::member_of(case, name@) is Some
}

pub(crate) fn contains_key(case: &Json, name: &'static str) -> (yes: bool)
    ensures
        yes == has_key(*case, name),
{
    match member(case, name) {
        Some(_) => true,
        None => false,
    }
}

/// The flag under a key is set.
pub open spec fn flag(case: Json, name: &'static str) -> bool {
    json::member_of(case, name@) == Some(Json::Bool(true))
}

pub(crate) fn is_set(case: &Json, name: &'static str) -> (yes: bool)
    ensures
        yes == flag(*case, name),
{
    match member(case, name) {
        Some(Json::Bool(b)) => *b,
        _ => false,
    }
}

/// The string under a key.
pub open spec fn text_at(case: Json, name: &'static str) -> Result<Seq<char>, CaseError> {
    match json::member_of(case, name@) {
        Some(value) => match json::text_of(value) {
            Some(t) => Ok(t),
            None => Err(CaseError::Text(name)),
        },
        None => Err(CaseError::Text(name)),
    }
}

/// A text result by its characters.
pub open spec fn text_result(r: Result<String, CaseError>) -> Result<Seq<char>, CaseError> {
    match r {
        Ok(t) => Ok(t@),
        Err(e) => Err(e),
    }
}

/// The string under a key.
pub fn string(case: &Json, name: &'static str) -> (result: Result<String, CaseError>)
    ensures
        text_result(result) == text_at(*case, name),
{
    match member(case, name) {
        Some(Json::Text(t)) => Ok(copied(t)),
        _ => Err(CaseError::Text(name)),
    }
}

/// The string under a key that may be missing.
pub open spec fn optional_text(case: Json, name: &'static str) -> Result<
    Option<Seq<char>>,
    CaseError,
> {
    if has_key(case, name) {
        match text_at(case, name) {
            Ok(t) => Ok(Some(t)),
            Err(e) => Err(e),
        }
    } else {
        Ok(None)
    }
}

/// An optional text by its characters.
pub open spec fn optional_view(t: Option<String>) -> Option<Seq<char>> {
    match t {
        Some(t) => Some(t@),
        None => None,
    }
}

pub(crate) fn optional_string(case: &Json, name: &'static str) -> (result: Result<Option<String>, CaseError>)
    ensures
        match result {
            Ok(t) => optional_text(*case, name) == Ok::<Option<Seq<char>>, CaseError>(
                optional_view(t),
            ),
            Err(e) => optional_text(*case, name) == Err::<Option<Seq<char>>, CaseError>(e),
        },
{
    if contains_key(case, name) {
        match string(case, name) {
            Ok(t) => Ok(Some(t)),
            Err(e) => Err(e),
        }
    } else {
        Ok(None)
    }
}

/// The integer under a key.
pub open spec fn whole_at(case: Json, name: &'static str) -> Result<i64, CaseError> {
    match json::member_of(case, name@) {
        Some(value) => match json::whole_of(value) {
            Some(n) => Ok(n),
            None => Err(CaseError::Integer(name)),
        },
        None => Err(CaseError::Integer(name)),
    }
}

/// The integer under a key.
pub fn offset(case: &Json, name: &'static str) -> (result: Result<i64, CaseError>)
    ensures
        result == whole_at(*case, name),
{
    match member(case, name) {
        Some(value) => match as_whole(value) {
            Some(n) => Ok(n),
            None => Err(CaseError::Integer(name)),
        },
        None => Err(CaseError::Integer(name)),
    }
}

/// The array under a key, if there is one.
pub open spec fn maybe_list(case: Json, name: &'static str) -> Option<Seq<Json>> {
    match json::member_of(case, name@) {
        Some(value) => json::items_of(value),
        None => None,
    }
}

pub(crate) fn find_list<'a>(case: &'a Json, name: &'static str) -> (result: Option<&'a Vec<Json>>)
    ensures
        match result {
            Some(l) => maybe_list(*case, name) == Some(l@),
            None => maybe_list(*case, name) is None,
        },
{
    match member(case, name) {
        Some(value) => json::items(value),
        None => None,
    }
}

/// The array under a key.
pub open spec fn list_at(case: Json, name: &'static str) -> Result<Seq<Json>, CaseError> {
    match maybe_list(case, name) {
        Some(l) => Ok(l),
        None => Err(CaseError::List(name)),
    }
}

/// The array under a key.
pub fn values<'a>(case: &'a Json, name: &'static str) -> (result: Result<&'a Vec<Json>, CaseError>)
    ensures
        match result {
            Ok(l) => list_at(*case, name) == Ok::<Seq<Json>, CaseError>(l@),
            Err(e) => list_at(*case, name) == Err::<Seq<Json>, CaseError>(e),
        },
{
    match find_list(case, name) {
        Some(l) => Ok(l),
        None => Err(CaseError::List(name)),
    }
}

/// The object under a key, if there is one.
pub open spec fn maybe_object(case: Json, name: &'static str) -> Option<Json> {
    match json::member_of(case, name@) {
        Some(value) => if value is Object {
            Some(value)
        } else {
            None
        },
        None => None,
    }
}

pub(crate) fn find_object<'a>(case: &'a Json, name: &'static str) -> (result: Option<&'a Json>)
    ensures
        match result {
            Some(o) => maybe_object(*case, name) == Some(*o),
            None => maybe_object(*case, name) is None,
        },
{
    match member(case, name) {
        Some(value) => match value {
            Json::Object(_) => Some(value),
            _ => None,
        },
        None => None,
    }
}

/// The identifier of a case.
pub open spec fn identifier(case: Json) -> Seq<char> {
    match text_at(case, "id") {
        Ok(t) => t,
        Err(_) => "unknown-case"@,
    }
}

/// The identifier of a case.
pub fn case_id(case: &Json) -> (id: String)
    ensures
        id@ == identifier(*case),
{
    match string(case, "id") {
        Ok(t) => t,
        Err(_) => copied("unknown-case"),
    }
}

/// All values of a list are objects.
pub open spec fn all_objects(list: Seq<Json>) -> bool {
    forall|i: int| 0 <= i < list.len() ==> (#[trigger] list[i]) is Object
}

/// The cases of a fixture under a name: an array of objects.
pub fn object_cases<'a>(fixture: &'a Json, name: &'static str) -> (result: Result<
    &'a Vec<Json>,
    CaseError,
>)
    ensures
        match result {
            Ok(l) => maybe_list(*fixture, name) == Some(l@) && all_objects(l@),
            Err(CaseError::List(n)) => n == name && maybe_list(*fixture, name) is None,
            Err(CaseError::NotObject(n)) => n == name && (maybe_list(*fixture, name) matches Some(l)
                && !all_objects(l)),
            Err(_) => false,
        },
{
    let list = match find_list(fixture, name) {
        Some(l) => l,
        None => return Err(CaseError::List(name)),
    };
    let mut i: usize = 0;
    while i < list.len()
        invariant
            i <= list@.len(),
            maybe_list(*fixture, name) == Some(list@),
            forall|j: int| 0 <= j < i ==> (#[trigger] list@[j]) is Object,
        decreases list.len() - i,
    {
        match &list[i] {
            Json::Object(_) => {},
            _ => {
                assert(!(list@[i as int] is Object));
                return Err(CaseError::NotObject(name));
            },
        }
        i += 1;
    }
    Ok(list)
}

/// A time some way from another.
pub open spec fn shifted(base: i64, by: i64) -> Result<i64, CaseError> {
    if i64::MIN <= base + by <= i64::MAX {
        Ok((base + by) as i64)
    } else {
        Err(CaseError::Time)
    }
}

pub(crate) fn shift(base: i64, by: i64) -> (result: Result<i64, CaseError>)
    ensures
        result == shifted(base, by),
{
    match base.checked_add(by) {
        Some(t) => Ok(t),
        None => Err(CaseError::Time),
    }
}

/// The time that an offset under a key names.
pub open spec fn moment_at(case: Json, name: &'static str, base: i64) -> Result<i64, CaseError> {
    match whole_at(case, name) {
        Ok(by) => shifted(base, by),
        Err(e) => Err(e),
    }
}

/// The time that an offset under a key names.
pub fn moment(case: &Json, name: &'static str, base: i64) -> (result: Result<i64, CaseError>)
    ensures
        result == moment_at(*case, name, base),
{
    match offset(case, name) {
        Ok(by) => shift(base, by),
        Err(e) => Err(e),
    }
}

/// A value result by what it holds.
pub open spec fn tree_result(r: Result<Json, CaseError>) -> Result<Tree, CaseError> {
    match r {
        Ok(v) => Ok(json::tree(v)),
        Err(e) => Err(e),
    }
}

/// The text of a string or of a number.
pub open spec fn scalar_text(value: Tree) -> Result<Seq<char>, CaseError> {
    match value {
        Tree::Text(t) => Ok(t),
        Tree::Unsigned(n) => Ok(text::decimal(n as nat)),
        Tree::Negative(n) => Ok(text::signed_decimal(n as int)),
        Tree::Float(_, t) => Ok(t),
        _ => Err(CaseError::NotScalar),
    }
}

/// The text of a string or of a number.
pub fn value_string(value: &Json) -> (result: Result<String, CaseError>)
    ensures
        text_result(result) == scalar_text(json::tree(*value)),
{
    match value {
        Json::Text(t) => Ok(copied(t)),
        Json::Unsigned(n) => {
            let mut out = String::new();
            push_decimal(&mut out, *n);
            assert(out@ =~= text::decimal(*n as nat));
            Ok(out)
        },
        Json::Negative(n) => {
            let mut out = String::new();
            push_signed(&mut out, *n);
            assert(out@ =~= text::signed_decimal(*n as int));
            Ok(out)
        },
        Json::Float(_, t) => Ok(copied(t)),
        _ => Err(CaseError::NotScalar),
    }
}

pub(crate) fn two_values(a: Json, b: Json) -> (value: Json)
    ensures
        json::tree(value) == Tree::Array(seq![json::tree(a), json::tree(b)]),
{
    let mut list: Vec<Json> = Vec::new();
    list.push(a);
    list.push(b);
    proof {
        json::array_tree(list);
        assert(json::trees(list@) =~= seq![json::tree(a), json::tree(b)]);
    }
    Json::Array(list)
}

pub(crate) fn two_members(first: &str, a: Json, second: &str, b: Json) -> (value: Json)
    ensures
        json::tree(value) == Tree::Object(
            seq![(first@, json::tree(a)), (second@, json::tree(b))],
        ),
{
    let mut list: Vec<(String, Json)> = Vec::new();
    list.push((copied(first), a));
    list.push((copied(second), b));
    proof {
        json::object_tree(list);
        assert(json::member_trees(list@) =~= seq![
            (first@, json::tree(a)),
            (second@, json::tree(b)),
        ]);
    }
    Json::Object(list)
}

pub(crate) fn one_member(first: &str, a: Json) -> (value: Json)
    ensures
        json::tree(value) == Tree::Object(seq![(first@, json::tree(a))]),
{
    let mut list: Vec<(String, Json)> = Vec::new();
    list.push((copied(first), a));
    proof {
        json::object_tree(list);
        assert(json::member_trees(list@) =~= seq![(first@, json::tree(a))]);
    }
    Json::Object(list)
}

/// A list as a value.
pub fn listed(list: Vec<Json>) -> (value: Json)
    ensures
        json::tree(value) == Tree::Array(json::trees(list@)),
{
    proof {
        json::array_tree(list);
    }
    Json::Array(list)
}

/// A sample: a time, and the text of a value.
pub open spec fn point(ms: int, value: Tree) -> Result<Tree, CaseError> {
    match scalar_text(value) {
        Ok(s) => Ok(Tree::Array(seq![moments::timestamp_tree(ms), Tree::Text(s)])),
        Err(e) => Err(e),
    }
}

pub(crate) fn point_of(ms: i64, value: &Json) -> (result: Result<Json, CaseError>)
    ensures
        tree_result(result) == point(ms as int, json::tree(*value)),
{
    let t = timestamp(ms);
    match value_string(value) {
        Ok(s) => Ok(two_values(t, Json::Text(s))),
        Err(e) => Err(e),
    }
}

/// The first `n` samples of a series.
pub open spec fn points(times: Seq<int>, values: Seq<Tree>, n: nat) -> Result<
    Seq<Tree>,
    CaseError,
>
    decreases n,
{
    if n == 0 {
        Ok(Seq::empty())
    } else {
        match points(times, values, (n - 1) as nat) {
            Ok(list) => match point(times[n - 1], values[n - 1]) {
                Ok(p) => Ok(list.push(p)),
                Err(e) => Err(e),
            },
            Err(e) => Err(e),
        }
    }
}

/// The samples of a series: as many as there are both times and values.
pub open spec fn series_points(times: Seq<int>, values: Seq<Tree>) -> Result<Seq<Tree>, CaseError> {
    points(
        times,
        values,
        if times.len() < values.len() {
            times.len()
        } else {
            values.len()
        },
    )
}

proof fn point_errors_persist(times: Seq<int>, values: Seq<Tree>, k: nat, n: nat)
    requires
        k <= n,
        points(times, values, k) is Err,
    ensures
        points(times, values, n) == points(times, values, k),
    decreases n - k,
{
    if k < n {
        point_errors_persist(times, values, k, (n - 1) as nat);
    }
}

/// A list result by what its values hold.
pub open spec fn trees_result(r: Result<Vec<Json>, CaseError>) -> Result<Seq<Tree>, CaseError> {
    match r {
        Ok(list) => Ok(json::trees(list@)),
        Err(e) => Err(e),
    }
}

pub(crate) fn points_of(times: &Vec<i64>, values: &Vec<Json>) -> (result: Result<Vec<Json>, CaseError>)
    ensures
        trees_result(result) == series_points(moments::numbers(times@), json::trees(values@)),
{
    let n: usize = if times.len() < values.len() {
        times.len()
    } else {
        values.len()
    };
    let ghost at = moments::numbers(times@);
    let ghost held = json::trees(values@);
    let mut list: Vec<Json> = Vec::new();
    let mut i: usize = 0;
    assert(json::trees(list@) =~= Seq::empty());
    while i < n
        invariant
            i <= n,
            n <= times@.len(),
            n <= values@.len(),
            n == (if times@.len() < values@.len() {
                times@.len()
            } else {
                values@.len()
            }),
            at == moments::numbers(times@),
            held == json::trees(values@),
            points(at, held, i as nat) == Ok::<Seq<Tree>, CaseError>(json::trees(list@)),
        decreases n - i,
    {
        assert(at[i as int] == times@[i as int]);
        assert(held[i as int] == json::tree(values@[i as int]));
        match point_of(times[i], &values[i]) {
            Ok(p) => {
                let ghost before = json::trees(list@);
                list.push(p);
                assert(json::trees(list@) =~= before.push(json::tree(p)));
            },
            Err(e) => {
                proof {
                    point_errors_persist(at, held, (i + 1) as nat, n as nat);
                }
                return Err(e);
            },
        }
        i += 1;
    }
    Ok(list)
}

/// The first `n` times that offsets name.
pub open spec fn offset_times(offsets: Seq<Json>, base: i64, n: nat) -> Result<Seq<int>, CaseError>
    decreases n,
{
    if n == 0 {
        Ok(Seq::empty())
    } else {
        match offset_times(offsets, base, (n - 1) as nat) {
            Ok(list) => match json::whole_of(offsets[n - 1]) {
                Some(by) => match shifted(base, by) {
                    Ok(t) => Ok(list.push(t as int)),
                    Err(e) => Err(e),
                },
                None => Err(CaseError::NotInteger),
            },
            Err(e) => Err(e),
        }
    }
}

proof fn offset_errors_persist(offsets: Seq<Json>, base: i64, k: nat, n: nat)
    requires
        k <= n,
        offset_times(offsets, base, k) is Err,
    ensures
        offset_times(offsets, base, n) == offset_times(offsets, base, k),
    decreases n - k,
{
    if k < n {
        offset_errors_persist(offsets, base, k, (n - 1) as nat);
    }
}

/// A result of times as numbers.
pub open spec fn times_result(r: Result<Vec<i64>, CaseError>) -> Result<Seq<int>, CaseError> {
    match r {
        Ok(list) => Ok(moments::numbers(list@)),
        Err(e) => Err(e),
    }
}

pub(crate) fn times_of(offsets: &Vec<Json>, base: i64) -> (result: Result<Vec<i64>, CaseError>)
    ensures
        times_result(result) == offset_times(offsets@, base, offsets@.len()),
{
    let mut list: Vec<i64> = Vec::new();
    let mut i: usize = 0;
    assert(moments::numbers(list@) =~= Seq::empty());
    while i < offsets.len()
        invariant
            i <= offsets@.len(),
            offset_times(offsets@, base, i as nat) == Ok::<Seq<int>, CaseError>(
                moments::numbers(list@),
            ),
        decreases offsets.len() - i,
    {
        let found = match as_whole(&offsets[i]) {
            Some(by) => shift(base, by),
            None => Err(CaseError::NotInteger),
        };
        match found {
            Ok(t) => {
                let ghost before = moments::numbers(list@);
                list.push(t);
                assert(moments::numbers(list@) =~= before.push(t as int));
            },
            Err(e) => {
                proof {
                    offset_errors_persist(offsets@, base, (i + 1) as nat, offsets@.len());
                }
                return Err(e);
            },
        }
        i += 1;
    }
    Ok(list)
}

/// Times as values.
pub open spec fn stamps(times: Seq<int>) -> Seq<Tree> {
    times.map_values(|ms: int| moments::timestamp_tree(ms))
}

pub(crate) fn stamps_of(times: &Vec<i64>) -> (list: Vec<Json>)
    ensures
        json::trees(list@) == stamps(moments::numbers(times@)),
{
    let ghost at = moments::numbers(times@);
    let mut list: Vec<Json> = Vec::new();
    let mut i: usize = 0;
    while i < times.len()
        invariant
            i <= times@.len(),
            at == moments::numbers(times@),
            json::trees(list@) =~= stamps(at).take(i as int),
        decreases times.len() - i,
    {
        let ghost before = json::trees(list@);
        let value = timestamp(times[i]);
        list.push(value);
        assert(json::trees(list@) =~= before.push(json::tree(value)));
        i += 1;
    }
    assert(stamps(at).take(i as int) =~= stamps(at));
    list
}

/// The query of a case, with its mark replaced by a time where it has one.
pub open spec fn expression_of(case: Json, sample: i64) -> Result<Seq<char>, CaseError> {
    match text_at(case, "query") {
        Ok(query) => if has_key(case, "at_offset_ms") {
            match moment_at(case, "at_offset_ms", sample) {
                Ok(at) => Ok(moments::replaced(query, "{at}"@, moments::query_time(at as int))),
                Err(e) => Err(e),
            }
        } else {
            Ok(query)
        },
        Err(e) => Err(e),
    }
}

/// The query of a case, with its mark replaced by a time where it has one.
pub fn expression(case: &Json, sample: i64) -> (result: Result<String, CaseError>)
    ensures
        text_result(result) == expression_of(*case, sample),
{
    let query = match string(case, "query") {
        Ok(q) => q,
        Err(e) => return Err(e),
    };
    if contains_key(case, "at_offset_ms") {
        match moment(case, "at_offset_ms", sample) {
            Ok(at) => {
                proof {
                    reveal_strlit("{at}");
                }
                Ok(replace_marks(&query, "{at}", &format_timestamp(at)))
            },
            Err(e) => Err(e),
        }
    } else {
        Ok(query)
    }
}

/// What a case asks, and what it expects.
pub struct Expectation {
    pub endpoint: &'static str,
    pub params: Vec<(String, Json)>,
    pub result_type: &'static str,
    pub result: Vec<Json>,
}

/// What an expectation holds.
pub struct ExpectationModel {
    pub endpoint: &'static str,
    pub params: Seq<(Seq<char>, Tree)>,
    pub result_type: &'static str,
    pub result: Seq<Tree>,
}

impl View for Expectation {
    type V = ExpectationModel;

    open spec fn view(&self) -> ExpectationModel {
        ExpectationModel {
            endpoint: self.endpoint,
            params: json::member_trees(self.params@),
            result_type: self.result_type,
            result: json::trees(self.result@),
        }
    }
}

/// An expectation result by what it holds.
pub open spec fn expectation_result(r: Result<Expectation, CaseError>) -> Result<
    ExpectationModel,
    CaseError,
> {
    match r {
        Ok(x) => Ok(x@),
        Err(e) => Err(e),
    }
}

/// A parameter that may be missing.
pub open spec fn optional_param(name: Seq<char>, value: Option<Seq<char>>) -> Seq<(Seq<char>, Tree)> {
    match value {
        Some(t) => seq![(name, Tree::Text(t))],
        None => Seq::empty(),
    }
}

/// The parameters of a query over a range, in the order of their names.
pub open spec fn range_params(
    query: Seq<char>,
    start: Tree,
    end: Tree,
    step: Seq<char>,
    lookback: Option<Seq<char>>,
    longest: Option<Seq<char>>,
) -> Seq<(Seq<char>, Tree)> {
    seq![("end"@, end)] + optional_param("lookback_delta"@, lookback) + optional_param(
        "max_lookback"@,
        longest,
    ) + seq![
        ("query"@, Tree::Text(query)),
        ("start"@, start),
        ("step"@, Tree::Text(step)),
    ]
}

/// The parameters of a query at a time, in the order of their names.
pub open spec fn instant_params(
    query: Seq<char>,
    time: Tree,
    step: Option<Seq<char>>,
    lookback: Option<Seq<char>>,
    longest: Option<Seq<char>>,
) -> Seq<(Seq<char>, Tree)> {
    optional_param("lookback_delta"@, lookback) + optional_param("max_lookback"@, longest) + seq![
        ("query"@, Tree::Text(query)),
    ] + optional_param("step"@, step) + seq![("time"@, time)]
}

fn push_param(params: &mut Vec<(String, Json)>, name: &str, value: Json)
    ensures
        json::member_trees(final(params)@) == json::member_trees(old(params)@) + seq![
            (name@, json::tree(value)),
        ],
{
    params.push((copied(name), value));
    assert(json::member_trees(params@) =~= json::member_trees(old(params)@) + seq![
        (name@, json::tree(value)),
    ]);
}

fn push_optional(params: &mut Vec<(String, Json)>, name: &str, value: Option<String>)
    ensures
        json::member_trees(final(params)@) == json::member_trees(old(params)@) + optional_param(
            name@,
            optional_view(value),
        ),
{
    match value {
        Some(t) => push_param(params, name, Json::Text(t)),
        None => {},
    }
    assert(json::member_trees(params@) =~= json::member_trees(old(params)@) + optional_param(
        name@,
        optional_view(value),
    ));
}

pub(crate) fn over_range(
    query: String,
    start: Json,
    end: Json,
    step: String,
    lookback: Option<String>,
    longest: Option<String>,
) -> (params: Vec<(String, Json)>)
    ensures
        json::member_trees(params@) == range_params(
            query@,
            json::tree(start),
            json::tree(end),
            step@,
            optional_view(lookback),
            optional_view(longest),
        ),
{
    let mut params: Vec<(String, Json)> = Vec::new();
    push_param(&mut params, "end", end);
    push_optional(&mut params, "lookback_delta", lookback);
    push_optional(&mut params, "max_lookback", longest);
    push_param(&mut params, "query", Json::Text(query));
    push_param(&mut params, "start", start);
    push_param(&mut params, "step", Json::Text(step));
    assert(json::member_trees(params@) =~= range_params(
        query@,
        json::tree(start),
        json::tree(end),
        step@,
        optional_view(lookback),
        optional_view(longest),
    ));
    params
}

pub(crate) fn at_instant(
    query: String,
    time: Json,
    step: Option<String>,
    lookback: Option<String>,
    longest: Option<String>,
) -> (params: Vec<(String, Json)>)
    ensures
        json::member_trees(params@) == instant_params(
            query@,
            json::tree(time),
            optional_view(step),
            optional_view(lookback),
            optional_view(longest),
        ),
{
    let mut params: Vec<(String, Json)> = Vec::new();
    push_optional(&mut params, "lookback_delta", lookback);
    push_optional(&mut params, "max_lookback", longest);
    push_param(&mut params, "query", Json::Text(query));
    push_optional(&mut params, "step", step);
    push_param(&mut params, "time", time);
    assert(json::member_trees(params@) =~= instant_params(
        query@,
        json::tree(time),
        optional_view(step),
        optional_view(lookback),
        optional_view(longest),
    ));
    params
}

/// The labels of the series that the fixture writes, with its name.
pub open spec fn named_metric(name: Seq<char>) -> Tree {
    Tree::Object(seq![("__name__"@, Tree::Text(name)), ("job"@, Tree::Text("oracle"@))])
}

/// The labels of the series that the fixture writes, without its name.
pub open spec fn job_metric() -> Tree {
    Tree::Object(seq![("job"@, Tree::Text("oracle"@))])
}

pub(crate) fn named(name: &str) -> (metric: Json)
    ensures
        json::tree(metric) == named_metric(name@),
{
    two_members("__name__", Json::Text(copied(name)), "job", Json::Text(copied("oracle")))
}

pub(crate) fn job_only() -> (metric: Json)
    ensures
        json::tree(metric) == job_metric(),
{
    one_member("job", Json::Text(copied("oracle")))
}

/// A series of one sample, or of several.
pub open spec fn series(metric: Tree, key: Seq<char>, value: Tree) -> Tree {
    Tree::Object(seq![("metric"@, metric), (key, value)])
}

pub(crate) fn one_value(value: Json) -> (list: Vec<Json>)
    ensures
        json::trees(list@) == seq![json::tree(value)],
{
    let mut list: Vec<Json> = Vec::new();
    list.push(value);
    assert(json::trees(list@) =~= seq![json::tree(value)]);
    list
}

/// The bounds of a range of a case.
pub open spec fn range_of(range: Json, sample: i64) -> Result<(i64, i64), CaseError> {
    match moment_at(range, "start_offset_ms", sample) {
        Ok(start) => match moment_at(range, "end_offset_ms", sample) {
            Ok(end) => Ok((start, end)),
            Err(e) => Err(e),
        },
        Err(e) => Err(e),
    }
}

pub(crate) fn bounds(range: &Json, sample: i64) -> (result: Result<(i64, i64), CaseError>)
    ensures
        result == range_of(*range, sample),
{
    let start = match moment(range, "start_offset_ms", sample) {
        Ok(t) => t,
        Err(e) => return Err(e),
    };
    match moment(range, "end_offset_ms", sample) {
        Ok(end) => Ok((start, end)),
        Err(e) => Err(e),
    }
}

} // verus!
