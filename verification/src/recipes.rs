//! SQL recipes in a Markdown document: headed sections with fenced SQL blocks,
//! and an index that names every recipe.
use crate::order::{self, difference, holds_text};
use crate::splitter::{self, split_sql};
use crate::text::{self, lines_of, push_char, same_text, trim_text};
use vstd::prelude::*;
use vstd::string::*;

verus! {

/// The pattern of a recipe heading; its group is the identifier.
pub const HEADING: &'static str = r"^### (SQL-(?:PROM|MQL|LOG)-\d{3}):";

/// The pattern of an index entry; its group is the identifier.
pub const INDEX_ENTRY: &'static str = r"^\|\s*\[`(SQL-(?:PROM|MQL|LOG)-\d{3})`\]";

/// What `regex::Regex::captures` finds in `text` as the first group of the
/// leftmost match of `pattern`. None if there is no match, if the group took no
/// part in it, or if `regex::Regex::new` refuses the pattern.
pub uninterp spec fn first_group(pattern: Seq<char>, text: Seq<char>) -> Option<Seq<char>>;

/// The characters of an optional text.
pub open spec fn optional(text: Option<String>) -> Option<Seq<char>> {
    match text {
        Some(t) => Some(t@),
        None => None,
    }
}

/// `regex::Regex::new` and `regex::Regex::captures`: the first group of the
/// leftmost match. The result is a function of the pattern and the text; what it
/// is for a given pattern is not stated.
#[verifier::external_body]
fn capture(pattern: &str, text: &str) -> (group: Option<String>)
    ensures
        optional(group) == first_group(pattern@, text@),
{
    let expression = regex::Regex::new(pattern).ok()?;
    let found = expression.captures(text)?;
    found.get(1).map(|group| group.as_str().to_owned())
}

/// A line of the document with the identifiers that it carries as a heading or
/// as an index entry.
pub struct RecipeLine {
    pub text: String,
    pub heading: Option<String>,
    pub entry: Option<String>,
}

/// The characters of a line.
pub struct LineModel {
    pub text: Seq<char>,
    pub heading: Option<Seq<char>>,
    pub entry: Option<Seq<char>>,
}

impl View for RecipeLine {
    type V = LineModel;

    open spec fn view(&self) -> LineModel {
        LineModel { text: self.text@, heading: optional(self.heading), entry: optional(self.entry) }
    }
}

/// A recipe: its identifier and its fenced SQL blocks.
#[derive(Debug)]
pub struct Recipe {
    pub identifier: String,
    pub statements: Vec<String>,
}

/// The characters of a recipe.
#[verifier::ext_equal]
pub struct RecipeModel {
    pub identifier: Seq<char>,
    pub statements: Seq<Seq<char>>,
}

impl View for Recipe {
    type V = RecipeModel;

    open spec fn view(&self) -> RecipeModel {
        RecipeModel { identifier: self.identifier@, statements: text::texts(self.statements@) }
    }
}

/// The recipes as their characters.
pub open spec fn recipe_models(list: Seq<Recipe>) -> Seq<RecipeModel> {
    list.map_values(|r: Recipe| r@)
}

/// How far the reading of a document has come: the finished recipes, the recipe
/// that is open, and the block that is open in it.
#[verifier::ext_equal]
pub struct Reading {
    pub done: Seq<RecipeModel>,
    pub current: Option<RecipeModel>,
    pub sql: Option<Seq<char>>,
}

/// The finished recipes and the open one.
pub open spec fn all_recipes(r: Reading) -> Seq<RecipeModel> {
    match r.current {
        Some(recipe) => r.done.push(recipe),
        None => r.done,
    }
}

/// The recipe with a closed block; a block of white space alone is dropped.
pub open spec fn with_block(recipe: RecipeModel, sql: Seq<char>) -> RecipeModel {
    if text::trim(sql).len() > 0 {
        RecipeModel { statements: recipe.statements.push(sql), ..recipe }
    } else {
        recipe
    }
}

/// What one line does to the reading.
pub open spec fn read_line(r: Reading, line: LineModel) -> Reading {
    if line.heading is Some {
        Reading {
            done: all_recipes(r),
            current: Some(
                RecipeModel { identifier: line.heading.unwrap(), statements: Seq::empty() },
            ),
            sql: r.sql,
        }
    } else if line.text == "```sql"@ && r.current is Some && r.sql is None {
        Reading { sql: Some(Seq::empty()), ..r }
    } else if line.text == "```"@ {
        match (r.sql, r.current) {
            (Some(sql), Some(recipe)) => Reading {
                current: Some(with_block(recipe, sql)),
                sql: None,
                ..r
            },
            _ => Reading { sql: None, ..r },
        }
    } else {
        match r.sql {
            Some(sql) => Reading { sql: Some((sql + line.text).push('\n')), ..r },
            None => r,
        }
    }
}

/// The reading after the first `n` lines.
pub open spec fn read_lines(lines: Seq<LineModel>, n: nat) -> Reading
    decreases n,
{
    if n == 0 {
        Reading { done: Seq::empty(), current: None, sql: None }
    } else {
        read_line(read_lines(lines, (n - 1) as nat), lines[n - 1])
    }
}

/// The identifiers of the recipes.
pub open spec fn identifiers(recipes: Seq<RecipeModel>) -> Seq<Seq<char>> {
    recipes.map_values(|r: RecipeModel| r.identifier)
}

/// The identifiers of the index entries, in the order of the lines.
pub open spec fn entries(lines: Seq<LineModel>) -> Seq<Seq<char>>
    decreases lines.len(),
{
    if lines.len() == 0 {
        Seq::empty()
    } else {
        match lines.last().entry {
            Some(identifier) => entries(lines.drop_last()).push(identifier),
            None => entries(lines.drop_last()),
        }
    }
}

/// The member at `i` also stands before `i`.
pub open spec fn repeats(list: Seq<Seq<char>>, i: int) -> bool {
    exists|j: int| 0 <= j < i && list[j] == list[i]
}

/// The recipe at `i` repeats an identifier or has no SQL.
pub open spec fn faulty(recipes: Seq<RecipeModel>, i: int) -> bool {
    repeats(identifiers(recipes), i) || recipes[i].statements.len() == 0
}

/// No member stands twice.
pub open spec fn distinct(list: Seq<Seq<char>>) -> bool {
    forall|i: int| 0 <= i < list.len() ==> !#[trigger] repeats(list, i)
}

/// No recipe is faulty.
pub open spec fn faultless(recipes: Seq<RecipeModel>) -> bool {
    forall|i: int| 0 <= i < recipes.len() ==> !#[trigger] faulty(recipes, i)
}

/// Two lists have the same members.
pub open spec fn same_members(a: Seq<Seq<char>>, b: Seq<Seq<char>>) -> bool {
    forall|x: Seq<char>| a.contains(x) <==> b.contains(x)
}

/// `list` holds the members of `a` that `b` lacks, in ascending order.
pub open spec fn is_difference(
    list: Seq<Seq<char>>,
    a: Seq<Seq<char>>,
    b: Seq<Seq<char>>,
) -> bool {
    &&& order::ascending(list)
    &&& forall|x: Seq<char>| list.contains(x) <==> (a.contains(x) && !b.contains(x))
}

/// Why a document is refused.
#[derive(Debug)]
pub enum RecipeError {
    /// The last SQL fence is not closed.
    UnterminatedFence,
    /// A recipe has the identifier of an earlier one.
    Duplicate(String),
    /// A recipe has no SQL.
    Empty(String),
    /// An index entry repeats an earlier one.
    DuplicateEntry(String),
    /// The index and the recipes name different identifiers.
    IndexMismatch { missing: Vec<String>, unknown: Vec<String> },
}

/// What the reading of the lines results in.
pub open spec fn outcome(lines: Seq<LineModel>, result: Result<Vec<Recipe>, RecipeError>) -> bool {
    let reading = read_lines(lines, lines.len());
    let recipes = all_recipes(reading);
    let index = entries(lines);
    if reading.sql is Some {
        result == Err::<Vec<Recipe>, RecipeError>(RecipeError::UnterminatedFence)
    } else if !faultless(recipes) {
        exists|i: int|
            0 <= i < recipes.len() && #[trigger] faulty(recipes, i) && (forall|j: int|
                0 <= j < i ==> !#[trigger] faulty(recipes, j)) && if repeats(
                identifiers(recipes),
                i,
            ) {
                result matches Err(RecipeError::Duplicate(x)) && x@ == recipes[i].identifier
            } else {
                result matches Err(RecipeError::Empty(x)) && x@ == recipes[i].identifier
            }
    } else if !distinct(index) {
        exists|i: int|
            0 <= i < index.len() && #[trigger] repeats(index, i) && (forall|j: int|
                0 <= j < i ==> !#[trigger] repeats(index, j)) && (result matches Err(
                RecipeError::DuplicateEntry(x),
            ) && x@ == index[i])
    } else if !same_members(identifiers(recipes), index) {
        result matches Err(RecipeError::IndexMismatch { missing, unknown }) && is_difference(
            text::texts(missing@),
            identifiers(recipes),
            index,
        ) && is_difference(text::texts(unknown@), index, identifiers(recipes))
    } else {
        result matches Ok(list) && recipe_models(list@) == recipes
    }
}

struct Reader {
    done: Vec<Recipe>,
    current: Option<Recipe>,
    sql: Option<String>,
}

impl Reader {
    spec fn reading(&self) -> Reading {
        Reading {
            done: recipe_models(self.done@),
            current: match self.current {
                Some(recipe) => Some(recipe@),
                None => None,
            },
            sql: optional(self.sql),
        }
    }

    fn line(&mut self, line: &RecipeLine)
        requires
            old(self).sql is Some ==> old(self).current is Some,
        ensures
            final(self).reading() == read_line(old(self).reading(), line@),
            final(self).sql is Some ==> final(self).current is Some,
    {
        let ghost before = self.reading();
        if let Some(identifier) = &line.heading {
            match self.current.take() {
                Some(recipe) => {
                    self.done.push(recipe);
                },
                None => {},
            }
            let recipe = Recipe { identifier: identifier.clone(), statements: Vec::new() };
            assert(recipe@ =~= RecipeModel { identifier: identifier@, statements: Seq::empty() });
            self.current = Some(recipe);
            assert(self.reading() =~= read_line(before, line@));
            return;
        }
        if same_text(&line.text, "```sql") && self.current.is_some() && self.sql.is_none() {
            self.sql = Some(String::new());
            assert(self.reading() =~= read_line(before, line@));
            return;
        }
        if same_text(&line.text, "```") {
            match self.sql.take() {
                Some(sql) => {
                    match self.current.take() {
                        Some(mut recipe) => {
                            let ghost was = recipe@;
                            let trimmed = trim_text(&sql);
                            if !trimmed.as_str().is_empty() {
                                let ghost text = sql@;
                                recipe.statements.push(sql);
                                assert(recipe@ =~= with_block(was, text));
                            }
                            self.current = Some(recipe);
                        },
                        None => {},
                    }
                },
                None => {},
            }
            assert(self.reading() =~= read_line(before, line@));
            return;
        }
        match self.sql.take() {
            Some(mut sql) => {
                sql.append(&line.text);
                push_char(&mut sql, '\n');
                self.sql = Some(sql);
            },
            None => {},
        }
        assert(self.reading() =~= read_line(before, line@));
    }
}

/// The lines as their characters.
pub open spec fn line_models(list: Seq<RecipeLine>) -> Seq<LineModel> {
    list.map_values(|l: RecipeLine| l@)
}

fn index_of(lines: &Vec<RecipeLine>) -> (list: Vec<String>)
    ensures
        text::texts(list@) == entries(line_models(lines@)),
{
    let mut list: Vec<String> = Vec::new();
    let mut i: usize = 0;
    assert(line_models(lines@).take(0) =~= Seq::empty());
    assert(text::texts(list@) =~= Seq::empty());
    while i < lines.len()
        invariant
            i <= lines@.len(),
            text::texts(list@) == entries(line_models(lines@).take(i as int)),
        decreases lines.len() - i,
    {
        let ghost before = list@;
        let ghost next = line_models(lines@).take(i + 1);
        assert(next.drop_last() =~= line_models(lines@).take(i as int));
        assert(next.last() == lines@[i as int]@);
        if let Some(identifier) = &lines[i].entry {
            list.push(identifier.clone());
            assert(text::texts(list@) =~= text::texts(before).push(identifier@));
        }
        i += 1;
    }
    assert(line_models(lines@).take(i as int) =~= line_models(lines@));
    list
}

/// The first position whose member also stands before it.
fn first_repeat(list: &Vec<String>) -> (found: Option<usize>)
    ensures
        match found {
            Some(i) => i < list@.len() && repeats(text::texts(list@), i as int) && forall|j: int|
                0 <= j < i ==> !#[trigger] repeats(text::texts(list@), j),
            None => distinct(text::texts(list@)),
        },
{
    let mut i: usize = 0;
    while i < list.len()
        invariant
            i <= list@.len(),
            forall|j: int| 0 <= j < i ==> !#[trigger] repeats(text::texts(list@), j),
        decreases list.len() - i,
    {
        if stands_before(list, i) {
            return Some(i);
        }
        i += 1;
    }
    None
}

fn stands_before(list: &Vec<String>, i: usize) -> (found: bool)
    requires
        i < list@.len(),
    ensures
        found == repeats(text::texts(list@), i as int),
{
    let mut j: usize = 0;
    while j < i
        invariant
            j <= i < list@.len(),
            forall|k: int| 0 <= k < j ==> #[trigger] text::texts(list@)[k] != text::texts(list@)[i as int],
        decreases i - j,
    {
        if same_text(&list[j], &list[i]) {
            assert(text::texts(list@)[j as int] == text::texts(list@)[i as int]);
            return true;
        }
        j += 1;
    }
    false
}

fn identifiers_of(recipes: &Vec<Recipe>) -> (list: Vec<String>)
    ensures
        text::texts(list@) == identifiers(recipe_models(recipes@)),
{
    let mut list: Vec<String> = Vec::new();
    let mut i: usize = 0;
    while i < recipes.len()
        invariant
            i <= recipes@.len(),
            list@.len() == i,
            forall|k: int| 0 <= k < i ==> (#[trigger] list@[k])@ == recipes@[k].identifier@,
        decreases recipes.len() - i,
    {
        list.push(recipes[i].identifier.clone());
        i += 1;
    }
    assert(text::texts(list@) =~= identifiers(recipe_models(recipes@)));
    list
}

fn covered(a: &Vec<String>, b: &Vec<String>) -> (yes: bool)
    ensures
        yes == forall|x: Seq<char>| text::texts(a@).contains(x) ==> text::texts(b@).contains(x),
{
    let mut i: usize = 0;
    while i < a.len()
        invariant
            i <= a@.len(),
            forall|k: int| 0 <= k < i ==> text::texts(b@).contains(#[trigger] text::texts(a@)[k]),
        decreases a.len() - i,
    {
        if !holds_text(b, &a[i]) {
            assert(text::texts(a@)[i as int] == a@[i as int]@);
            assert(text::texts(a@).contains(a@[i as int]@));
            return false;
        }
        assert(text::texts(a@)[i as int] == a@[i as int]@);
        i += 1;
    }
    true
}

/// The recipes that the lines describe, or why they are refused.
pub fn collect_recipes(lines: &Vec<RecipeLine>) -> (result: Result<Vec<Recipe>, RecipeError>)
    ensures
        outcome(line_models(lines@), result),
{
    let ghost models = line_models(lines@);
    let mut reader = Reader { done: Vec::new(), current: None, sql: None };
    assert(reader.reading() =~= read_lines(models, 0));
    let mut i: usize = 0;
    while i < lines.len()
        invariant
            i <= lines@.len(),
            models == line_models(lines@),
            reader.reading() == read_lines(models, i as nat),
            reader.sql is Some ==> reader.current is Some,
        decreases lines.len() - i,
    {
        reader.line(&lines[i]);
        i += 1;
        assert(models[i - 1] == lines@[i - 1]@);
    }
    if reader.sql.is_some() {
        return Err(RecipeError::UnterminatedFence);
    }
    let ghost reading = reader.reading();
    let mut recipes = reader.done;
    match reader.current {
        Some(recipe) => {
            recipes.push(recipe);
        },
        None => {},
    }
    let ghost all = all_recipes(reading);
    assert(recipe_models(recipes@) =~= all);
    let names = identifiers_of(&recipes);
    assert(text::texts(names@).len() == names@.len());
    let mut k: usize = 0;
    while k < recipes.len()
        invariant
            k <= recipes@.len(),
            names@.len() == recipes@.len(),
            recipe_models(recipes@) == all,
            text::texts(names@) == identifiers(all),
            all == all_recipes(read_lines(models, models.len())),
            models == line_models(lines@),
            read_lines(models, models.len()).sql is None,
            forall|j: int| 0 <= j < k ==> !#[trigger] faulty(all, j),
        decreases recipes.len() - k,
    {
        assert(all[k as int] == recipes@[k as int]@);
        assert(text::texts(names@)[k as int] == names@[k as int]@);
        assert(identifiers(all)[k as int] == all[k as int].identifier);
        if stands_before(&names, k) {
            assert(faulty(all, k as int));
            return Err(RecipeError::Duplicate(names[k].clone()));
        }
        if recipes[k].statements.is_empty() {
            assert(all[k as int].statements.len() == 0);
            assert(faulty(all, k as int));
            return Err(RecipeError::Empty(names[k].clone()));
        }
        k += 1;
    }
    let index = index_of(lines);
    if let Some(at) = first_repeat(&index) {
        assert(repeats(entries(models), at as int));
        return Err(RecipeError::DuplicateEntry(index[at].clone()));
    }
    if !covered(&names, &index) || !covered(&index, &names) {
        let missing = difference(&names, &index);
        let unknown = difference(&index, &names);
        return Err(RecipeError::IndexMismatch { missing, unknown });
    }
    Ok(recipes)
}

/// A line of a document as its characters, with what the patterns find in it.
pub open spec fn line_model(line: Seq<char>) -> LineModel {
    LineModel {
        text: line,
        heading: first_group(HEADING@, line),
        entry: first_group(INDEX_ENTRY@, line),
    }
}

/// The recipes of a document, or why it is refused.
pub fn parse_recipes(content: &str) -> (result: Result<Vec<Recipe>, RecipeError>)
    ensures
        outcome(text::lines(content@).map_values(|line: Seq<char>| line_model(line)), result),
{
    let ghost expected = text::lines(content@).map_values(|line: Seq<char>| line_model(line));
    let list = lines_of(content);
    let mut lines: Vec<RecipeLine> = Vec::new();
    let mut i: usize = 0;
    while i < list.len()
        invariant
            i <= list@.len(),
            text::texts(list@) == text::lines(content@),
            lines@.len() == i,
            forall|k: int| 0 <= k < i ==> (#[trigger] lines@[k])@ == line_model(list@[k]@),
        decreases list.len() - i,
    {
        let line = RecipeLine {
            text: list[i].clone(),
            heading: capture(HEADING, &list[i]),
            entry: capture(INDEX_ENTRY, &list[i]),
        };
        lines.push(line);
        i += 1;
    }
    proof {
        assert forall|k: int| 0 <= k < lines@.len() implies line_models(lines@)[k] == expected[k] by {
            assert(text::texts(list@)[k] == list@[k]@);
        }
        assert(line_models(lines@) =~= expected);
    }
    collect_recipes(&lines)
}

/// A document is accepted only if every recipe has SQL, no identifier stands
/// twice, and the index names the recipes and nothing else.
pub proof fn accepted_documents_are_indexed(lines: Seq<LineModel>, list: Vec<Recipe>)
    requires
        outcome(lines, Ok(list)),
    ensures
        distinct(identifiers(recipe_models(list@))),
        forall|i: int|
            0 <= i < list@.len() ==> (#[trigger] recipe_models(list@)[i]).statements.len() > 0,
        distinct(entries(lines)),
        same_members(identifiers(recipe_models(list@)), entries(lines)),
{
    let recipes = all_recipes(read_lines(lines, lines.len()));
    assert(recipes == recipe_models(list@));
    assert forall|i: int| 0 <= i < identifiers(recipes).len() implies !#[trigger] repeats(
        identifiers(recipes),
        i,
    ) by {
        assert(!faulty(recipes, i));
    }
    assert forall|i: int| 0 <= i < list@.len() implies (#[trigger] recipe_models(
        list@,
    )[i]).statements.len() > 0 by {
        assert(!faulty(recipes, i));
    }
}

/// A list of texts in brackets, each in quotation marks.
pub open spec fn bracketed(list: Seq<Seq<char>>) -> Seq<char> {
    seq!['['] + quoted_members(list).push(']')
}

/// The texts in quotation marks with a comma between them.
pub open spec fn quoted_members(list: Seq<Seq<char>>) -> Seq<char>
    decreases list.len(),
{
    if list.len() == 0 {
        Seq::empty()
    } else if list.len() == 1 {
        seq!['"'] + list[0].push('"')
    } else {
        quoted_members(list.drop_last()) + ", "@ + (seq!['"'] + list.last().push('"'))
    }
}

/// Appends a list of texts in brackets.
pub fn push_bracketed(out: &mut String, list: &Vec<String>)
    ensures
        final(out)@ == old(out)@ + bracketed(text::texts(list@)),
{
    let ghost start = out@;
    push_char(out, '[');
    let mut i: usize = 0;
    assert(text::texts(list@).take(0) =~= Seq::empty());
    while i < list.len()
        invariant
            i <= list@.len(),
            out@ == start.push('[') + quoted_members(text::texts(list@).take(i as int)),
        decreases list.len() - i,
    {
        if i > 0 {
            out.append(", ");
        }
        push_char(out, '"');
        out.append(&list[i]);
        push_char(out, '"');
        proof {
            let now = text::texts(list@).take(i + 1);
            assert(now.drop_last() =~= text::texts(list@).take(i as int));
            assert(now.last() == list@[i as int]@);
            assert(out@ =~= start.push('[') + quoted_members(now));
        }
        i += 1;
    }
    assert(text::texts(list@).take(i as int) =~= text::texts(list@));
    push_char(out, ']');
    assert(out@ =~= start + bracketed(text::texts(list@)));
}

impl RecipeError {
    /// The words of the error for the document at `path`.
    pub open spec fn words(&self, path: Seq<char>) -> Seq<char> {
        match self {
            RecipeError::UnterminatedFence => path + " has an unterminated SQL fence"@,
            RecipeError::Duplicate(x) => "duplicate SQL recipe "@ + x@,
            RecipeError::Empty(x) => "SQL recipe "@ + x@ + " has no executable SQL fence"@,
            RecipeError::DuplicateEntry(x) => "duplicate SQL recipe index entry "@ + x@,
            RecipeError::IndexMismatch { missing, unknown } => "SQL recipe index mismatch; missing "@
                + bracketed(text::texts(missing@)) + "; unknown "@ + bracketed(
                text::texts(unknown@),
            ),
        }
    }

    /// The error in words.
    pub fn message(&self, path: &str) -> (text: String)
        ensures
            text@ == self.words(path@),
    {
        let mut text = String::new();
        match self {
            RecipeError::UnterminatedFence => {
                text.append(path);
                text.append(" has an unterminated SQL fence");
            },
            RecipeError::Duplicate(x) => {
                text.append("duplicate SQL recipe ");
                text.append(x);
            },
            RecipeError::Empty(x) => {
                text.append("SQL recipe ");
                text.append(x);
                text.append(" has no executable SQL fence");
            },
            RecipeError::DuplicateEntry(x) => {
                text.append("duplicate SQL recipe index entry ");
                text.append(x);
            },
            RecipeError::IndexMismatch { missing, unknown } => {
                text.append("SQL recipe index mismatch; missing ");
                push_bracketed(&mut text, missing);
                text.append("; unknown ");
                push_bracketed(&mut text, unknown);
            },
        }
        assert(text@ =~= self.words(path@));
        text
    }
}

/// The statements of all blocks, in order. None if a block cannot be split.
pub open spec fn all_statements(blocks: Seq<Seq<char>>) -> Option<Seq<Seq<char>>>
    decreases blocks.len(),
{
    if blocks.len() == 0 {
        Some(Seq::empty())
    } else {
        match (all_statements(blocks.drop_last()), splitter::pieces(blocks.last(), 0, 0)) {
            (Some(list), Some(pieces)) => Some(list + splitter::statements_of(pieces)),
            _ => None,
        }
    }
}

/// Why a statement of a recipe cannot be had.
#[derive(Clone, Copy, Debug, PartialEq, Eq, Structural)]
pub enum LookupError {
    NoRecipe,
    Unterminated,
    NoStatement,
}

/// The first recipe with the identifier.
pub open spec fn recipe_at(recipes: Seq<RecipeModel>, identifier: Seq<char>, i: int) -> bool {
    &&& 0 <= i < recipes.len()
    &&& recipes[i].identifier == identifier
    &&& forall|j: int| 0 <= j < i ==> (#[trigger] recipes[j]).identifier != identifier
}

/// What looking up a statement results in.
pub open spec fn found_statement(
    recipes: Seq<RecipeModel>,
    identifier: Seq<char>,
    index: int,
    result: Result<String, LookupError>,
) -> bool {
    if exists|i: int| recipe_at(recipes, identifier, i) {
        let i = choose|i: int| recipe_at(recipes, identifier, i);
        match all_statements(recipes[i].statements) {
            None => result == Err::<String, LookupError>(LookupError::Unterminated),
            Some(list) => if index < list.len() {
                result matches Ok(sql) && sql@ == list[index]
            } else {
                result == Err::<String, LookupError>(LookupError::NoStatement)
            },
        }
    } else {
        result == Err::<String, LookupError>(LookupError::NoRecipe)
    }
}

fn statements_of_blocks(blocks: &Vec<String>) -> (result: Option<Vec<String>>)
    ensures
        match all_statements(text::texts(blocks@)) {
            Some(list) => result matches Some(all) && text::texts(all@) == list,
            None => result is None,
        },
    decreases blocks@.len(),
{
    let mut all: Vec<String> = Vec::new();
    let mut i: usize = 0;
    assert(text::texts(blocks@).take(0) =~= Seq::empty());
    assert(text::texts(all@) =~= Seq::empty());
    while i < blocks.len()
        invariant
            i <= blocks@.len(),
            all_statements(text::texts(blocks@).take(i as int)) == Some(text::texts(all@)),
        decreases blocks.len() - i,
    {
        proof {
            let now = text::texts(blocks@).take(i + 1);
            assert(now.drop_last() =~= text::texts(blocks@).take(i as int));
            assert(now.last() == blocks@[i as int]@);
        }
        match split_sql(&blocks[i]) {
            Ok(mut list) => {
                let ghost before = all@;
                let ghost added = list@;
                all.append(&mut list);
                assert(text::texts(all@) =~= text::texts(before) + text::texts(added));
            },
            Err(_) => {
                proof {
                    no_later_statements(text::texts(blocks@), i + 1);
                }
                return None;
            },
        }
        i += 1;
    }
    assert(text::texts(blocks@).take(i as int) =~= text::texts(blocks@));
    Some(all)
}

proof fn no_later_statements(blocks: Seq<Seq<char>>, n: int)
    requires
        0 <= n <= blocks.len(),
        all_statements(blocks.take(n)) is None,
    ensures
        all_statements(blocks) is None,
    decreases blocks.len() - n,
{
    if n == blocks.len() {
        assert(blocks.take(n) =~= blocks);
    } else {
        assert(blocks.take(n + 1).drop_last() =~= blocks.take(n));
        no_later_statements(blocks, n + 1);
    }
}

/// The statement at `index` among all statements of a recipe.
pub fn recipe_sql(recipes: &Vec<Recipe>, identifier: &str, index: usize) -> (result: Result<
    String,
    LookupError,
>)
    ensures
        found_statement(recipe_models(recipes@), identifier@, index as int, result),
{
    let ghost models = recipe_models(recipes@);
    let mut i: usize = 0;
    while i < recipes.len()
        invariant
            i <= recipes@.len(),
            models == recipe_models(recipes@),
            forall|j: int| 0 <= j < i ==> (#[trigger] models[j]).identifier != identifier@,
        decreases recipes.len() - i,
    {
        assert(models[i as int] == recipes@[i as int]@);
        if same_text(&recipes[i].identifier, identifier) {
            assert(recipe_at(models, identifier@, i as int));
            assert forall|k: int| #[trigger] recipe_at(models, identifier@, k) implies k == i by {}
            return match statements_of_blocks(&recipes[i].statements) {
                None => Err(LookupError::Unterminated),
                Some(list) => {
                    if index < list.len() {
                        assert(text::texts(list@)[index as int] == list@[index as int]@);
                        Ok(list[index].clone())
                    } else {
                        Err(LookupError::NoStatement)
                    }
                },
            };
        }
        i += 1;
    }
    Err(LookupError::NoRecipe)
}

/// The blocks of the first recipe with the identifier.
pub open spec fn blocks_of(recipes: Seq<RecipeModel>, identifier: Seq<char>) -> Option<Seq<Seq<char>>> {
    if exists|i: int| recipe_at(recipes, identifier, i) {
        Some(recipes[choose|i: int| recipe_at(recipes, identifier, i)].statements)
    } else {
        None
    }
}

/// The blocks of a recipe.
pub fn recipe_blocks<'a>(recipes: &'a Vec<Recipe>, identifier: &str) -> (blocks: Option<
    &'a Vec<String>,
>)
    ensures
        match blocks {
            Some(list) => blocks_of(recipe_models(recipes@), identifier@) == Some(
                text::texts(list@),
            ),
            None => blocks_of(recipe_models(recipes@), identifier@) is None,
        },
{
    let ghost models = recipe_models(recipes@);
    let mut i: usize = 0;
    while i < recipes.len()
        invariant
            i <= recipes@.len(),
            models == recipe_models(recipes@),
            forall|j: int| 0 <= j < i ==> (#[trigger] models[j]).identifier != identifier@,
        decreases recipes.len() - i,
    {
        assert(models[i as int] == recipes@[i as int]@);
        if same_text(&recipes[i].identifier, identifier) {
            assert(recipe_at(models, identifier@, i as int));
            assert forall|k: int| #[trigger] recipe_at(models, identifier@, k) implies k == i by {}
            return Some(&recipes[i].statements);
        }
        i += 1;
    }
    None
}

/// Whether there is a recipe with the identifier, and with that many blocks.
pub fn has_blocks(recipes: &Vec<Recipe>, identifier: &str, count: usize) -> (yes: bool)
    ensures
        yes == (blocks_of(recipe_models(recipes@), identifier@) matches Some(blocks)
            && blocks.len() == count),
{
    match recipe_blocks(recipes, identifier) {
        Some(blocks) => blocks.len() == count,
        None => false,
    }
}

} // verus!
