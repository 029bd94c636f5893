//! What holds of every recipe document, archive and checksum file.
use crate::archive::{self, EntryKind, Member};
use crate::checksums;
use crate::recipes::{self, LineModel, LookupError, Reading, RecipeModel};
use crate::splitter;
use crate::text;
use vstd::prelude::*;

verus! {

/// A heading opens a recipe with its identifier and no statement, behind all recipes that
/// were there before.
pub proof fn headings_open_recipes(lines: Seq<LineModel>, n: int)
    requires
        0 <= n < lines.len(),
        lines[n].heading is Some,
    ensures
        ({
            let before = recipes::read_lines(lines, n as nat);
            let after = recipes::read_lines(lines, (n + 1) as nat);
            &&& after.current matches Some(recipe)
            &&& recipe.identifier == lines[n].heading->Some_0
            &&& recipe.statements.len() == 0
            &&& before.current is None ==> after.done == before.done
            &&& before.current matches Some(open) ==> after.done == before.done + seq![open]
        }),
{
    let before = recipes::read_lines(lines, n as nat);
    if before.current is Some {
        assert(before.done.push(before.current->Some_0) =~= before.done + seq![
            before.current->Some_0,
        ]);
    }
}

/// The texts of some lines, each with a line feed behind it.
pub open spec fn block_text(lines: Seq<LineModel>, from: int, to: int) -> Seq<char>
    decreases to - from,
{
    if to <= from {
        Seq::empty()
    } else {
        block_text(lines, from, to - 1) + lines[to - 1].text + seq!['\n']
    }
}

/// A line neither opens a recipe nor closes a block.
pub open spec fn is_inside(line: LineModel) -> bool {
    line.heading is None && line.text != "```"@
}

proof fn lines_are_gathered(lines: Seq<LineModel>, n: int, m: int)
    requires
        0 <= n < m <= lines.len(),
        recipes::read_lines(lines, n as nat).current is Some,
        recipes::read_lines(lines, n as nat).sql is None,
        lines[n].heading is None,
        lines[n].text == "```sql"@,
        forall|k: int| n < k < m ==> is_inside(#[trigger] lines[k]),
    ensures
        recipes::read_lines(lines, m as nat) == (Reading {
            sql: Some(block_text(lines, n + 1, m)),
            ..recipes::read_lines(lines, n as nat)
        }),
    decreases m,
{
    reveal_strlit("```sql");
    reveal_strlit("```");
    assert("```sql"@.len() == 6);
    assert("```"@.len() == 3);
    if m == n + 1 {
    } else {
        lines_are_gathered(lines, n, m - 1);
        assert(is_inside(lines[m - 1]));
        let sql = block_text(lines, n + 1, m - 1);
        assert((sql + lines[m - 1].text).push('\n') =~= sql + lines[m - 1].text + seq!['\n']);
    }
}

/// A fenced block of SQL under a heading becomes the next statement of that recipe: the
/// lines between the fences, each with a line feed, unless they are blank. Nothing else
/// changes, and no block is left open.
pub proof fn fenced_blocks_are_kept(lines: Seq<LineModel>, n: int, m: int)
    requires
        0 <= n < m < lines.len(),
        recipes::read_lines(lines, n as nat).current is Some,
        recipes::read_lines(lines, n as nat).sql is None,
        lines[n].heading is None,
        lines[n].text == "```sql"@,
        forall|k: int| n < k < m ==> is_inside(#[trigger] lines[k]),
        lines[m].heading is None,
        lines[m].text == "```"@,
    ensures
        ({
            let before = recipes::read_lines(lines, n as nat);
            let after = recipes::read_lines(lines, (m + 1) as nat);
            let body = block_text(lines, n + 1, m);
            &&& after.sql is None
            &&& after.done == before.done
            &&& after.current matches Some(recipe)
            &&& recipe.identifier == before.current->Some_0.identifier
            &&& recipe.statements == before.current->Some_0.statements + (if text::trim(
                body,
            ).len() == 0 {
                Seq::empty()
            } else {
                seq![body]
            })
        }),
{
    reveal_strlit("```sql");
    reveal_strlit("```");
    assert("```sql"@.len() == 6);
    assert("```"@.len() == 3);
    lines_are_gathered(lines, n, m);
    let before = recipes::read_lines(lines, n as nat);
    let body = block_text(lines, n + 1, m);
    let old_list = before.current->Some_0.statements;
    assert(old_list.push(body) =~= old_list + seq![body]);
    assert(old_list + Seq::empty() =~= old_list);
}

/// A line outside of a block changes nothing, unless it is a heading or opens a block.
pub proof fn prose_changes_nothing(lines: Seq<LineModel>, n: int)
    requires
        0 <= n < lines.len(),
        recipes::read_lines(lines, n as nat).sql is None,
        lines[n].heading is None,
        lines[n].text != "```sql"@,
    ensures
        recipes::read_lines(lines, (n + 1) as nat) == recipes::read_lines(lines, n as nat),
{
}

/// The index is made of the entries in the order of their lines.
pub proof fn entries_follow_their_lines(lines: Seq<LineModel>, line: LineModel)
    ensures
        line.entry is None ==> recipes::entries(lines.push(line)) == recipes::entries(lines),
        line.entry matches Some(id) ==> recipes::entries(lines.push(line)) == recipes::entries(
            lines,
        ) + seq![id],
        recipes::entries(Seq::empty()).len() == 0,
{
    assert(lines.push(line).drop_last() =~= lines);
    assert(lines.push(line).last() == line);
    if line.entry is Some {
        let id = line.entry->Some_0;
        assert(recipes::entries(lines).push(id) =~= recipes::entries(lines) + seq![id]);
    }
}

/// The statements of a recipe are those of its blocks, one block behind the other, as long
/// as each block can be split.
pub proof fn statements_follow_their_blocks(blocks: Seq<Seq<char>>, block: Seq<char>)
    ensures
        recipes::all_statements(blocks.push(block)) is Some <==> (recipes::all_statements(
            blocks,
        ) is Some && splitter::pieces(block, 0, 0) is Some),
        recipes::all_statements(blocks.push(block)) matches Some(list) ==> list
            == recipes::all_statements(blocks)->Some_0 + splitter::statements_of(
            splitter::pieces(block, 0, 0)->Some_0,
        ),
        recipes::all_statements(Seq::empty()) == Some(Seq::<Seq<char>>::empty()),
{
    assert(blocks.push(block).drop_last() =~= blocks);
    assert(blocks.push(block).last() == block);
}

/// A statement is looked up in the first recipe of its identifier, by its place there; the
/// lookup fails where no recipe has the identifier, where a block cannot be split, and
/// behind the last statement.
pub proof fn statements_are_found_by_place(
    list: Seq<RecipeModel>,
    k: int,
    index: int,
    result: Result<String, LookupError>,
)
    requires
        0 <= k < list.len(),
        forall|j: int| 0 <= j < k ==> (#[trigger] list[j]).identifier != list[k].identifier,
        0 <= index,
        recipes::found_statement(list, list[k].identifier, index, result),
    ensures
        recipes::all_statements(list[k].statements) matches Some(all) && index < all.len()
            ==> result is Ok && result->Ok_0@ == recipes::all_statements(
            list[k].statements,
        )->Some_0[index],
        recipes::all_statements(list[k].statements) matches Some(all) && index >= all.len()
            ==> result == Err::<String, LookupError>(LookupError::NoStatement),
        recipes::all_statements(list[k].statements) is None ==> result == Err::<
            String,
            LookupError,
        >(LookupError::Unterminated),
{
    let id = list[k].identifier;
    assert(recipes::recipe_at(list, id, k));
    let i = choose|i: int| recipes::recipe_at(list, id, i);
    assert(recipes::recipe_at(list, id, i));
    if i < k {
        assert(list[i].identifier != list[k].identifier);
    } else if k < i {
        assert(list[k].identifier != id);
    }
}

/// No statement is found where no recipe has the identifier.
pub proof fn strange_recipes_are_not_found(
    list: Seq<RecipeModel>,
    identifier: Seq<char>,
    index: int,
    result: Result<String, LookupError>,
)
    requires
        forall|j: int| 0 <= j < list.len() ==> (#[trigger] list[j]).identifier != identifier,
        recipes::found_statement(list, identifier, index, result),
    ensures
        result == Err::<String, LookupError>(LookupError::NoRecipe),
{
    if exists|i: int| recipes::recipe_at(list, identifier, i) {
        let i = choose|i: int| recipes::recipe_at(list, identifier, i);
        assert(recipes::recipe_at(list, identifier, i));
        assert(list[i].identifier != identifier);
    }
}

/// In an archive a file is readable by all; it can be run, by all, exactly where its owner
/// could run it. No other permission of it matters.
pub proof fn only_running_is_kept(mode: u32, other: u32)
    ensures
        archive::archived_mode(mode) == 0o755 || archive::archived_mode(mode) == 0o644,
        archive::archived_mode(mode) == 0o755 <==> (mode / 64) % 2 == 1,
        (mode / 64) % 2 == (other / 64) % 2 ==> archive::archived_mode(mode)
            == archive::archived_mode(other),
{
}

proof fn refused_members_stop(prefix: Seq<char>, list: Seq<(Seq<char>, Member)>, k: int, n: int, epoch: u64)
    requires
        0 <= k < n <= list.len(),
        archive::member_form(prefix, list[k].1, epoch) is Err,
    ensures
        archive::members_form(prefix, list, n, epoch) is Err,
    decreases n,
{
    if k < n - 1 {
        refused_members_stop(prefix, list, k, n - 1, epoch);
    }
}

/// A list with a link, or with anything that is neither a file nor a directory, has no
/// archive.
pub proof fn links_have_no_archive(
    prefix: Seq<char>,
    list: Seq<(Seq<char>, Member)>,
    k: int,
    epoch: u64,
)
    requires
        0 <= k < list.len(),
        list[k].1.kind is Symlink || list[k].1.kind is Other,
    ensures
        archive::archive_of(prefix, list, epoch) is Err,
        list[k].1.kind is Symlink && k == 0 ==> archive::archive_of(prefix, list, epoch) == Err::<
            Seq<u8>,
            archive::ArchiveFault,
        >(archive::ArchiveFault::Symlink(list[0].1.path)),
{
    refused_members_stop(prefix, list, k, list.len() as int, epoch);
    if k == 0 && list[0].1.kind is Symlink {
        first_refusal_is_told(prefix, list, list.len() as int, epoch);
    }
}

proof fn first_refusal_is_told(
    prefix: Seq<char>,
    list: Seq<(Seq<char>, Member)>,
    n: int,
    epoch: u64,
)
    requires
        0 < n <= list.len(),
        archive::member_form(prefix, list[0].1, epoch) is Err,
    ensures
        archive::members_form(prefix, list, n, epoch) == Err::<Seq<u8>, archive::ArchiveFault>(
            archive::member_form(prefix, list[0].1, epoch)->Err_0,
        ),
    decreases n,
{
    reveal_with_fuel(archive::members_form, 2);
    if n > 1 {
        first_refusal_is_told(prefix, list, n - 1, epoch);
    }
}

/// A file goes into the archive under the prefix, as root's, with the time of the bundle
/// and its own bytes; a directory goes in with none.
pub proof fn members_keep_their_bytes(prefix: Seq<char>, m: Member, epoch: u64)
    ensures
        m.kind matches EntryKind::File(mode) ==> (archive::member_form(prefix, m, epoch) matches Ok(
            b,
        ) ==> archive::tar_member(
            prefix + "/"@ + m.path,
            archive::FILE_FLAG,
            if (mode / 64) % 2 == 1 {
                0o755
            } else {
                0o644
            },
            0,
            "root"@,
            epoch,
            m.bytes,
        ) == Some(b)),
        m.kind is Directory ==> (archive::member_form(prefix, m, epoch) matches Ok(b)
            ==> archive::tar_member(
            prefix + "/"@ + m.path,
            archive::DIRECTORY_FLAG,
            0o755,
            0,
            "root"@,
            epoch,
            Seq::empty(),
        ) == Some(b)),
        archive::FILE_FLAG != archive::DIRECTORY_FLAG,
{
}

/// A line of a checksum file holds: before its first two spaces stands the digest of the
/// bytes that were read.
pub open spec fn line_holds(line: Seq<char>, read: Option<Seq<u8>>) -> bool {
    exists|k: int| digest_ends_at(line, k) && read is Some && checksums::sha256_text(
        read->Some_0,
    ) == #[trigger] line.take(k)
}

/// The first two spaces of a line stand at `k`.
pub open spec fn digest_ends_at(line: Seq<char>, k: int) -> bool {
    &&& 0 <= k
    &&& k + 1 < line.len()
    &&& line[k] == ' '
    &&& line[k + 1] == ' '
    &&& forall|j: int| 0 <= j < k ==> !(#[trigger] line[j] == ' ' && line[j + 1] == ' ')
}

proof fn the_first_gap_is_found(line: Seq<char>, from: int)
    requires
        0 <= from,
        forall|j: int|
            0 <= j < from && j + 1 < line.len() ==> !(#[trigger] line[j] == ' ' && line[j + 1]
                == ' '),
    ensures
        match checksums::gap_from(line, from) {
            Some(k) => digest_ends_at(line, k),
            None => forall|j: int| !digest_ends_at(line, j),
        },
    decreases line.len() - from,
{
    if from + 1 < line.len() {
        if !(line[from] == ' ' && line[from + 1] == ' ') {
            the_first_gap_is_found(line, from + 1);
        }
    }
}

proof fn one_line_holds(line: Seq<char>, number: nat, read: Option<Seq<u8>>)
    ensures
        checksums::line_outcome(line, number, read) is Ok <==> line_holds(line, read),
{
    the_first_gap_is_found(line, 0);
    match checksums::gap_from(line, 0) {
        Some(k) => {
            assert forall|j: int| digest_ends_at(line, j) implies j == k by {
                if j < k {
                    assert(line[j] == ' ' && line[j + 1] == ' ');
                } else if k < j {
                    assert(line[k] == ' ' && line[k + 1] == ' ');
                }
            }
            assert(checksums::cut_line(line) == Some((line.take(k), line.skip(k + 2))));
        },
        None => {},
    }
}

proof fn lines_hold_from(lines: Seq<Seq<char>>, reads: Seq<Option<Seq<u8>>>, from: int)
    requires
        0 <= from,
        lines.len() == reads.len(),
    ensures
        checksums::lines_outcome(lines, reads, from) is Ok <==> (forall|i: int|
            from <= i < lines.len() ==> line_holds(#[trigger] lines[i], reads[i])),
    decreases lines.len() - from,
{
    if from < lines.len() {
        lines_hold_from(lines, reads, from + 1);
        one_line_holds(lines[from], (from + 1) as nat, reads[from]);
        if line_holds(lines[from], reads[from]) && (forall|i: int|
            from + 1 <= i < lines.len() ==> line_holds(#[trigger] lines[i], reads[i])) {
            assert forall|i: int| from <= i < lines.len() implies line_holds(
                #[trigger] lines[i],
                reads[i],
            ) by {}
        }
    }
}

/// A checksum file is accepted exactly where every line of it has two spaces, the file it
/// names could be read, and the text before the spaces is the digest of its bytes.
pub proof fn accepted_sums_hold(lines: Seq<Seq<char>>, reads: Seq<Option<Seq<u8>>>)
    requires
        lines.len() == reads.len(),
    ensures
        checksums::lines_outcome(lines, reads, 0) is Ok <==> (forall|i: int|
            0 <= i < lines.len() ==> line_holds(#[trigger] lines[i], reads[i])),
{
    lines_hold_from(lines, reads, 0);
}

} // verus!
