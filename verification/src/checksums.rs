//! Checksum files: a digest, two spaces and a path on each line.
use crate::text;
use crate::text::{chars_of, lines_of, same_text, slice_text};
use sha2::{Digest, Sha256};
use vstd::prelude::*;
use vstd::string::*;

verus! {

/// What the sha2 crate gives as the SHA-256 digest of bytes, in hexadecimal.
pub uninterp spec fn sha256_text(bytes: Seq<u8>) -> Seq<char>;

/// A digit of hexadecimal notation in lower case.
pub open spec fn is_hex(c: char) -> bool {
    '0' <= c <= '9' || 'a' <= c <= 'f'
}

/// `sha2::Sha256::digest`, written with `{:x}`: 32 bytes as 64 hexadecimal digits
/// in lower case. The digest depends on the bytes alone; which it is is not stated.
#[verifier::external_body]
pub(crate) fn sha256_hex(bytes: &[u8]) -> (digest: String)
    ensures
        digest@ == sha256_text(bytes@),
        digest@.len() == 64,
        forall|i: int| 0 <= i < digest@.len() ==> is_hex(#[trigger] digest@[i]),
{
    format!("{:x}", Sha256::digest(bytes))
}

/// The digest of bytes: 64 hexadecimal digits.
pub fn sha256(bytes: &[u8]) -> (digest: String)
    ensures
        digest@ == sha256_text(bytes@),
        digest@.len() == 64,
        forall|i: int| 0 <= i < digest@.len() ==> is_hex(#[trigger] digest@[i]),
{
    sha256_hex(bytes)
}

/// A file of a bundle.
#[derive(Clone, Debug)]
pub struct BundleFile {
    pub path: String,
    pub bytes: Vec<u8>,
}

/// The line of a checksum file for a digest and a path.
pub open spec fn sum_line(digest: Seq<char>, path: Seq<char>) -> Seq<char> {
    digest + "  "@ + path
}

/// The checksum file of the first `n` digests and paths.
pub open spec fn sums_text(sums: Seq<(Seq<char>, Seq<char>)>, n: int) -> Seq<char>
    decreases n,
{
    if n <= 0 {
        Seq::empty()
    } else {
        sums_text(sums, n - 1) + sums[n - 1].0 + "  "@ + sums[n - 1].1 + "\n"@
    }
}

/// The digests and the paths of files.
pub open spec fn sums_of(files: Seq<BundleFile>) -> Seq<(Seq<char>, Seq<char>)> {
    files.map_values(|f: BundleFile| (sha256_text(f.bytes@), f.path@))
}

/// The bytes of files, as they are read back.
pub open spec fn reads_of(files: Seq<BundleFile>) -> Seq<Option<Seq<u8>>> {
    files.map_values(|f: BundleFile| Some(f.bytes@))
}

/// The checksum file of files, in their order. The files agree with it, if each path
/// can stand on a line.
pub fn checksum_file(files: &[BundleFile]) -> (text: String)
    ensures
        text@ == sums_text(sums_of(files@), files@.len() as int),
        plain_paths(files@) ==> lines_outcome(
            text::lines(text@),
            reads_of(files@),
            0,
        ) == Ok::<(), SumFault>(()),
{
    let mut out = String::new();
    let mut i: usize = 0;
    while i < files.len()
        invariant
            i <= files@.len(),
            out@ == sums_text(sums_of(files@), i as int),
            forall|k: int| 0 <= k < i ==> is_digest(sha256_text((#[trigger] files@[k]).bytes@)),
        decreases files.len() - i,
    {
        let digest = sha256_hex(&files[i].bytes);
        out.append(&digest);
        out.append("  ");
        out.append(&files[i].path);
        out.append("\n");
        i += 1;
        assert(sums_of(files@)[i - 1] == (sha256_text(files@[i - 1].bytes@), files@[i - 1].path@));
    }
    proof {
        if plain_paths(files@) {
            written_sums_are_met(files@);
        }
    }
    out
}

/// The place from `i` on at which two spaces stand first.
pub open spec fn gap_from(line: Seq<char>, i: int) -> Option<int>
    decreases line.len() - i,
{
    if i < 0 || i + 1 >= line.len() {
        None
    } else if line[i] == ' ' && line[i + 1] == ' ' {
        Some(i)
    } else {
        gap_from(line, i + 1)
    }
}

/// A line cut at the first two spaces.
pub open spec fn cut_line(line: Seq<char>) -> Option<(Seq<char>, Seq<char>)> {
    match gap_from(line, 0) {
        None => None,
        Some(i) => Some((line.take(i), line.skip(i + 2))),
    }
}

/// Cuts a line at the first two spaces: the digest and the path.
pub fn split_line(line: &str) -> (parts: Option<(String, String)>)
    ensures
        match (parts, cut_line(line@)) {
            (Some(p), Some(q)) => p.0@ == q.0 && p.1@ == q.1,
            (None, None) => true,
            _ => false,
        },
{
    let chars = chars_of(line);
    let mut i: usize = 0;
    while i < chars.len() && chars.len() - i > 1
        invariant
            i <= chars@.len(),
            chars@ == line@,
            gap_from(line@, 0) == gap_from(line@, i as int),
        decreases chars.len() - i,
    {
        if chars[i] == ' ' && chars[i + 1] == ' ' {
            let digest = slice_text(&chars, 0, i);
            let path = slice_text(&chars, i + 2, chars.len());
            assert(digest@ =~= line@.take(i as int));
            assert(path@ =~= line@.skip(i + 2));
            return Some((digest, path));
        }
        i += 1;
    }
    None
}

/// Why files do not agree with a checksum file.
#[derive(Clone, Debug, PartialEq, Eq)]
pub enum SumError {
    /// The line with this number, from 1 on, has no two spaces.
    Line(usize),
    /// The file under this path cannot be read.
    Missing(String),
    /// The file under this path has another digest.
    Mismatch(String),
}

/// An error by its characters.
pub enum SumFault {
    Line(nat),
    Missing(Seq<char>),
    Mismatch(Seq<char>),
}

/// A result, its error by its characters.
pub open spec fn outcome(result: Result<(), SumError>) -> Result<(), SumFault> {
    match result {
        Ok(_) => Ok(()),
        Err(SumError::Line(n)) => Err(SumFault::Line(n as nat)),
        Err(SumError::Missing(p)) => Err(SumFault::Missing(p@)),
        Err(SumError::Mismatch(p)) => Err(SumFault::Mismatch(p@)),
    }
}

/// What becomes of one line, given what reading the file under its path gave.
pub open spec fn line_outcome(line: Seq<char>, number: nat, read: Option<Seq<u8>>) -> Result<
    (),
    SumFault,
> {
    match cut_line(line) {
        None => Err(SumFault::Line(number)),
        Some((digest, path)) => match read {
            None => Err(SumFault::Missing(path)),
            Some(bytes) => if sha256_text(bytes) == digest {
                Ok(())
            } else {
                Err(SumFault::Mismatch(path))
            },
        },
    }
}

/// What reading the file of line `i` gave.
pub open spec fn read_at(reads: Seq<Option<Seq<u8>>>, i: int) -> Option<Seq<u8>> {
    if 0 <= i < reads.len() {
        reads[i]
    } else {
        None
    }
}

/// What becomes of the lines from `i` on: the first error, if there is one.
pub open spec fn lines_outcome(
    lines: Seq<Seq<char>>,
    reads: Seq<Option<Seq<u8>>>,
    i: int,
) -> Result<(), SumFault>
    decreases lines.len() - i,
{
    if i < 0 || i >= lines.len() {
        Ok(())
    } else {
        match line_outcome(lines[i], (i + 1) as nat, read_at(reads, i)) {
            Err(e) => Err(e),
            Ok(_) => lines_outcome(lines, reads, i + 1),
        }
    }
}

/// What was read, by its bytes.
pub open spec fn bytes_of(read: Option<Vec<u8>>) -> Option<Seq<u8>> {
    match read {
        Some(bytes) => Some(bytes@),
        None => None,
    }
}

/// What was read for each line, by its bytes.
pub open spec fn all_bytes(reads: Seq<Option<Vec<u8>>>) -> Seq<Option<Seq<u8>>> {
    reads.map_values(|read: Option<Vec<u8>>| bytes_of(read))
}

/// The path of a line, if it is cut.
pub open spec fn path_of(line: Seq<char>) -> Option<Seq<char>> {
    match cut_line(line) {
        Some((_, path)) => Some(path),
        None => None,
    }
}

/// An optional path by its characters.
pub open spec fn optional(path: Option<String>) -> Option<Seq<char>> {
    match path {
        Some(p) => Some(p@),
        None => None,
    }
}

/// The path on each line of a checksum file: the files to read, relative to the
/// directory of the bundle.
pub fn sum_paths(text: &str) -> (paths: Vec<Option<String>>)
    ensures
        paths@.map_values(|p: Option<String>| optional(p)) == text::lines(text@).map_values(
            |line: Seq<char>| path_of(line),
        ),
{
    let all = lines_of(text);
    let ghost wanted = text::lines(text@).map_values(|line: Seq<char>| path_of(line));
    let mut paths: Vec<Option<String>> = Vec::new();
    let mut i: usize = 0;
    while i < all.len()
        invariant
            i <= all@.len(),
            text::texts(all@) == text::lines(text@),
            wanted == text::lines(text@).map_values(|line: Seq<char>| path_of(line)),
            paths@.map_values(|p: Option<String>| optional(p)) =~= wanted.take(i as int),
        decreases all.len() - i,
    {
        let ghost before = paths@;
        assert(text::texts(all@)[i as int] == all@[i as int]@);
        let path: Option<String> = match split_line(&all[i]) {
            Some((_, path)) => Some(path),
            None => None,
        };
        paths.push(path);
        i += 1;
        assert(paths@.map_values(|p: Option<String>| optional(p)) =~= before.map_values(
            |p: Option<String>| optional(p),
        ).push(optional(path)));
        assert(wanted.take(i as int) =~= wanted.take(i - 1).push(wanted[i - 1]));
    }
    assert(text::texts(all@).len() == all@.len());
    assert(wanted.take(i as int) =~= wanted);
    paths
}

/// Compares one line of a checksum file with what reading the file that it names gave.
pub fn check_line(line: &str, number: usize, read: &Option<Vec<u8>>) -> (result: Result<
    (),
    SumError,
>)
    ensures
        outcome(result) == line_outcome(line@, number as nat, bytes_of(*read)),
{
    match split_line(line) {
        None => Err(SumError::Line(number)),
        Some((digest, path)) => match read {
            None => Err(SumError::Missing(path)),
            Some(bytes) => {
                let actual = sha256_hex(bytes);
                if same_text(&actual, &digest) {
                    Ok(())
                } else {
                    Err(SumError::Mismatch(path))
                }
            },
        },
    }
}

/// Compares a checksum file, line by line, with what reading the file of each line
/// gave.
pub fn check_sums(text: &str, reads: &[Option<Vec<u8>>]) -> (result: Result<(), SumError>)
    ensures
        outcome(result) == lines_outcome(text::lines(text@), all_bytes(reads@), 0),
{
    let all = lines_of(text);
    let ghost lines = text::lines(text@);
    let ghost bytes = all_bytes(reads@);
    let mut i: usize = 0;
    while i < all.len()
        invariant
            i <= all@.len(),
            lines == text::lines(text@),
            bytes == all_bytes(reads@),
            text::texts(all@) == lines,
            lines_outcome(lines, bytes, 0) == lines_outcome(lines, bytes, i as int),
        decreases all.len() - i,
    {
        assert(text::texts(all@)[i as int] == all@[i as int]@);
        let result = if i < reads.len() {
            check_line(&all[i], i + 1, &reads[i])
        } else {
            check_line(&all[i], i + 1, &None)
        };
        match result {
            Err(e) => return Err(e),
            Ok(_) => {},
        }
        i += 1;
    }
    Ok(())
}

/// A digest has no space.
pub open spec fn is_digest(digest: Seq<char>) -> bool {
    digest.len() == 64 && forall|i: int| 0 <= i < digest.len() ==> is_hex(#[trigger] digest[i])
}

/// A path that stands on one line as it is.
pub open spec fn is_plain_path(path: Seq<char>) -> bool {
    &&& forall|i: int| 0 <= i < path.len() ==> #[trigger] path[i] != '\n'
    &&& path.len() > 0 ==> path.last() != '\r'
}

/// A line that was written is cut back into its digest and its path.
pub proof fn line_is_read_back(digest: Seq<char>, path: Seq<char>)
    requires
        is_digest(digest),
    ensures
        cut_line(sum_line(digest, path)) == Some((digest, path)),
{
    reveal_strlit("  ");
    let line = sum_line(digest, path);
    assert(line.take(64) =~= digest);
    gap_after(line, digest, 0);
    assert(line.skip(66) =~= path);
}

proof fn gap_after(line: Seq<char>, digest: Seq<char>, i: int)
    requires
        is_digest(digest),
        line.len() >= 66,
        line.take(64) == digest,
        line[64] == ' ',
        line[65] == ' ',
        0 <= i <= 64,
    ensures
        gap_from(line, i) == Some(64int),
    decreases 64 - i,
{
    if i < 64 {
        assert(line[i] == line.take(64)[i]);
        assert(is_hex(digest[i]));
        gap_after(line, digest, i + 1);
    }
}

/// The lines of a checksum file.
pub open spec fn sum_lines(sums: Seq<(Seq<char>, Seq<char>)>) -> Seq<Seq<char>> {
    sums.map_values(|s: (Seq<char>, Seq<char>)| sum_line(s.0, s.1))
}

/// A checksum file falls into the lines that were written, if every digest is one
/// and every path can stand on a line.
pub proof fn lines_are_read_back(sums: Seq<(Seq<char>, Seq<char>)>)
    requires
        forall|i: int|
            0 <= i < sums.len() ==> is_digest((#[trigger] sums[i]).0) && is_plain_path(sums[i].1),
    ensures
        text::lines(sums_text(sums, sums.len() as int)) == sum_lines(sums),
    decreases sums.len(),
{
    if sums.len() == 0 {
        assert(sum_lines(sums) =~= Seq::empty());
    } else {
        reveal_strlit("  ");
        reveal_strlit("\n");
        let rest = sums.drop_first();
        let line = sum_line(sums[0].0, sums[0].1);
        let whole = sums_text(sums, sums.len() as int);
        assert forall|i: int| 0 <= i < rest.len() implies is_digest((#[trigger] rest[i]).0)
            && is_plain_path(rest[i].1) by {
            assert(rest[i] == sums[i + 1]);
        }
        lines_are_read_back(rest);
        first_line(sums, sums.len() as int);
        let tail = sums_text(rest, rest.len() as int);
        assert(whole == line + seq!['\n'] + tail);
        assert forall|i: int| 0 <= i < line.len() implies line[i] != '\n' by {
            if i < 64 {
                assert(line[i] == sums[0].0[i]);
                assert(is_hex(sums[0].0[i]));
            } else if i >= 66 {
                assert(line[i] == sums[0].1[i - 66]);
            }
        }
        text::line_length_is(whole, line.len() as int);
        assert(whole.take(line.len() as int) =~= line);
        assert(whole.skip(line.len() as int + 1) =~= tail);
        if sums[0].1.len() > 0 {
            assert(line.last() == sums[0].1.last());
        } else {
            assert(line.last() == ' ');
        }
        assert(text::without_return(line) == line);
        assert(text::lines(whole) =~= seq![line] + text::lines(tail));
        assert(sum_lines(sums) =~= seq![line] + sum_lines(rest));
    }
}

proof fn first_line(sums: Seq<(Seq<char>, Seq<char>)>, n: int)
    requires
        1 <= n <= sums.len(),
    ensures
        sums_text(sums, n) == sum_line(sums[0].0, sums[0].1) + "\n"@ + sums_text(
            sums.drop_first(),
            n - 1,
        ),
    decreases n,
{
    let rest = sums.drop_first();
    if n == 1 {
        assert(sums_text(sums, 0) =~= Seq::empty());
        assert(sums_text(rest, 0) =~= Seq::empty());
        assert(sums_text(sums, 1) =~= sum_line(sums[0].0, sums[0].1) + "\n"@ + sums_text(rest, 0));
    } else {
        first_line(sums, n - 1);
        assert(rest[n - 2] == sums[n - 1]);
        assert(sums_text(sums, n) =~= sum_line(sums[0].0, sums[0].1) + "\n"@ + sums_text(
            rest,
            n - 1,
        ));
    }
}

/// Every path can stand on a line.
pub open spec fn plain_paths(files: Seq<BundleFile>) -> bool {
    forall|i: int| 0 <= i < files.len() ==> is_plain_path((#[trigger] files[i]).path@)
}

proof fn written_sums_are_met(files: Seq<BundleFile>)
    requires
        plain_paths(files),
        forall|i: int|
            0 <= i < files.len() ==> is_digest(sha256_text((#[trigger] files[i]).bytes@)),
    ensures
        lines_outcome(
            text::lines(sums_text(sums_of(files), files.len() as int)),
            reads_of(files),
            0,
        ) == Ok::<(), SumFault>(()),
{
    let sums = sums_of(files);
    assert forall|i: int| 0 <= i < sums.len() implies is_digest((#[trigger] sums[i]).0)
        && is_plain_path(sums[i].1) by {
        assert(sums[i] == (sha256_text(files[i].bytes@), files[i].path@));
    }
    lines_are_read_back(sums);
    met_from(files, 0);
}

proof fn met_from(files: Seq<BundleFile>, i: int)
    requires
        0 <= i <= files.len(),
        forall|i: int|
            0 <= i < files.len() ==> is_digest(sha256_text((#[trigger] files[i]).bytes@)),
    ensures
        lines_outcome(sum_lines(sums_of(files)), reads_of(files), i) == Ok::<(), SumFault>(()),
    decreases files.len() - i,
{
    if i < files.len() {
        met_from(files, i + 1);
        let digest = sha256_text(files[i].bytes@);
        line_is_read_back(digest, files[i].path@);
        assert(sum_lines(sums_of(files))[i] == sum_line(digest, files[i].path@));
        assert(reads_of(files)[i] == Some(files[i].bytes@));
    }
}

/// A file whose digest is not the written one is refused, whatever the other lines
/// say.
pub proof fn changed_files_are_refused(
    lines: Seq<Seq<char>>,
    reads: Seq<Option<Seq<u8>>>,
    number: int,
    digest: Seq<char>,
    path: Seq<char>,
)
    requires
        0 <= number < lines.len(),
        cut_line(lines[number]) == Some((digest, path)),
    ensures
        (read_at(reads, number) matches Some(bytes) ==> sha256_text(bytes) != digest)
            ==> lines_outcome(lines, reads, 0) is Err,
{
    if line_outcome(lines[number], (number + 1) as nat, read_at(reads, number)) is Err {
        error_is_reached(lines, reads, 0, number);
    }
}

proof fn error_is_reached(
    lines: Seq<Seq<char>>,
    reads: Seq<Option<Seq<u8>>>,
    from: int,
    number: int,
)
    requires
        0 <= from <= number < lines.len(),
        line_outcome(lines[number], (number + 1) as nat, read_at(reads, number)) is Err,
    ensures
        lines_outcome(lines, reads, from) is Err,
    decreases number - from,
{
    if from < number {
        error_is_reached(lines, reads, from + 1, number);
    }
}

} // verus!
