//! The release archive: a compressed tar file whose bytes depend on nothing but
//! the bundle, its name and the time of its source.
use crate::json::copied;
use crate::order;
use crate::order::less_text;
use crate::text::{chars_of, push_char, same_text};
use flate2::{Compression, GzBuilder};
use std::io::Write;
use tar::{Builder, EntryType, Header};
use vstd::prelude::*;
use vstd::string::*;

verus! {

/// What an entry of a bundle is. A file carries its permission bits.
#[derive(Clone, Copy, Debug, PartialEq, Eq, Structural)]
pub enum EntryKind {
    Directory,
    File(u32),
    Symlink,
    Other,
}

/// An entry of a bundle, under its path from the bundle's directory on. The
/// directory itself has the empty path.
#[derive(Clone, Debug)]
pub struct Entry {
    pub path: String,
    pub kind: EntryKind,
    pub bytes: Vec<u8>,
}

/// Why there is no archive.
#[derive(Clone, Debug, PartialEq, Eq)]
pub enum ArchiveError {
    /// The entry under this path is a symbolic link.
    Symlink(String),
    /// The entry under this path is neither a directory nor a file.
    Unsupported(String),
    /// The archive cannot hold this path.
    Path(String),
    /// The archive could not be compressed.
    Compression,
}

/// An entry by what it holds.
pub struct Member {
    pub path: Seq<char>,
    pub kind: EntryKind,
    pub bytes: Seq<u8>,
}

/// An error by its characters.
pub enum ArchiveFault {
    Symlink(Seq<char>),
    Unsupported(Seq<char>),
    Path(Seq<char>),
    Compression,
}

/// An error by its characters.
pub open spec fn fault(error: ArchiveError) -> ArchiveFault {
    match error {
        ArchiveError::Symlink(p) => ArchiveFault::Symlink(p@),
        ArchiveError::Unsupported(p) => ArchiveFault::Unsupported(p@),
        ArchiveError::Path(p) => ArchiveFault::Path(p@),
        ArchiveError::Compression => ArchiveFault::Compression,
    }
}

/// Bytes or an error, each by what it holds.
pub open spec fn outcome(result: Result<Vec<u8>, ArchiveError>) -> Result<Seq<u8>, ArchiveFault> {
    match result {
        Ok(bytes) => Ok(bytes@),
        Err(e) => Err(fault(e)),
    }
}

/// Optional bytes by what they hold.
pub open spec fn optional_bytes(bytes: Option<Vec<u8>>) -> Option<Seq<u8>> {
    match bytes {
        Some(b) => Some(b@),
        None => None,
    }
}

/// What the tar crate writes for one member of an archive: its path, the type
/// flag, the permission bits, the owner and the group by number and by name, the
/// time and the contents. None if it refuses the path or the name.
pub uninterp spec fn tar_member(
    path: Seq<char>,
    flag: u8,
    mode: u32,
    owner: u64,
    name: Seq<char>,
    time: u64,
    bytes: Seq<u8>,
) -> Option<Seq<u8>>;

/// What the flate2 crate writes as the gzip form of bytes, with a time in its
/// header and at a level of compression.
pub uninterp spec fn gzip_form(bytes: Seq<u8>, time: u32, level: u32) -> Option<Seq<u8>>;

/// `tar::Builder::append_data` on an empty archive, with a `tar::Header` in the
/// ustar format that carries the fields given here and the length of the bytes.
/// What is written depends on the arguments alone; which bytes they are is not
/// stated.
#[verifier::external_body]
fn member_bytes(
    path: &str,
    flag: u8,
    mode: u32,
    owner: u64,
    name: &str,
    time: u64,
    bytes: &[u8],
) -> (written: Option<Vec<u8>>)
    ensures
        optional_bytes(written) == tar_member(path@, flag, mode, owner, name@, time, bytes@),
{
    let mut header = Header::new_ustar();
    header.set_uid(owner);
    header.set_gid(owner);
    header.set_mtime(time);
    header.set_username(name).ok()?;
    header.set_groupname(name).ok()?;
    header.set_entry_type(EntryType::new(flag));
    header.set_mode(mode);
    header.set_size(bytes.len() as u64);
    let mut builder = Builder::new(Vec::new());
    builder.append_data(&mut header, path, bytes).ok()?;
    Some(builder.get_ref().clone())
}

/// `flate2::GzBuilder::write` to memory, one write of all the bytes, and
/// `flate2::write::GzEncoder::finish`. What is written depends on the arguments
/// alone; which bytes they are is not stated.
#[verifier::external_body]
fn gzip(bytes: &[u8], time: u32, level: u32) -> (written: Option<Vec<u8>>)
    requires
        level <= 9,
    ensures
        optional_bytes(written) == gzip_form(bytes@, time, level),
{
    let mut encoder = GzBuilder::new().mtime(time).write(Vec::new(), Compression::new(level));
    encoder.write_all(bytes).ok()?;
    encoder.finish().ok()
}

/// The separator of a path comes before every other character, so that a
/// directory's entries stay together behind the directory.
pub open spec fn rank(c: char) -> char {
    if c == '/' {
        '\0'
    } else {
        c
    }
}

/// The key by which paths are ordered.
pub open spec fn path_key(path: Seq<char>) -> Seq<char> {
    path.map_values(|c: char| rank(c))
}

fn key_of(path: &str) -> (key: String)
    ensures
        key@ == path_key(path@),
{
    let chars = chars_of(path);
    let mut key = String::new();
    let mut i: usize = 0;
    while i < chars.len()
        invariant
            i <= chars@.len(),
            chars@ == path@,
            key@ == path_key(path@.take(i as int)),
        decreases chars.len() - i,
    {
        let c = chars[i];
        if c == '/' {
            push_char(&mut key, '\0');
        } else {
            push_char(&mut key, c);
        }
        i += 1;
        assert(key@ =~= path_key(path@.take(i as int)));
    }
    assert(path@.take(i as int) =~= path@);
    key
}

/// An entry by what it holds.
pub open spec fn member(entry: Entry) -> Member {
    Member { path: entry.path@, kind: entry.kind, bytes: entry.bytes@ }
}

/// Entries under their keys.
pub open spec fn keyed(entries: Seq<Entry>) -> Seq<(Seq<char>, Member)> {
    entries.map_values(|e: Entry| (path_key(e.path@), member(e)))
}

/// Entries behind references, under their keys.
pub open spec fn keyed_refs(entries: Seq<&Entry>) -> Seq<(Seq<char>, Member)> {
    entries.map_values(|e: &Entry| (path_key(e.path@), member(*e)))
}

/// The entries of a bundle in the order of the archive: every directory before
/// what is in it, and the entries of a directory by their names.
pub open spec fn in_archive_order(entries: Seq<Entry>) -> Seq<(Seq<char>, Member)> {
    order::put_all(Seq::empty(), keyed(entries))
}

fn place<'a>(list: &mut Vec<&'a Entry>, entry: &'a Entry)
    ensures
        keyed_refs(final(list)@) == order::put(
            keyed_refs(old(list)@),
            path_key(entry.path@),
            member(*entry),
        ),
{
    let ghost before = keyed_refs(list@);
    let ghost v = member(*entry);
    let key = key_of(&entry.path);
    let mut i: usize = 0;
    while i < list.len()
        invariant
            i <= list@.len(),
            list@ == old(list)@,
            before == keyed_refs(list@),
            key@ == path_key(entry.path@),
            v == member(*entry),
            forall|j: int|
                0 <= j < i ==> key@ != (#[trigger] before[j]).0 && !order::precedes(
                    key@,
                    before[j].0,
                ),
        decreases list.len() - i,
    {
        let other: &Entry = list[i];
        let other_key = key_of(&other.path);
        proof {
            order::put_splits(before, key@, v, i as int);
            assert(before.skip(i as int)[0] == before[i as int]);
        }
        if same_text(&key, &other_key) {
            list.set(i, entry);
            assert(keyed_refs(list@) =~= order::put(before, key@, v));
            return;
        }
        if less_text(&key, &other_key) {
            list.insert(i, entry);
            assert(keyed_refs(list@) =~= order::put(before, key@, v));
            return;
        }
        i += 1;
    }
    proof {
        order::put_splits(before, key@, v, i as int);
    }
    list.push(entry);
    assert(keyed_refs(list@) =~= order::put(before, key@, v));
}

/// The entries in the order of the archive.
pub fn collect_sorted<'a>(entries: &'a [Entry]) -> (list: Vec<&'a Entry>)
    ensures
        keyed_refs(list@) == in_archive_order(entries@),
{
    let mut list: Vec<&'a Entry> = Vec::new();
    let mut i: usize = 0;
    assert(keyed(entries@.take(0)) =~= Seq::empty());
    assert(keyed_refs(list@) =~= Seq::empty());
    while i < entries.len()
        invariant
            i <= entries@.len(),
            keyed_refs(list@) == order::put_all(Seq::empty(), keyed(entries@.take(i as int))),
        decreases entries.len() - i,
    {
        place(&mut list, &entries[i]);
        i += 1;
        proof {
            let now = keyed(entries@.take(i as int));
            assert(now.drop_last() =~= keyed(entries@.take(i - 1)));
            assert(now.last() == (path_key(entries@[i - 1].path@), member(entries@[i - 1])));
        }
    }
    assert(entries@.take(i as int) =~= entries@);
    list
}

/// The type flag of a directory.
pub const DIRECTORY_FLAG: u8 = 0x35;

/// The type flag of a regular file.
pub const FILE_FLAG: u8 = 0x30;

/// The permissions of directories and of files that their owner may run.
pub const RUNNABLE: u32 = 0o755;

/// The permissions of other files.
pub const READABLE: u32 = 0o644;

/// The level of compression.
pub const LEVEL: u32 = 9;

/// The bit that lets the owner run a file is set.
pub open spec fn owner_may_run(mode: u32) -> bool {
    (mode / 64) % 2 == 1
}

/// The permissions that a file has in the archive.
pub open spec fn archived_mode(mode: u32) -> u32 {
    if owner_may_run(mode) {
        RUNNABLE
    } else {
        READABLE
    }
}

/// The permissions that a file has in the archive: only whether its owner may run
/// it is kept.
pub fn file_mode(mode: u32) -> (archived: u32)
    ensures
        archived == archived_mode(mode),
{
    assert((mode & 0o100 != 0) == ((mode / 64) % 2 == 1)) by (bit_vector);
    if mode & 0o100 != 0 {
        RUNNABLE
    } else {
        READABLE
    }
}

/// The path of a member in the archive.
pub open spec fn archived_path(prefix: Seq<char>, path: Seq<char>) -> Seq<char> {
    prefix + "/"@ + path
}

/// What the archive holds of one member.
pub open spec fn member_form(prefix: Seq<char>, m: Member, epoch: u64) -> Result<
    Seq<u8>,
    ArchiveFault,
> {
    let path = archived_path(prefix, m.path);
    match m.kind {
        EntryKind::Symlink => Err(ArchiveFault::Symlink(m.path)),
        EntryKind::Other => Err(ArchiveFault::Unsupported(m.path)),
        EntryKind::Directory => match tar_member(
            path,
            DIRECTORY_FLAG,
            RUNNABLE,
            0,
            "root"@,
            epoch,
            Seq::empty(),
        ) {
            Some(bytes) => Ok(bytes),
            None => Err(ArchiveFault::Path(m.path)),
        },
        EntryKind::File(mode) => match tar_member(
            path,
            FILE_FLAG,
            archived_mode(mode),
            0,
            "root"@,
            epoch,
            m.bytes,
        ) {
            Some(bytes) => Ok(bytes),
            None => Err(ArchiveFault::Path(m.path)),
        },
    }
}

/// The forms of the first `n` members one behind the other, or the first error.
pub open spec fn members_form(
    prefix: Seq<char>,
    list: Seq<(Seq<char>, Member)>,
    n: int,
    epoch: u64,
) -> Result<Seq<u8>, ArchiveFault>
    decreases n,
{
    if n <= 0 {
        Ok(Seq::empty())
    } else {
        match members_form(prefix, list, n - 1, epoch) {
            Err(e) => Err(e),
            Ok(before) => match member_form(prefix, list[n - 1].1, epoch) {
                Err(e) => Err(e),
                Ok(bytes) => Ok(before + bytes),
            },
        }
    }
}

/// The end of a tar file: two empty blocks.
pub open spec fn end_of_archive() -> Seq<u8> {
    Seq::new(1024, |i: int| 0u8)
}

/// The archive of members in the order given.
pub open spec fn archive_of(
    prefix: Seq<char>,
    list: Seq<(Seq<char>, Member)>,
    epoch: u64,
) -> Result<Seq<u8>, ArchiveFault> {
    match members_form(prefix, list, list.len() as int, epoch) {
        Err(e) => Err(e),
        Ok(bytes) => match gzip_form(bytes + end_of_archive(), 0, LEVEL) {
            Some(archive) => Ok(archive),
            None => Err(ArchiveFault::Compression),
        },
    }
}

proof fn errors_persist(
    prefix: Seq<char>,
    list: Seq<(Seq<char>, Member)>,
    n: int,
    m: int,
    epoch: u64,
)
    requires
        0 <= n <= m,
        members_form(prefix, list, n, epoch) is Err,
    ensures
        members_form(prefix, list, m, epoch) == members_form(prefix, list, n, epoch),
    decreases m - n,
{
    if n < m {
        errors_persist(prefix, list, n, m - 1, epoch);
    }
}

fn append_member(out: &mut Vec<u8>, prefix: &str, entry: &Entry, epoch: u64) -> (result: Result<
    (),
    ArchiveError,
>)
    ensures
        match (member_form(prefix@, member(*entry), epoch), result) {
            (Ok(bytes), Ok(_)) => final(out)@ == old(out)@ + bytes,
            (Err(e), Err(f)) => fault(f) == e,
            _ => false,
        },
{
    let mut path = copied(prefix);
    path.append("/");
    path.append(&entry.path);
    let empty: Vec<u8> = Vec::new();
    let written = match entry.kind {
        EntryKind::Symlink => return Err(ArchiveError::Symlink(copied(&entry.path))),
        EntryKind::Other => return Err(ArchiveError::Unsupported(copied(&entry.path))),
        EntryKind::Directory => {
            assert(empty@ =~= Seq::<u8>::empty());
            member_bytes(&path, DIRECTORY_FLAG, RUNNABLE, 0, "root", epoch, &empty)
        },
        EntryKind::File(mode) => member_bytes(
            &path,
            FILE_FLAG,
            file_mode(mode),
            0,
            "root",
            epoch,
            &entry.bytes,
        ),
    };
    match written {
        None => Err(ArchiveError::Path(copied(&entry.path))),
        Some(bytes) => {
            crate::bytes::extend(out, &bytes);
            Ok(())
        },
    }
}

/// The archive of a bundle: its entries in the order of the archive, each with
/// root as its owner and its group, the same time and one of two permissions,
/// then compressed without a time of its own.
pub fn deterministic_tar(prefix: &str, entries: &[Entry], epoch: u64) -> (result: Result<
    Vec<u8>,
    ArchiveError,
>)
    ensures
        outcome(result) == archive_of(prefix@, in_archive_order(entries@), epoch),
{
    let list = collect_sorted(entries);
    let ghost sorted = keyed_refs(list@);
    let mut bytes: Vec<u8> = Vec::new();
    let mut i: usize = 0;
    while i < list.len()
        invariant
            i <= list@.len(),
            sorted == keyed_refs(list@),
            sorted == in_archive_order(entries@),
            members_form(prefix@, sorted, i as int, epoch) == Ok::<Seq<u8>, ArchiveFault>(bytes@),
        decreases list.len() - i,
    {
        let entry: &Entry = list[i];
        assert(sorted[i as int].1 == member(*entry));
        match append_member(&mut bytes, prefix, entry, epoch) {
            Err(e) => {
                proof {
                    errors_persist(prefix@, sorted, i + 1, list@.len() as int, epoch);
                }
                return Err(e);
            },
            Ok(_) => {},
        }
        i += 1;
    }
    let ghost whole = bytes@;
    let mut k: usize = 0;
    while k < 1024
        invariant
            k <= 1024,
            bytes@ == whole + Seq::new(k as nat, |i: int| 0u8),
        decreases 1024 - k,
    {
        bytes.push(0);
        k += 1;
        assert(bytes@ =~= whole + Seq::new(k as nat, |i: int| 0u8));
    }
    assert(bytes@ =~= whole + end_of_archive());
    match gzip(&bytes, 0, LEVEL) {
        None => Err(ArchiveError::Compression),
        Some(archive) => Ok(archive),
    }
}

/// No path stands twice among the entries.
pub open spec fn paths_differ(entries: Seq<Entry>) -> bool {
    forall|i: int, j: int|
        0 <= i < j < entries.len() ==> path_key(#[trigger] entries[i].path@) != path_key(
            #[trigger] entries[j].path@,
        )
}

/// What is stored is found: an ordered list made of pairs with different keys
/// holds exactly those pairs.
proof fn stored_pairs<V>(pairs: Seq<(Seq<char>, V)>, k: Seq<char>, v: V)
    requires
        forall|i: int, j: int|
            0 <= i < j < pairs.len() ==> (#[trigger] pairs[i]).0 != (#[trigger] pairs[j]).0,
    ensures
        order::ordered(order::put_all(Seq::empty(), pairs)),
        order::lookup(order::put_all(Seq::empty(), pairs), k) == Some(v) <==> pairs.contains((k, v)),
    decreases pairs.len(),
{
    if pairs.len() == 0 {
    } else {
        let before = pairs.drop_last();
        let last = pairs.last();
        assert forall|i: int, j: int| 0 <= i < j < before.len() implies (#[trigger] before[i]).0 != (
        #[trigger] before[j]).0 by {
            assert(pairs[i].0 != pairs[j].0);
        }
        stored_pairs(before, k, v);
        let list = order::put_all(Seq::empty(), before);
        order::put_keeps_order(list, last.0, last.1);
        order::put_is_found(list, last.0, last.1, k);
        assert(pairs.contains((k, v)) <==> before.contains((k, v)) || last == (k, v)) by {
            if pairs.contains((k, v)) {
                let i = choose|i: int| 0 <= i < pairs.len() && pairs[i] == (k, v);
                if i < before.len() {
                    assert(before[i] == (k, v));
                }
            }
            if before.contains((k, v)) {
                let i = choose|i: int| 0 <= i < before.len() && before[i] == (k, v);
                assert(pairs[i] == (k, v));
            }
            if last == (k, v) {
                assert(pairs[pairs.len() - 1] == (k, v));
            }
        }
        if k == last.0 && before.contains((k, v)) {
            let i = choose|i: int| 0 <= i < before.len() && before[i] == (k, v);
            assert(pairs[i].0 != pairs[pairs.len() - 1].0);
        }
    }
}

proof fn keyed_differ(entries: Seq<Entry>)
    requires
        paths_differ(entries),
    ensures
        forall|i: int, j: int|
            0 <= i < j < entries.len() ==> (#[trigger] keyed(entries)[i]).0 != (#[trigger] keyed(
                entries,
            )[j]).0,
{
    assert forall|i: int, j: int| 0 <= i < j < entries.len() implies (#[trigger] keyed(
        entries,
    )[i]).0 != (#[trigger] keyed(entries)[j]).0 by {
        assert(path_key(entries[i].path@) != path_key(entries[j].path@));
    }
}

/// The archive is the same in whatever order the entries of the bundle are read:
/// two lists with the same entries, no path twice, give the same bytes.
pub proof fn archive_is_reproducible(
    prefix: Seq<char>,
    a: Seq<Entry>,
    b: Seq<Entry>,
    epoch: u64,
)
    requires
        paths_differ(a),
        paths_differ(b),
        forall|m: (Seq<char>, Member)| keyed(a).contains(m) <==> keyed(b).contains(m),
    ensures
        in_archive_order(a) == in_archive_order(b),
        archive_of(prefix, in_archive_order(a), epoch) == archive_of(
            prefix,
            in_archive_order(b),
            epoch,
        ),
{
    keyed_differ(a);
    keyed_differ(b);
    let x = in_archive_order(a);
    let y = in_archive_order(b);
    assert forall|k: Seq<char>| order::lookup(x, k) == order::lookup(y, k) by {
        match (order::lookup(x, k), order::lookup(y, k)) {
            (Some(v), _) => {
                stored_pairs(keyed(a), k, v);
                stored_pairs(keyed(b), k, v);
                assert(keyed(a).contains((k, v)));
            },
            (None, Some(v)) => {
                stored_pairs(keyed(a), k, v);
                stored_pairs(keyed(b), k, v);
                assert(keyed(b).contains((k, v)));
            },
            (None, None) => {},
        }
    }
    let m: Member = arbitrary();
    stored_pairs(keyed(a), Seq::empty(), m);
    stored_pairs(keyed(b), Seq::empty(), m);
    order::ordered_lists_are_unique(x, y);
}

/// Every member of an archive belongs to root, has the time of the source and one
/// of two permissions, whatever the file system said of it: two entries that
/// differ in permissions only, and agree on whether their owner may run them, have
/// the same form.
pub proof fn members_are_normalized(
    prefix: Seq<char>,
    path: Seq<char>,
    bytes: Seq<u8>,
    first: u32,
    second: u32,
    epoch: u64,
)
    requires
        owner_may_run(first) == owner_may_run(second),
    ensures
        member_form(prefix, (Member { path, kind: EntryKind::File(first), bytes }), epoch)
            == member_form(prefix, (Member { path, kind: EntryKind::File(second), bytes }), epoch),
{
}

} // verus!
