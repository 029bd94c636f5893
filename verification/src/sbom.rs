//! The bill of materials of a release: every package of the two locked
//! workspaces once, with its license and its checksum.
use crate::json;
use crate::json::{add_member, add_text, array_of, copied, no_members, object_of, Json, Tree};
use crate::order;
use crate::order::less_text;
use crate::text;
use crate::text::{chars_of, push_char, push_decimal, same_text};
use vstd::prelude::*;
use vstd::string::*;

verus! {

/// A package as the metadata of a workspace describes it.
#[derive(Clone, Debug)]
pub struct MetadataPackage {
    pub name: String,
    pub version: String,
    pub source: Option<String>,
    pub license: Option<String>,
}

/// A package as a lock file describes it.
#[derive(Clone, Debug)]
pub struct LockedPackage {
    pub name: String,
    pub version: String,
    pub source: String,
    pub checksum: Option<String>,
}

/// A checksum under the name, the version and the source of its package.
#[derive(Clone, Debug, PartialEq, Eq)]
pub struct Checksum {
    pub name: String,
    pub version: String,
    pub source: String,
    pub checksum: String,
}

/// What the license inventory says of a package.
#[derive(Clone, Debug, PartialEq, Eq)]
pub struct Notice {
    pub name: String,
    pub version: String,
    pub license: String,
    pub source: String,
}

/// What tells packages apart: the name, the version and the source.
pub struct Key {
    pub name: Seq<char>,
    pub version: Seq<char>,
    pub source: Seq<char>,
}

/// Packages are ordered by name, those of one name by version, those of one
/// version by source.
pub open spec fn key_precedes(a: Key, b: Key) -> bool {
    if a.name != b.name {
        order::precedes(a.name, b.name)
    } else if a.version != b.version {
        order::precedes(a.version, b.version)
    } else {
        order::precedes(a.source, b.source)
    }
}

/// Of two different keys exactly one precedes the other, and no key precedes
/// itself.
pub proof fn keys_are_total(a: Key, b: Key)
    ensures
        a == b ==> !key_precedes(a, b),
        a != b ==> (key_precedes(a, b) <==> !key_precedes(b, a)),
{
    order::order_is_total(a.name, b.name);
    order::order_is_total(a.version, b.version);
    order::order_is_total(a.source, b.source);
}

/// The order of keys is transitive.
pub proof fn keys_are_transitive(a: Key, b: Key, c: Key)
    requires
        key_precedes(a, b),
        key_precedes(b, c),
    ensures
        key_precedes(a, c),
{
    order::order_is_total(a.name, b.name);
    order::order_is_total(b.name, c.name);
    order::order_is_total(a.version, b.version);
    order::order_is_total(b.version, c.version);
    order::order_is_total(a.name, a.name);
    order::order_is_total(a.version, a.version);
    if a.name != b.name && b.name != c.name {
        order::order_is_transitive(a.name, b.name, c.name);
    }
    if a.name == b.name && b.name == c.name {
        if a.version != b.version && b.version != c.version {
            order::order_is_transitive(a.version, b.version, c.version);
        }
        if a.version == b.version && b.version == c.version {
            order::order_is_transitive(a.source, b.source, c.source);
        }
    }
}

/// The list with `v` stored under `k`: an entry of that key keeps its place and
/// takes the new value, a new key goes before the first entry that it precedes.
pub open spec fn put<V>(list: Seq<(Key, V)>, k: Key, v: V) -> Seq<(Key, V)>
    decreases list.len(),
{
    if list.len() == 0 {
        seq![(k, v)]
    } else if k == list[0].0 {
        seq![(k, v)] + list.drop_first()
    } else if key_precedes(k, list[0].0) {
        seq![(k, v)] + list
    } else {
        seq![list[0]] + put(list.drop_first(), k, v)
    }
}

/// The list after storing the pairs one after the other.
pub open spec fn put_all<V>(
    list: Seq<(Key, V)>,
    pairs: Seq<(Key, V)>,
) -> Seq<(Key, V)>
    decreases pairs.len(),
{
    if pairs.len() == 0 {
        list
    } else {
        put(put_all(list, pairs.drop_last()), pairs.last().0, pairs.last().1)
    }
}

/// The value stored under `k`.
pub open spec fn lookup<V>(list: Seq<(Key, V)>, k: Key) -> Option<V>
    decreases list.len(),
{
    if list.len() == 0 {
        None
    } else if list[0].0 == k {
        Some(list[0].1)
    } else {
        lookup(list.drop_first(), k)
    }
}

/// Each key comes before every later key.
pub open spec fn ordered<V>(list: Seq<(Key, V)>) -> bool {
    forall|i: int, j: int| 0 <= i < j < list.len() ==> key_precedes(#[trigger] list[i].0, #[trigger] list[j].0)
}

/// Storing a pair keeps the list in order, and the keys of the result are those
/// of the list and `k`.
pub proof fn put_keeps_order<V>(list: Seq<(Key, V)>, k: Key, v: V)
    requires
        ordered(list),
    ensures
        ordered(put(list, k, v)),
        forall|i: int| 0 <= i < put(list, k, v).len() ==> (#[trigger] put(list, k, v)[i].0) == k || exists|j: int|
            0 <= j < list.len() && list[j].0 == put(list, k, v)[i].0,
    decreases list.len(),
{
    let result = put(list, k, v);
    if list.len() == 0 {
    } else if k == list[0].0 {
        assert forall|i: int| 0 <= i < result.len() implies (#[trigger] result[i].0) == k || exists|j: int|
            0 <= j < list.len() && list[j].0 == result[i].0 by {
            assert(list[i].0 == result[i].0);
        }
    } else if key_precedes(k, list[0].0) {
        assert forall|i: int, j: int| 0 <= i < j < result.len() implies key_precedes(
            #[trigger] result[i].0,
            #[trigger] result[j].0,
        ) by {
            if i == 0 {
                if j > 1 {
                    assert(key_precedes(list[0].0, list[j - 1].0));
                    keys_are_transitive(k, list[0].0, list[j - 1].0);
                }
            } else {
                assert(key_precedes(list[i - 1].0, list[j - 1].0));
            }
        }
        assert forall|i: int| 0 <= i < result.len() implies (#[trigger] result[i].0) == k || exists|j: int|
            0 <= j < list.len() && list[j].0 == result[i].0 by {
            if i > 0 {
                assert(list[i - 1].0 == result[i].0);
            }
        }
    } else {
        let rest = list.drop_first();
        assert forall|i: int, j: int| 0 <= i < j < rest.len() implies key_precedes(
            #[trigger] rest[i].0,
            #[trigger] rest[j].0,
        ) by {
            assert(key_precedes(list[i + 1].0, list[j + 1].0));
        }
        put_keeps_order(rest, k, v);
        let tail = put(rest, k, v);
        keys_are_total(k, list[0].0);
        assert forall|i: int| 0 <= i < tail.len() implies key_precedes(list[0].0, #[trigger] tail[i].0) by {
            if tail[i].0 != k {
                let j = choose|j: int| 0 <= j < rest.len() && rest[j].0 == tail[i].0;
                assert(key_precedes(list[0].0, list[j + 1].0));
            }
        }
        assert forall|i: int, j: int| 0 <= i < j < result.len() implies key_precedes(
            #[trigger] result[i].0,
            #[trigger] result[j].0,
        ) by {
            if i == 0 {
                assert(key_precedes(list[0].0, tail[j - 1].0));
            } else {
                assert(key_precedes(tail[i - 1].0, tail[j - 1].0));
            }
        }
        assert forall|i: int| 0 <= i < result.len() implies (#[trigger] result[i].0) == k || exists|j: int|
            0 <= j < list.len() && list[j].0 == result[i].0 by {
            if i == 0 {
                assert(list[0].0 == result[0].0);
            } else if tail[i - 1].0 != k {
                let j = choose|j: int| 0 <= j < rest.len() && rest[j].0 == tail[i - 1].0;
                assert(list[j + 1].0 == result[i].0);
            }
        }
    }
}

/// What is stored under a key is found under it, and nothing else changes.
pub proof fn put_is_found<V>(list: Seq<(Key, V)>, k: Key, v: V, other: Key)
    ensures
        lookup(put(list, k, v), k) == Some(v),
        other != k ==> lookup(put(list, k, v), other) == lookup(list, other),
    decreases list.len(),
{
    let result = put(list, k, v);
    if list.len() == 0 {
        assert(result.drop_first() =~= list);
    } else if k == list[0].0 {
        assert(result.drop_first() =~= list.drop_first());
    } else if key_precedes(k, list[0].0) {
        assert(result.drop_first() =~= list);
    } else {
        put_is_found(list.drop_first(), k, v, other);
        assert(result.drop_first() =~= put(list.drop_first(), k, v));
    }
}

/// Storing a pair leaves alone what comes before its place.
proof fn put_splits<V>(list: Seq<(Key, V)>, k: Key, v: V, i: int)
    requires
        0 <= i <= list.len(),
        forall|j: int| 0 <= j < i ==> k != (#[trigger] list[j]).0 && !key_precedes(k, list[j].0),
    ensures
        put(list, k, v) == list.take(i) + put(list.skip(i), k, v),
    decreases i,
{
    if i == 0 {
        assert(list.skip(0) =~= list);
        assert(put(list, k, v) =~= list.take(0) + put(list.skip(0), k, v));
    } else {
        let rest = list.drop_first();
        assert forall|j: int| 0 <= j < i - 1 implies k != (#[trigger] rest[j]).0 && !key_precedes(k, rest[j].0) by {
            assert(rest[j] == list[j + 1]);
        }
        put_splits(rest, k, v, i - 1);
        assert(rest.skip(i - 1) =~= list.skip(i));
        assert(k != list[0].0 && !key_precedes(k, list[0].0));
        assert(put(list, k, v) =~= list.take(i) + put(list.skip(i), k, v));
    }
}


/// The texts of a key.
#[derive(Clone, Copy)]
struct Texts<'a> {
    name: &'a str,
    version: &'a str,
    source: &'a str,
}

impl<'a> Texts<'a> {
    spec fn key(self) -> Key {
        Key { name: self.name@, version: self.version@, source: self.source@ }
    }
}

fn same_key(a: Texts, b: Texts) -> (same: bool)
    ensures
        same == (a.key() == b.key()),
{
    same_text(a.name, b.name) && same_text(a.version, b.version) && same_text(a.source, b.source)
}

fn less_key(a: Texts, b: Texts) -> (less: bool)
    ensures
        less == key_precedes(a.key(), b.key()),
{
    if !same_text(a.name, b.name) {
        less_text(a.name, b.name)
    } else if !same_text(a.version, b.version) {
        less_text(a.version, b.version)
    } else {
        less_text(a.source, b.source)
    }
}

/// The source of a package, empty for one of the workspace.
pub open spec fn source_of(p: MetadataPackage) -> Seq<char> {
    match p.source {
        Some(s) => s@,
        None => Seq::empty(),
    }
}

/// The license that a package declares.
pub open spec fn license_of(p: MetadataPackage) -> Seq<char> {
    match p.license {
        Some(s) => s@,
        None => "NOASSERTION"@,
    }
}

/// The key of a package.
pub open spec fn package_key(p: MetadataPackage) -> Key {
    Key { name: p.name@, version: p.version@, source: source_of(p) }
}

/// The licenses of packages under their keys.
pub open spec fn keyed_packages(list: Seq<MetadataPackage>) -> Seq<(Key, Seq<char>)> {
    list.map_values(|p: MetadataPackage| (package_key(p), license_of(p)))
}

/// The licenses of packages behind references, under their keys.
pub open spec fn keyed_refs(list: Seq<&MetadataPackage>) -> Seq<(Key, Seq<char>)> {
    list.map_values(|p: &MetadataPackage| (package_key(*p), license_of(*p)))
}

/// The packages, each key once with the license that came last.
pub open spec fn unique_packages(list: Seq<MetadataPackage>) -> Seq<(Key, Seq<char>)> {
    put_all(Seq::empty(), keyed_packages(list))
}

fn package_texts<'a>(p: &'a MetadataPackage) -> (texts: Texts<'a>)
    ensures
        texts.key() == package_key(*p),
{
    let source: &'a str = match &p.source {
        Some(s) => s.as_str(),
        None => {
            proof {
                reveal_strlit("");
                assert(""@ =~= Seq::<char>::empty());
            }
            ""
        },
    };
    Texts { name: p.name.as_str(), version: p.version.as_str(), source }
}

fn place<'a>(list: &mut Vec<&'a MetadataPackage>, p: &'a MetadataPackage)
    ensures
        keyed_refs(final(list)@) == put(keyed_refs(old(list)@), package_key(*p), license_of(*p)),
{
    let ghost before = keyed_refs(list@);
    let ghost k = package_key(*p);
    let ghost v = license_of(*p);
    let key = package_texts(p);
    let mut i: usize = 0;
    while i < list.len()
        invariant
            i <= list@.len(),
            list@ == old(list)@,
            before == keyed_refs(list@),
            key.key() == k,
            k == package_key(*p),
            v == license_of(*p),
            forall|j: int|
                0 <= j < i ==> k != (#[trigger] before[j]).0 && !key_precedes(k, before[j].0),
        decreases list.len() - i,
    {
        let other = package_texts(list[i]);
        proof {
            put_splits(before, k, v, i as int);
            assert(before.skip(i as int)[0] == before[i as int]);
        }
        if same_key(key, other) {
            list.set(i, p);
            assert(keyed_refs(list@) =~= put(before, k, v));
            return;
        }
        if less_key(key, other) {
            list.insert(i, p);
            assert(keyed_refs(list@) =~= put(before, k, v));
            return;
        }
        i += 1;
    }
    proof {
        put_splits(before, k, v, i as int);
    }
    list.push(p);
    assert(keyed_refs(list@) =~= put(before, k, v));
}

fn collect_packages<'a>(packages: &'a [MetadataPackage]) -> (list: Vec<&'a MetadataPackage>)
    ensures
        keyed_refs(list@) == unique_packages(packages@),
{
    let mut list: Vec<&'a MetadataPackage> = Vec::new();
    let mut i: usize = 0;
    assert(keyed_packages(packages@.take(0)) =~= Seq::empty());
    assert(keyed_refs(list@) =~= Seq::empty());
    while i < packages.len()
        invariant
            i <= packages@.len(),
            keyed_refs(list@) == put_all(Seq::empty(), keyed_packages(packages@.take(i as int))),
        decreases packages.len() - i,
    {
        place(&mut list, &packages[i]);
        i += 1;
        proof {
            let now = keyed_packages(packages@.take(i as int));
            assert(now.drop_last() =~= keyed_packages(packages@.take(i - 1)));
            assert(now.last() == (package_key(packages@[i - 1]), license_of(packages@[i - 1])));
        }
    }
    assert(packages@.take(i as int) =~= packages@);
    list
}

/// The key of a locked package.
pub open spec fn locked_key(p: LockedPackage) -> Key {
    Key { name: p.name@, version: p.version@, source: p.source@ }
}

/// The checksums of the locked packages that have one, under their keys.
pub open spec fn keyed_locks(list: Seq<LockedPackage>) -> Seq<(Key, Seq<char>)>
    decreases list.len(),
{
    if list.len() == 0 {
        Seq::empty()
    } else {
        match list.last().checksum {
            Some(c) => keyed_locks(list.drop_last()).push((locked_key(list.last()), c@)),
            None => keyed_locks(list.drop_last()),
        }
    }
}

/// Checksums under their keys.
pub open spec fn keyed_checksums(list: Seq<Checksum>) -> Seq<(Key, Seq<char>)> {
    list.map_values(
        |c: Checksum| (Key { name: c.name@, version: c.version@, source: c.source@ }, c.checksum@),
    )
}

/// The checksums of the locked packages: each key once, with the checksum that
/// came last.
pub open spec fn locked_checksums(list: Seq<LockedPackage>) -> Seq<(Key, Seq<char>)> {
    put_all(Seq::empty(), keyed_locks(list))
}

fn checksum_texts<'a>(c: &'a Checksum) -> (texts: Texts<'a>)
    ensures
        texts.key() == (Key { name: c.name@, version: c.version@, source: c.source@ }),
{
    Texts { name: c.name.as_str(), version: c.version.as_str(), source: c.source.as_str() }
}

fn place_checksum(list: &mut Vec<Checksum>, c: Checksum)
    ensures
        keyed_checksums(final(list)@) == put(
            keyed_checksums(old(list)@),
            (Key { name: c.name@, version: c.version@, source: c.source@ }),
            c.checksum@,
        ),
{
    let ghost before = keyed_checksums(list@);
    let ghost k = Key { name: c.name@, version: c.version@, source: c.source@ };
    let ghost v = c.checksum@;
    let mut i: usize = 0;
    while i < list.len()
        invariant
            i <= list@.len(),
            list@ == old(list)@,
            before == keyed_checksums(list@),
            k == (Key { name: c.name@, version: c.version@, source: c.source@ }),
            v == c.checksum@,
            forall|j: int|
                0 <= j < i ==> k != (#[trigger] before[j]).0 && !key_precedes(k, before[j].0),
        decreases list.len() - i,
    {
        proof {
            put_splits(before, k, v, i as int);
            assert(before.skip(i as int)[0] == before[i as int]);
        }
        let key = checksum_texts(&c);
        let other = checksum_texts(&list[i]);
        let found = same_key(key, other);
        let less = less_key(key, other);
        if found {
            list.set(i, c);
            assert(keyed_checksums(list@) =~= put(before, k, v));
            return;
        }
        if less {
            list.insert(i, c);
            assert(keyed_checksums(list@) =~= put(before, k, v));
            return;
        }
        i += 1;
    }
    proof {
        put_splits(before, k, v, i as int);
    }
    list.push(c);
    assert(keyed_checksums(list@) =~= put(before, k, v));
}

/// The checksums of the locked packages that have one, under the name, the version
/// and the source: each key once, in order, with the checksum that came last.
pub fn lock_checksums(packages: &[LockedPackage]) -> (list: Vec<Checksum>)
    ensures
        keyed_checksums(list@) == locked_checksums(packages@),
{
    let mut list: Vec<Checksum> = Vec::new();
    let mut i: usize = 0;
    assert(keyed_checksums(list@) =~= Seq::empty());
    assert(packages@.take(0) =~= Seq::empty());
    while i < packages.len()
        invariant
            i <= packages@.len(),
            keyed_checksums(list@) == locked_checksums(packages@.take(i as int)),
        decreases packages.len() - i,
    {
        let p = &packages[i];
        proof {
            let now = packages@.take(i + 1);
            assert(now.drop_last() =~= packages@.take(i as int));
            assert(now.last() == *p);
            if p.checksum is Some {
                let keyed = keyed_locks(now);
                assert(keyed.drop_last() =~= keyed_locks(now.drop_last()));
            }
        }
        match &p.checksum {
            Some(checksum) => {
                let c = Checksum {
                    name: copied(&p.name),
                    version: copied(&p.version),
                    source: copied(&p.source),
                    checksum: copied(checksum),
                };
                place_checksum(&mut list, c);
            },
            None => {},
        }
        i += 1;
    }
    assert(packages@.take(i as int) =~= packages@);
    list
}

fn find_checksum<'a>(list: &'a [Checksum], key: Texts) -> (found: Option<&'a str>)
    ensures
        match (found, lookup(keyed_checksums(list@), key.key())) {
            (Some(c), Some(v)) => c@ == v,
            (None, None) => true,
            _ => false,
        },
{
    let ghost all = keyed_checksums(list@);
    let mut i: usize = 0;
    assert(all.skip(0) =~= all);
    while i < list.len()
        invariant
            i <= list@.len(),
            all == keyed_checksums(list@),
            lookup(all, key.key()) == lookup(all.skip(i as int), key.key()),
        decreases list.len() - i,
    {
        assert(all.skip(i as int)[0] == all[i as int]);
        assert(all.skip(i as int).drop_first() =~= all.skip(i + 1));
        if same_key(checksum_texts(&list[i]), key) {
            return Some(list[i].checksum.as_str());
        }
        i += 1;
    }
    None
}

/// An identifier may hold this character.
pub open spec fn is_safe(c: char) -> bool {
    ||| 'a' <= c <= 'z'
    ||| 'A' <= c <= 'Z'
    ||| '0' <= c <= '9'
    ||| c == '.'
    ||| c == '-'
}

/// The name with a hyphen for each character that an identifier may not hold.
pub open spec fn safe_name(name: Seq<char>) -> Seq<char> {
    name.map_values(
        |c: char|
            if is_safe(c) {
                c
            } else {
                '-'
            },
    )
}

/// The identifier of the package at a place in the bill of materials.
pub open spec fn identifier(name: Seq<char>, version: Seq<char>, number: nat) -> Seq<char> {
    "SPDXRef-Package-"@ + safe_name(name) + "-"@ + version + "-"@ + text::decimal(number)
}

fn push_safe(out: &mut String, name: &str)
    ensures
        final(out)@ == old(out)@ + safe_name(name@),
{
    let chars = chars_of(name);
    let mut i: usize = 0;
    while i < chars.len()
        invariant
            i <= chars@.len(),
            chars@ == name@,
            out@ == old(out)@ + safe_name(name@.take(i as int)),
        decreases chars.len() - i,
    {
        let c = chars[i];
        if ('a' <= c && c <= 'z') || ('A' <= c && c <= 'Z') || ('0' <= c && c <= '9') || c == '.'
            || c == '-' {
            push_char(out, c);
        } else {
            push_char(out, '-');
        }
        i += 1;
        assert(out@ =~= old(out)@ + safe_name(name@.take(i as int)));
    }
    assert(name@.take(i as int) =~= name@);
}

/// The identifier of a package: its name with hyphens for the characters that an
/// identifier may not hold, its version and its number.
pub fn spdx_id(name: &str, version: &str, number: usize) -> (id: String)
    ensures
        id@ == identifier(name@, version@, number as nat),
{
    let mut id = copied("SPDXRef-Package-");
    push_safe(&mut id, name);
    id.append("-");
    id.append(version);
    id.append("-");
    push_decimal(&mut id, number as u64);
    id
}

/// Packages with different numbers have different identifiers, whatever their
/// names and versions.
pub proof fn identifiers_differ(
    name: Seq<char>,
    version: Seq<char>,
    number: nat,
    other_name: Seq<char>,
    other_version: Seq<char>,
    other_number: nat,
)
    requires
        number != other_number,
    ensures
        identifier(name, version, number) != identifier(other_name, other_version, other_number),
{
    reveal_strlit("-");
    let a = identifier(name, version, number);
    let b = identifier(other_name, other_version, other_number);
    let x = text::decimal(number);
    let y = text::decimal(other_number);
    text::decimal_is_read_back(number);
    text::decimal_is_read_back(other_number);
    if a == b {
        assert(a.subrange(a.len() - x.len(), a.len() as int) =~= x);
        assert(b.subrange(b.len() - y.len(), b.len() as int) =~= y);
        assert(a[a.len() - x.len() - 1] == '-');
        assert(b[b.len() - y.len() - 1] == '-');
        if x.len() < y.len() {
            assert(y[y.len() - x.len() - 1] == b[b.len() - x.len() - 1]);
            assert(false);
        } else if y.len() < x.len() {
            assert(x[x.len() - y.len() - 1] == a[a.len() - y.len() - 1]);
            assert(false);
        }
    }
}

/// An identifier holds safe characters only, if the version does.
pub proof fn identifiers_are_safe(name: Seq<char>, version: Seq<char>, number: nat, i: int)
    requires
        forall|k: int| 0 <= k < version.len() ==> is_safe(#[trigger] version[k]),
        0 <= i < identifier(name, version, number).len(),
    ensures
        is_safe(identifier(name, version, number)[i]),
{
    reveal_strlit("-");
    reveal_strlit("SPDXRef-Package-");
    text::decimal_is_read_back(number);
    let head = "SPDXRef-Package-"@;
    let safe = safe_name(name);
    let digits = text::decimal(number);
    let id = identifier(name, version, number);
    let a = head.len() as int;
    let b = a + safe.len();
    let c = b + 1 + version.len();
    if i < a {
        assert(id[i] == head[i]);
    } else if i < b {
        assert(id[i] == safe[i - a]);
    } else if i == b {
        assert(id[i] == '-');
    } else if i < c {
        assert(id[i] == version[i - b - 1]);
    } else if i == c {
        assert(id[i] == '-');
    } else {
        assert(id[i] == digits[i - c - 1]);
    }
}

/// Where the source of a package can be had.
pub open spec fn location(source: Seq<char>) -> Seq<char> {
    if source.len() == 0 {
        "NOASSERTION"@
    } else {
        source
    }
}

/// The checksums that a package of the bill carries.
pub open spec fn checksum_tree(checksum: Seq<char>) -> Tree {
    Tree::Array(
        seq![
            Tree::Object(
                json::gathered(
                    Seq::empty().push(("algorithm"@, Tree::Text("SHA256"@))).push(
                        ("checksumValue"@, Tree::Text(checksum)),
                    ),
                ),
            ),
        ],
    )
}

/// A package of the bill of materials.
pub open spec fn package_tree(
    key: Key,
    license: Seq<char>,
    checksum: Option<Seq<char>>,
    number: nat,
) -> Tree {
    let members = Seq::empty().push(
        ("SPDXID"@, Tree::Text(identifier(key.name, key.version, number))),
    ).push(("name"@, Tree::Text(key.name))).push(("versionInfo"@, Tree::Text(key.version))).push(
        ("downloadLocation"@, Tree::Text(location(key.source))),
    ).push(("filesAnalyzed"@, Tree::Bool(false))).push(
        ("licenseConcluded"@, Tree::Text("NOASSERTION"@)),
    ).push(("licenseDeclared"@, Tree::Text(license))).push(
        ("copyrightText"@, Tree::Text("NOASSERTION"@)),
    );
    match checksum {
        None => Tree::Object(json::gathered(members)),
        Some(c) => Tree::Object(json::gathered(members.push(("checksums"@, checksum_tree(c))))),
    }
}

/// That the document describes a package.
pub open spec fn relationship_tree(id: Seq<char>) -> Tree {
    Tree::Object(
        json::gathered(
            Seq::empty().push(("spdxElementId"@, Tree::Text("SPDXRef-DOCUMENT"@))).push(
                ("relationshipType"@, Tree::Text("DESCRIBES"@)),
            ).push(("relatedSpdxElement"@, Tree::Text(id))),
        ),
    )
}

/// The packages of the bill, each under its number from 1 on.
pub open spec fn package_trees(
    list: Seq<(Key, Seq<char>)>,
    checksums: Seq<(Key, Seq<char>)>,
    n: int,
) -> Seq<Tree> {
    Seq::new(
        n as nat,
        |i: int|
            package_tree(list[i].0, list[i].1, lookup(checksums, list[i].0), (i + 1) as nat),
    )
}

/// The relationships of the bill.
pub open spec fn relationship_trees(list: Seq<(Key, Seq<char>)>, n: int) -> Seq<Tree> {
    Seq::new(
        n as nat,
        |i: int|
            relationship_tree(identifier(list[i].0.name, list[i].0.version, (i + 1) as nat)),
    )
}

/// What a notice says.
pub struct NoticeModel {
    pub name: Seq<char>,
    pub version: Seq<char>,
    pub license: Seq<char>,
    pub source: Seq<char>,
}

/// What a notice says.
pub open spec fn notice_model(n: Notice) -> NoticeModel {
    NoticeModel { name: n.name@, version: n.version@, license: n.license@, source: n.source@ }
}

/// What notices say.
pub open spec fn notice_models(list: Seq<Notice>) -> Seq<NoticeModel> {
    list.map_values(|n: Notice| notice_model(n))
}

/// The notices of the first `n` packages.
pub open spec fn notices_of(list: Seq<(Key, Seq<char>)>, n: int) -> Seq<NoticeModel> {
    Seq::new(
        n as nat,
        |i: int|
            NoticeModel {
                name: list[i].0.name,
                version: list[i].0.version,
                license: list[i].1,
                source: if list[i].0.source.len() == 0 {
                    "workspace"@
                } else {
                    list[i].0.source
                },
            },
    )
}

/// The bill of materials.
pub open spec fn document_tree(
    list: Seq<(Key, Seq<char>)>,
    checksums: Seq<(Key, Seq<char>)>,
    version: Seq<char>,
    commit: Seq<char>,
    target: Seq<char>,
    created: Seq<char>,
) -> Tree {
    let n = list.len() as int;
    let creation = Tree::Object(
        json::gathered(
            Seq::empty().push(("created"@, Tree::Text(created))).push(
                ("creators"@, Tree::Array(seq![Tree::Text("Tool: timeless-release-tool-1"@)])),
            ),
        ),
    );
    Tree::Object(
        json::gathered(
            Seq::empty().push(("spdxVersion"@, Tree::Text("SPDX-2.3"@))).push(
                ("dataLicense"@, Tree::Text("CC0-1.0"@)),
            ).push(("SPDXID"@, Tree::Text("SPDXRef-DOCUMENT"@))).push(
                ("name"@, Tree::Text("timeless-telemetry-data-plane-"@ + version + "-"@ + target)),
            ).push(
                (
                    "documentNamespace"@,
                    Tree::Text(
                        "https://timeless.dev/spdx/telemetry-data-plane/"@ + version + "/"@ + target
                            + "/"@ + commit,
                    ),
                ),
            ).push(("creationInfo"@, creation)).push(
                ("packages"@, Tree::Array(package_trees(list, checksums, n))),
            ).push(("relationships"@, Tree::Array(relationship_trees(list, n)))),
        ),
    )
}

fn package_value(
    p: &MetadataPackage,
    id: &str,
    checksum: Option<&str>,
    Ghost(number): Ghost<nat>,
) -> (value: Json)
    requires
        id@ == identifier(p.name@, p.version@, number),
    ensures
        json::tree(value) == package_tree(
            package_key(*p),
            license_of(*p),
            (match checksum {
                Some(c) => Some(c@),
                None => None,
            }),
            number,
        ),
{
    let texts = package_texts(p);
    let mut members = no_members();
    add_text(&mut members, "SPDXID", id);
    add_text(&mut members, "name", texts.name);
    add_text(&mut members, "versionInfo", texts.version);
    if texts.source.unicode_len() == 0 {
        add_text(&mut members, "downloadLocation", "NOASSERTION");
    } else {
        add_text(&mut members, "downloadLocation", texts.source);
    }
    add_member(&mut members, "filesAnalyzed", Json::Bool(false));
    add_text(&mut members, "licenseConcluded", "NOASSERTION");
    match &p.license {
        Some(license) => add_text(&mut members, "licenseDeclared", license),
        None => add_text(&mut members, "licenseDeclared", "NOASSERTION"),
    }
    add_text(&mut members, "copyrightText", "NOASSERTION");
    match checksum {
        Some(c) => {
            let mut inner = no_members();
            add_text(&mut inner, "algorithm", "SHA256");
            add_text(&mut inner, "checksumValue", c);
            let mut list: Vec<Json> = Vec::new();
            list.push(object_of(inner));
            assert(json::trees(list@) =~= seq![json::tree(list@[0])]);
            add_member(&mut members, "checksums", array_of(list));
        },
        None => {},
    }
    object_of(members)
}

fn relationship_value(id: &str) -> (value: Json)
    ensures
        json::tree(value) == relationship_tree(id@),
{
    let mut members = no_members();
    add_text(&mut members, "spdxElementId", "SPDXRef-DOCUMENT");
    add_text(&mut members, "relationshipType", "DESCRIBES");
    add_text(&mut members, "relatedSpdxElement", id);
    object_of(members)
}

fn notice_value(p: &MetadataPackage) -> (notice: Notice)
    ensures
        notice_model(notice) == (NoticeModel {
            name: p.name@,
            version: p.version@,
            license: license_of(*p),
            source: (if source_of(*p).len() == 0 {
                "workspace"@
            } else {
                source_of(*p)
            }),
        }),
{
    let texts = package_texts(p);
    let license = match &p.license {
        Some(l) => copied(l),
        None => copied("NOASSERTION"),
    };
    let source = if texts.source.unicode_len() == 0 {
        copied("workspace")
    } else {
        copied(texts.source)
    };
    Notice { name: copied(texts.name), version: copied(texts.version), license, source }
}

fn document_value(
    packages: Vec<Json>,
    relationships: Vec<Json>,
    version: &str,
    commit: &str,
    target: &str,
    created: &str,
    Ghost(list): Ghost<Seq<(Key, Seq<char>)>>,
    Ghost(checksums): Ghost<Seq<(Key, Seq<char>)>>,
) -> (document: Json)
    requires
        json::trees(packages@) == package_trees(list, checksums, list.len() as int),
        json::trees(relationships@) == relationship_trees(list, list.len() as int),
    ensures
        json::tree(document) == document_tree(
            list,
            checksums,
            version@,
            commit@,
            target@,
            created@,
        ),
{
    let mut name = copied("timeless-telemetry-data-plane-");
    name.append(version);
    name.append("-");
    name.append(target);
    let mut namespace = copied("https://timeless.dev/spdx/telemetry-data-plane/");
    namespace.append(version);
    namespace.append("/");
    namespace.append(target);
    namespace.append("/");
    namespace.append(commit);
    let mut creators: Vec<Json> = Vec::new();
    creators.push(Json::Text(copied("Tool: timeless-release-tool-1")));
    assert(json::trees(creators@) =~= seq![json::tree(creators@[0])]);
    let mut creation = no_members();
    add_text(&mut creation, "created", created);
    add_member(&mut creation, "creators", array_of(creators));
    let mut members = no_members();
    add_text(&mut members, "spdxVersion", "SPDX-2.3");
    add_text(&mut members, "dataLicense", "CC0-1.0");
    add_text(&mut members, "SPDXID", "SPDXRef-DOCUMENT");
    add_text(&mut members, "name", &name);
    add_text(&mut members, "documentNamespace", &namespace);
    add_member(&mut members, "creationInfo", object_of(creation));
    add_member(&mut members, "packages", array_of(packages));
    add_member(&mut members, "relationships", array_of(relationships));
    object_of(members)
}

/// The bill of materials and the notices of a release, from the packages of all
/// workspaces and their locked packages: each package once, by name, version and
/// source.
pub fn make(
    packages: &[MetadataPackage],
    locked: &[LockedPackage],
    version: &str,
    commit: &str,
    target: &str,
    created: &str,
) -> (bill: (Json, Vec<Notice>))
    ensures
        json::tree(bill.0) == document_tree(
            unique_packages(packages@),
            locked_checksums(locked@),
            version@,
            commit@,
            target@,
            created@,
        ),
        notice_models(bill.1@) == notices_of(
            unique_packages(packages@),
            unique_packages(packages@).len() as int,
        ),
{
    let list = collect_packages(packages);
    let checksums = lock_checksums(locked);
    let ghost all = keyed_refs(list@);
    let ghost sums = keyed_checksums(checksums@);
    let mut values: Vec<Json> = Vec::new();
    let mut relationships: Vec<Json> = Vec::new();
    let mut notices: Vec<Notice> = Vec::new();
    let mut i: usize = 0;
    assert(json::trees(values@) =~= package_trees(all, sums, 0));
    assert(json::trees(relationships@) =~= relationship_trees(all, 0));
    assert(notice_models(notices@) =~= notices_of(all, 0));
    while i < list.len()
        invariant
            i <= list@.len(),
            all == keyed_refs(list@),
            sums == keyed_checksums(checksums@),
            json::trees(values@) == package_trees(all, sums, i as int),
            json::trees(relationships@) == relationship_trees(all, i as int),
            notice_models(notices@) == notices_of(all, i as int),
        decreases list.len() - i,
    {
        let p: &MetadataPackage = list[i];
        assert(all[i as int] == (package_key(*p), license_of(*p)));
        let id = spdx_id(&p.name, &p.version, i + 1);
        let checksum = find_checksum(&checksums, package_texts(p));
        let value = package_value(p, &id, checksum, Ghost((i + 1) as nat));
        let relationship = relationship_value(&id);
        let ghost before = values@;
        let ghost earlier = relationships@;
        values.push(value);
        relationships.push(relationship);
        let notice = notice_value(p);
        let ghost noted = notices@;
        notices.push(notice);
        i += 1;
        proof {
            assert(notice_models(notices@) =~= notice_models(noted).push(notice_model(notice)));
            assert(notices_of(all, i as int) =~= notices_of(all, i - 1).push(
                notice_model(notice),
            ));
            assert(json::trees(values@) =~= json::trees(before).push(json::tree(value)));
            assert(package_trees(all, sums, i as int) =~= package_trees(all, sums, i - 1).push(
                json::tree(value),
            ));
            assert(json::trees(relationships@) =~= json::trees(earlier).push(
                json::tree(relationship),
            ));
            assert(relationship_trees(all, i as int) =~= relationship_trees(all, i - 1).push(
                json::tree(relationship),
            ));
        }
    }
    let document = document_value(
        values,
        relationships,
        version,
        commit,
        target,
        created,
        Ghost(all),
        Ghost(sums),
    );
    (document, notices)
}

proof fn package_is_well_formed(
    key: Key,
    license: Seq<char>,
    checksum: Option<Seq<char>>,
    number: nat,
)
    ensures
        json::well_formed(package_tree(key, license, checksum, number)),
{
    let members = Seq::empty().push(
        ("SPDXID"@, Tree::Text(identifier(key.name, key.version, number))),
    ).push(("name"@, Tree::Text(key.name))).push(("versionInfo"@, Tree::Text(key.version))).push(
        ("downloadLocation"@, Tree::Text(location(key.source))),
    ).push(("filesAnalyzed"@, Tree::Bool(false))).push(
        ("licenseConcluded"@, Tree::Text("NOASSERTION"@)),
    ).push(("licenseDeclared"@, Tree::Text(license))).push(
        ("copyrightText"@, Tree::Text("NOASSERTION"@)),
    );
    json::gathered_is_well_formed(members);
    if checksum is Some {
        json::gathered_is_well_formed(
            Seq::empty().push(("algorithm"@, Tree::Text("SHA256"@))).push(
                ("checksumValue"@, Tree::Text(checksum.unwrap())),
            ),
        );
        json::gathered_is_well_formed(
            members.push(("checksums"@, checksum_tree(checksum.unwrap()))),
        );
    }
}

/// The bill of materials is well formed.
pub proof fn document_is_well_formed(
    list: Seq<(Key, Seq<char>)>,
    checksums: Seq<(Key, Seq<char>)>,
    version: Seq<char>,
    commit: Seq<char>,
    target: Seq<char>,
    created: Seq<char>,
)
    ensures
        json::well_formed(document_tree(list, checksums, version, commit, target, created)),
{
    let n = list.len() as int;
    let packages = package_trees(list, checksums, n);
    assert forall|i: int| 0 <= i < packages.len() implies json::well_formed(
        #[trigger] packages[i],
    ) by {
        package_is_well_formed(
            list[i].0,
            list[i].1,
            lookup(checksums, list[i].0),
            (i + 1) as nat,
        );
    }
    let relationships = relationship_trees(list, n);
    assert forall|i: int| 0 <= i < relationships.len() implies json::well_formed(
        #[trigger] relationships[i],
    ) by {
        json::gathered_is_well_formed(
            Seq::empty().push(("spdxElementId"@, Tree::Text("SPDXRef-DOCUMENT"@))).push(
                ("relationshipType"@, Tree::Text("DESCRIBES"@)),
            ).push(
                (
                    "relatedSpdxElement"@,
                    Tree::Text(identifier(list[i].0.name, list[i].0.version, (i + 1) as nat)),
                ),
            ),
        );
    }
    let creators = Tree::Array(seq![Tree::Text("Tool: timeless-release-tool-1"@)]);
    let created_by = Seq::empty().push(("created"@, Tree::Text(created))).push(
        ("creators"@, creators),
    );
    assert(json::well_formed(creators)) by {
        reveal_with_fuel(json::well_formed, 2);
    }
    json::gathered_is_well_formed(created_by);
    json::gathered_is_well_formed(
        Seq::empty().push(("spdxVersion"@, Tree::Text("SPDX-2.3"@))).push(
            ("dataLicense"@, Tree::Text("CC0-1.0"@)),
        ).push(("SPDXID"@, Tree::Text("SPDXRef-DOCUMENT"@))).push(
            ("name"@, Tree::Text("timeless-telemetry-data-plane-"@ + version + "-"@ + target)),
        ).push(
            (
                "documentNamespace"@,
                Tree::Text(
                    "https://timeless.dev/spdx/telemetry-data-plane/"@ + version + "/"@ + target
                        + "/"@ + commit,
                ),
            ),
        ).push(("creationInfo"@, Tree::Object(json::gathered(created_by)))).push(
            ("packages"@, Tree::Array(packages)),
        ).push(("relationships"@, Tree::Array(relationships))),
    );
}

/// Every package of the workspaces stands in the bill exactly once, and in order:
/// the keys ascend, and a key is in the bill if and only if a package has it.
pub proof fn packages_stand_once(packages: Seq<MetadataPackage>, k: Key)
    ensures
        ordered(unique_packages(packages)),
        lookup(unique_packages(packages), k) is Some <==> exists|i: int|
            0 <= i < packages.len() && package_key(#[trigger] packages[i]) == k,
    decreases packages.len(),
{
    let pairs = keyed_packages(packages);
    if packages.len() == 0 {
        assert(pairs =~= Seq::empty());
    } else {
        let before = packages.drop_last();
        packages_stand_once(before, k);
        assert(pairs.drop_last() =~= keyed_packages(before));
        let list = unique_packages(before);
        let last = pairs.last();
        put_keeps_order(list, last.0, last.1);
        put_is_found(list, last.0, last.1, k);
        if k == last.0 {
            assert(package_key(packages[packages.len() - 1]) == k);
        } else {
            if lookup(list, k) is Some {
                let i = choose|i: int|
                    0 <= i < before.len() && package_key(#[trigger] before[i]) == k;
                assert(package_key(packages[i]) == k);
            }
            if exists|i: int| 0 <= i < packages.len() && package_key(#[trigger] packages[i]) == k {
                let i = choose|i: int|
                    0 <= i < packages.len() && package_key(#[trigger] packages[i]) == k;
                assert(i < before.len());
                assert(package_key(before[i]) == k);
            }
        }
    }
}

} // verus!
