//! What holds of every bill of materials.
use crate::json::{self, Tree};
use crate::order;
use crate::sbom::{self, Key, LockedPackage, MetadataPackage};
use crate::text;
use vstd::prelude::*;

verus! {

/// The text that stands under a key.
pub open spec fn has_text(t: Tree, key: Seq<char>, value: Seq<char>) -> bool {
    json::tree_member(t, key) == Some(Tree::Text(value))
}

proof fn keys_differ()
    ensures
        "SPDXID"@ != "name"@,
        "SPDXID"@ != "versionInfo"@,
        "SPDXID"@ != "downloadLocation"@,
        "SPDXID"@ != "filesAnalyzed"@,
        "SPDXID"@ != "licenseConcluded"@,
        "SPDXID"@ != "licenseDeclared"@,
        "SPDXID"@ != "copyrightText"@,
        "SPDXID"@ != "checksums"@,
        "name"@ != "versionInfo"@,
        "name"@ != "downloadLocation"@,
        "name"@ != "filesAnalyzed"@,
        "name"@ != "licenseConcluded"@,
        "name"@ != "licenseDeclared"@,
        "name"@ != "copyrightText"@,
        "name"@ != "checksums"@,
        "versionInfo"@ != "downloadLocation"@,
        "versionInfo"@ != "filesAnalyzed"@,
        "versionInfo"@ != "licenseConcluded"@,
        "versionInfo"@ != "licenseDeclared"@,
        "versionInfo"@ != "copyrightText"@,
        "versionInfo"@ != "checksums"@,
        "downloadLocation"@ != "filesAnalyzed"@,
        "downloadLocation"@ != "licenseConcluded"@,
        "downloadLocation"@ != "licenseDeclared"@,
        "downloadLocation"@ != "copyrightText"@,
        "downloadLocation"@ != "checksums"@,
        "filesAnalyzed"@ != "licenseConcluded"@,
        "filesAnalyzed"@ != "licenseDeclared"@,
        "filesAnalyzed"@ != "copyrightText"@,
        "filesAnalyzed"@ != "checksums"@,
        "licenseConcluded"@ != "licenseDeclared"@,
        "licenseConcluded"@ != "copyrightText"@,
        "licenseConcluded"@ != "checksums"@,
        "licenseDeclared"@ != "copyrightText"@,
        "licenseDeclared"@ != "checksums"@,
        "copyrightText"@ != "checksums"@,
        "algorithm"@ != "checksumValue"@,
        "spdxElementId"@ != "relationshipType"@,
        "spdxElementId"@ != "relatedSpdxElement"@,
        "relationshipType"@ != "relatedSpdxElement"@,
{
    reveal_strlit("SPDXID");
    assert("SPDXID"@.len() == 6 && "SPDXID"@[0] == 'S');
    reveal_strlit("name");
    assert("name"@.len() == 4 && "name"@[0] == 'n');
    reveal_strlit("versionInfo");
    assert("versionInfo"@.len() == 11 && "versionInfo"@[0] == 'v');
    reveal_strlit("downloadLocation");
    assert("downloadLocation"@.len() == 16 && "downloadLocation"@[0] == 'd');
    reveal_strlit("filesAnalyzed");
    assert("filesAnalyzed"@.len() == 13 && "filesAnalyzed"@[0] == 'f');
    reveal_strlit("licenseConcluded");
    assert("licenseConcluded"@.len() == 16 && "licenseConcluded"@[0] == 'l');
    reveal_strlit("licenseDeclared");
    assert("licenseDeclared"@.len() == 15 && "licenseDeclared"@[0] == 'l');
    reveal_strlit("copyrightText");
    assert("copyrightText"@.len() == 13 && "copyrightText"@[0] == 'c');
    reveal_strlit("checksums");
    assert("checksums"@.len() == 9 && "checksums"@[0] == 'c');
    reveal_strlit("algorithm");
    assert("algorithm"@.len() == 9 && "algorithm"@[0] == 'a');
    reveal_strlit("checksumValue");
    assert("checksumValue"@.len() == 13 && "checksumValue"@[0] == 'c');
    reveal_strlit("spdxElementId");
    assert("spdxElementId"@.len() == 13 && "spdxElementId"@[0] == 's');
    reveal_strlit("relationshipType");
    assert("relationshipType"@.len() == 16 && "relationshipType"@[0] == 'r');
    reveal_strlit("relatedSpdxElement");
    assert("relatedSpdxElement"@.len() == 18 && "relatedSpdxElement"@[0] == 'r');
}

/// What a package of the bill says: under the name its name, under the version its
/// version, and so on for the source, the license and the checksum.
pub proof fn packages_are_described(
    key: Key,
    license: Seq<char>,
    checksum: Option<Seq<char>>,
    number: nat,
)
    ensures
        ({
            let t = sbom::package_tree(key, license, checksum, number);
            &&& has_text(t, "name"@, key.name)
            &&& has_text(t, "versionInfo"@, key.version)
            &&& has_text(t, "licenseDeclared"@, license)
            &&& key.source.len() > 0 ==> has_text(t, "downloadLocation"@, key.source)
            &&& key.source.len() == 0 ==> has_text(t, "downloadLocation"@, "NOASSERTION"@)
            &&& has_text(t, "licenseConcluded"@, "NOASSERTION"@)
            &&& has_text(t, "copyrightText"@, "NOASSERTION"@)
            &&& json::tree_member(t, "filesAnalyzed"@) == Some(Tree::Bool(false))
            &&& json::tree_member(t, "SPDXID"@) matches Some(Tree::Text(id)) && id
                == sbom::identifier(key.name, key.version, number)
            &&& checksum is None ==> json::tree_member(t, "checksums"@) is None
            &&& checksum matches Some(c) ==> json::tree_member(t, "checksums"@) matches Some(
                Tree::Array(list),
            ) && list.len() == 1 && has_text(list[0], "algorithm"@, "SHA256"@) && has_text(
                list[0],
                "checksumValue"@,
                c,
            )
        }),
{
    keys_differ();
    assert forall|members: Seq<(Seq<char>, Tree)>, member: (Seq<char>, Tree), k: Seq<char>|
        #[trigger] order::lookup(json::gathered(members.push(member)), k) == (if member.0 == k {
            Some(member.1)
        } else {
            order::lookup(json::gathered(members), k)
        }) by {
        json::gathered_member_is_added(members, member, k);
    }
    json::nothing_is_gathered("checksums"@);
}

/// Packages that differ in the version say so, whatever else they have.
pub proof fn other_versions_are_told_apart(
    key: Key,
    license: Seq<char>,
    checksum: Option<Seq<char>>,
    number: nat,
    other: Key,
    other_license: Seq<char>,
    other_checksum: Option<Seq<char>>,
    other_number: nat,
)
    ensures
        key.version != other.version ==> json::tree_member(
            sbom::package_tree(key, license, checksum, number),
            "versionInfo"@,
        ) != json::tree_member(
            sbom::package_tree(other, other_license, other_checksum, other_number),
            "versionInfo"@,
        ),
        key.name != other.name ==> json::tree_member(
            sbom::package_tree(key, license, checksum, number),
            "name"@,
        ) != json::tree_member(
            sbom::package_tree(other, other_license, other_checksum, other_number),
            "name"@,
        ),
{
    packages_are_described(key, license, checksum, number);
    packages_are_described(other, other_license, other_checksum, other_number);
}

/// The identifier of a package begins with the prefix of all packages, holds the name
/// with hyphens for what may not stand there, and ends in the version and the number.
pub proof fn identifiers_are_made_of_their_parts(name: Seq<char>, version: Seq<char>, number: nat)
    ensures
        ({
            let id = sbom::identifier(name, version, number);
            let head = "SPDXRef-Package-"@.len() as int;
            &&& text::begins_with(id, "SPDXRef-Package-"@)
            &&& text::ends_in(id, "-"@ + version + "-"@ + text::decimal(number))
            &&& id.len() == head + name.len() + ("-"@ + version + "-"@ + text::decimal(
                number,
            )).len()
            &&& forall|i: int|
                0 <= i < name.len() ==> #[trigger] id[head + i] == (if ('a' <= name[i] <= 'z') || (
                'A' <= name[i] <= 'Z') || ('0' <= name[i] <= '9') || name[i] == '.' || name[i]
                    == '-' {
                    name[i]
                } else {
                    '-'
                })
        }),
{
    let id = sbom::identifier(name, version, number);
    let head = "SPDXRef-Package-"@;
    let end = "-"@ + version + "-"@ + text::decimal(number);
    assert(id =~= head + sbom::safe_name(name) + end);
    assert(id.subrange(0, head.len() as int) =~= head);
    assert(id.subrange(id.len() - end.len(), id.len() as int) =~= end);
}

/// A relationship says that the document describes the package of an identifier.
pub proof fn relationships_name_their_package(id: Seq<char>)
    ensures
        ({
            let t = sbom::relationship_tree(id);
            &&& has_text(t, "relatedSpdxElement"@, id)
            &&& has_text(t, "spdxElementId"@, "SPDXRef-DOCUMENT"@)
            &&& has_text(t, "relationshipType"@, "DESCRIBES"@)
        }),
{
    keys_differ();
    assert forall|members: Seq<(Seq<char>, Tree)>, member: (Seq<char>, Tree), k: Seq<char>|
        #[trigger] order::lookup(json::gathered(members.push(member)), k) == (if member.0 == k {
            Some(member.1)
        } else {
            order::lookup(json::gathered(members), k)
        }) by {
        json::gathered_member_is_added(members, member, k);
    }
}

proof fn document_keys_differ()
    ensures
        "spdxVersion"@ != "dataLicense"@,
        "spdxVersion"@ != "SPDXID"@,
        "spdxVersion"@ != "name"@,
        "spdxVersion"@ != "documentNamespace"@,
        "spdxVersion"@ != "creationInfo"@,
        "spdxVersion"@ != "packages"@,
        "spdxVersion"@ != "relationships"@,
        "dataLicense"@ != "SPDXID"@,
        "dataLicense"@ != "name"@,
        "dataLicense"@ != "documentNamespace"@,
        "dataLicense"@ != "creationInfo"@,
        "dataLicense"@ != "packages"@,
        "dataLicense"@ != "relationships"@,
        "SPDXID"@ != "name"@,
        "SPDXID"@ != "documentNamespace"@,
        "SPDXID"@ != "creationInfo"@,
        "SPDXID"@ != "packages"@,
        "SPDXID"@ != "relationships"@,
        "name"@ != "documentNamespace"@,
        "name"@ != "creationInfo"@,
        "name"@ != "packages"@,
        "name"@ != "relationships"@,
        "documentNamespace"@ != "creationInfo"@,
        "documentNamespace"@ != "packages"@,
        "documentNamespace"@ != "relationships"@,
        "creationInfo"@ != "packages"@,
        "creationInfo"@ != "relationships"@,
        "packages"@ != "relationships"@,
        "created"@ != "creators"@,
{
    reveal_strlit("spdxVersion");
    assert("spdxVersion"@.len() == 11 && "spdxVersion"@[0] == 's');
    reveal_strlit("dataLicense");
    assert("dataLicense"@.len() == 11 && "dataLicense"@[0] == 'd');
    reveal_strlit("SPDXID");
    assert("SPDXID"@.len() == 6 && "SPDXID"@[0] == 'S');
    reveal_strlit("name");
    assert("name"@.len() == 4 && "name"@[0] == 'n');
    reveal_strlit("documentNamespace");
    assert("documentNamespace"@.len() == 17 && "documentNamespace"@[0] == 'd');
    reveal_strlit("creationInfo");
    assert("creationInfo"@.len() == 12 && "creationInfo"@[0] == 'c');
    reveal_strlit("packages");
    assert("packages"@.len() == 8 && "packages"@[0] == 'p');
    reveal_strlit("relationships");
    assert("relationships"@.len() == 13 && "relationships"@[0] == 'r');
    reveal_strlit("created");
    assert("created"@.len() == 7 && "created"@[0] == 'c');
    reveal_strlit("creators");
    assert("creators"@.len() == 8 && "creators"@[0] == 'c');
}

/// What the bill says of itself, and how many packages and relationships it has.
pub proof fn documents_are_described(
    list: Seq<(Key, Seq<char>)>,
    checksums: Seq<(Key, Seq<char>)>,
    version: Seq<char>,
    commit: Seq<char>,
    target: Seq<char>,
    created: Seq<char>,
)
    ensures
        ({
            let t = sbom::document_tree(list, checksums, version, commit, target, created);
            &&& has_text(t, "spdxVersion"@, "SPDX-2.3"@)
            &&& has_text(t, "dataLicense"@, "CC0-1.0"@)
            &&& has_text(t, "SPDXID"@, "SPDXRef-DOCUMENT"@)
            &&& has_text(
                t,
                "name"@,
                "timeless-telemetry-data-plane-"@ + version + "-"@ + target,
            )
            &&& has_text(
                t,
                "documentNamespace"@,
                "https://timeless.dev/spdx/telemetry-data-plane/"@ + version + "/"@ + target + "/"@
                    + commit,
            )
            &&& json::tree_member(t, "creationInfo"@) matches Some(info) && has_text(
                info,
                "created"@,
                created,
            ) && json::tree_member(info, "creators"@) == Some(
                Tree::Array(seq![Tree::Text("Tool: timeless-release-tool-1"@)]),
            )
            &&& json::tree_member(t, "packages"@) matches Some(Tree::Array(packages))
                && packages.len() == list.len()
            &&& json::tree_member(t, "relationships"@) matches Some(Tree::Array(relationships))
                && relationships.len() == list.len()
        }),
{
    document_keys_differ();
    assert forall|members: Seq<(Seq<char>, Tree)>, member: (Seq<char>, Tree), k: Seq<char>|
        #[trigger] order::lookup(json::gathered(members.push(member)), k) == (if member.0 == k {
            Some(member.1)
        } else {
            order::lookup(json::gathered(members), k)
        }) by {
        json::gathered_member_is_added(members, member, k);
    }
}

/// The place of the bill of materials where the package of a key stands.
proof fn keys_have_a_place(list: Seq<(Key, Seq<char>)>, k: Key) -> (at: int)
    requires
        sbom::lookup(list, k) is Some,
    ensures
        0 <= at < list.len(),
        list[at].0 == k,
        sbom::lookup(list, k) == Some(list[at].1),
    decreases list.len(),
{
    if list[0].0 == k {
        0
    } else {
        1 + keys_have_a_place(list.drop_first(), k)
    }
}

/// The license of a key in the bill is that of the last package with the key.
pub proof fn the_last_license_counts(packages: Seq<MetadataPackage>, i: int)
    requires
        0 <= i < packages.len(),
        forall|j: int|
            i < j < packages.len() ==> sbom::package_key(#[trigger] packages[j])
                != sbom::package_key(packages[i]),
    ensures
        sbom::lookup(sbom::unique_packages(packages), sbom::package_key(packages[i])) == Some(
            sbom::license_of(packages[i]),
        ),
    decreases packages.len(),
{
    let pairs = sbom::keyed_packages(packages);
    let before = packages.drop_last();
    assert(pairs.drop_last() =~= sbom::keyed_packages(before));
    let last = pairs.last();
    let k = sbom::package_key(packages[i]);
    sbom::put_is_found(sbom::unique_packages(before), last.0, last.1, k);
    if i < before.len() {
        assert(sbom::package_key(packages[packages.len() - 1]) != k);
        assert forall|j: int| i < j < before.len() implies sbom::package_key(#[trigger] before[j])
            != sbom::package_key(before[i]) by {
            assert(before[j] == packages[j]);
        }
        the_last_license_counts(before, i);
    }
}

/// The checksum of a key is that of the last locked package that has the key and a
/// checksum.
pub proof fn the_last_checksum_counts(locked: Seq<LockedPackage>, i: int, k: Key)
    requires
        -1 <= i < locked.len(),
        i >= 0 ==> locked[i].checksum is Some && locked[i].name@ == k.name && locked[i].version@
            == k.version && locked[i].source@ == k.source,
        forall|j: int|
            i < j < locked.len() ==> (#[trigger] locked[j]).checksum is None || locked[j].name@
                != k.name || locked[j].version@ != k.version || locked[j].source@ != k.source,
    ensures
        sbom::lookup(sbom::locked_checksums(locked), k) == (if i >= 0 {
            Some(locked[i].checksum->Some_0@)
        } else {
            None
        }),
    decreases locked.len(),
{
    if locked.len() > 0 {
        let before = locked.drop_last();
        let last = locked.last();
        assert(locked[locked.len() - 1] == last);
        match last.checksum {
            Some(c) => {
                let pairs = sbom::keyed_locks(locked);
                assert(pairs.drop_last() =~= sbom::keyed_locks(before));
                sbom::put_is_found(
                    sbom::locked_checksums(before),
                    sbom::locked_key(last),
                    c@,
                    k,
                );
            },
            None => {},
        }
        if i < before.len() {
            assert forall|j: int| i < j < before.len() implies (#[trigger] before[j]).checksum is None
                || before[j].name@ != k.name || before[j].version@ != k.version
                || before[j].source@ != k.source by {
                assert(before[j] == locked[j]);
            }
            the_last_checksum_counts(before, i, k);
        }
    }
}

/// Every package of the workspaces stands in the bill with its name, its version, the
/// license that the last package of its key declares and the checksum of its lock,
/// under an identifier of its own that a relationship names; and a notice says the
/// same of it.
pub proof fn every_package_is_in_the_bill(
    packages: Seq<MetadataPackage>,
    locked: Seq<LockedPackage>,
    version: Seq<char>,
    commit: Seq<char>,
    target: Seq<char>,
    created: Seq<char>,
    i: int,
) -> (at: int)
    requires
        0 <= i < packages.len(),
        forall|j: int|
            i < j < packages.len() ==> sbom::package_key(#[trigger] packages[j])
                != sbom::package_key(packages[i]),
    ensures
        ({
            let p = packages[i];
            let list = sbom::unique_packages(packages);
            let t = sbom::document_tree(
                list,
                sbom::locked_checksums(locked),
                version,
                commit,
                target,
                created,
            );
            let notices = sbom::notices_of(list, list.len() as int);
            let license = match p.license {
                Some(l) => l@,
                None => "NOASSERTION"@,
            };
            &&& json::tree_member(t, "packages"@) matches Some(Tree::Array(all)) && 0 <= at
                < all.len() && has_text(all[at], "name"@, p.name@) && has_text(
                all[at],
                "versionInfo"@,
                p.version@,
            ) && has_text(all[at], "licenseDeclared"@, license) && (p.source matches Some(s)
                ==> s@.len() > 0 ==> has_text(all[at], "downloadLocation"@, s@)) && (
            p.source is None ==> has_text(all[at], "downloadLocation"@, "NOASSERTION"@)) && (
            match sbom::lookup(sbom::locked_checksums(locked), sbom::package_key(p)) {
                Some(sum) => json::tree_member(all[at], "checksums"@) matches Some(
                    Tree::Array(sums),
                ) && sums.len() == 1 && has_text(sums[0], "checksumValue"@, sum),
                None => json::tree_member(all[at], "checksums"@) is None,
            })
            &&& json::tree_member(t, "packages"@) matches Some(Tree::Array(all))
                && json::tree_member(t, "relationships"@) matches Some(Tree::Array(named)) && at
                < named.len() && json::tree_member(all[at], "SPDXID"@) == json::tree_member(
                named[at],
                "relatedSpdxElement"@,
            )
            &&& 0 <= at < notices.len()
            &&& notices[at].name == p.name@
            &&& notices[at].version == p.version@
            &&& notices[at].license == license
            &&& p.source matches Some(s) ==> s@.len() > 0 ==> notices[at].source == s@
            &&& p.source is None ==> notices[at].source == "workspace"@
        }),
{
    let p = packages[i];
    let k = sbom::package_key(p);
    let list = sbom::unique_packages(packages);
    let sums = sbom::locked_checksums(locked);
    the_last_license_counts(packages, i);
    let at = keys_have_a_place(list, k);
    documents_are_described(list, sums, version, commit, target, created);
    let t = sbom::document_tree(list, sums, version, commit, target, created);
    let n = list.len() as int;
    assert(json::tree_member(t, "packages"@) == Some(
        Tree::Array(sbom::package_trees(list, sums, n)),
    )) by {
        bill_lists_are_found(list, sums, version, commit, target, created);
    }
    assert(json::tree_member(t, "relationships"@) == Some(
        Tree::Array(sbom::relationship_trees(list, n)),
    )) by {
        bill_lists_are_found(list, sums, version, commit, target, created);
    }
    packages_are_described(k, list[at].1, sbom::lookup(sums, k), (at + 1) as nat);
    relationships_name_their_package(sbom::identifier(k.name, k.version, (at + 1) as nat));
    at
}

proof fn bill_lists_are_found(
    list: Seq<(Key, Seq<char>)>,
    checksums: Seq<(Key, Seq<char>)>,
    version: Seq<char>,
    commit: Seq<char>,
    target: Seq<char>,
    created: Seq<char>,
)
    ensures
        ({
            let t = sbom::document_tree(list, checksums, version, commit, target, created);
            let n = list.len() as int;
            &&& json::tree_member(t, "packages"@) == Some(
                Tree::Array(sbom::package_trees(list, checksums, n)),
            )
            &&& json::tree_member(t, "relationships"@) == Some(
                Tree::Array(sbom::relationship_trees(list, n)),
            )
        }),
{
    document_keys_differ();
    assert forall|members: Seq<(Seq<char>, Tree)>, member: (Seq<char>, Tree), k: Seq<char>|
        #[trigger] order::lookup(json::gathered(members.push(member)), k) == (if member.0 == k {
            Some(member.1)
        } else {
            order::lookup(json::gathered(members), k)
        }) by {
        json::gathered_member_is_added(members, member, k);
    }
}

} // verus!
