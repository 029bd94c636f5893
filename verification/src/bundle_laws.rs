//! What holds of every bundle.
use crate::bundle::{self, FileRecord, Identity};
use crate::documents;
use crate::json::{self, Tree};
use crate::order;
use crate::sbom::NoticeModel;
use crate::text;
use vstd::prelude::*;

verus! {

proof fn manifest_keys_differ()
    ensures
        "format_version"@ != "product"@,
        "format_version"@ != "version"@,
        "format_version"@ != "commit"@,
        "format_version"@ != "dirty"@,
        "format_version"@ != "target"@,
        "format_version"@ != "platform"@,
        "format_version"@ != "source_date_epoch"@,
        "format_version"@ != "created"@,
        "format_version"@ != "servers"@,
        "format_version"@ != "extension"@,
        "format_version"@ != "files"@,
        "product"@ != "version"@,
        "product"@ != "commit"@,
        "product"@ != "dirty"@,
        "product"@ != "target"@,
        "product"@ != "platform"@,
        "product"@ != "source_date_epoch"@,
        "product"@ != "created"@,
        "product"@ != "servers"@,
        "product"@ != "extension"@,
        "product"@ != "files"@,
        "version"@ != "commit"@,
        "version"@ != "dirty"@,
        "version"@ != "target"@,
        "version"@ != "platform"@,
        "version"@ != "source_date_epoch"@,
        "version"@ != "created"@,
        "version"@ != "servers"@,
        "version"@ != "extension"@,
        "version"@ != "files"@,
        "commit"@ != "dirty"@,
        "commit"@ != "target"@,
        "commit"@ != "platform"@,
        "commit"@ != "source_date_epoch"@,
        "commit"@ != "created"@,
        "commit"@ != "servers"@,
        "commit"@ != "extension"@,
        "commit"@ != "files"@,
        "dirty"@ != "target"@,
        "dirty"@ != "platform"@,
        "dirty"@ != "source_date_epoch"@,
        "dirty"@ != "created"@,
        "dirty"@ != "servers"@,
        "dirty"@ != "extension"@,
        "dirty"@ != "files"@,
        "target"@ != "platform"@,
        "target"@ != "source_date_epoch"@,
        "target"@ != "created"@,
        "target"@ != "servers"@,
        "target"@ != "extension"@,
        "target"@ != "files"@,
        "platform"@ != "source_date_epoch"@,
        "platform"@ != "created"@,
        "platform"@ != "servers"@,
        "platform"@ != "extension"@,
        "platform"@ != "files"@,
        "source_date_epoch"@ != "created"@,
        "source_date_epoch"@ != "servers"@,
        "source_date_epoch"@ != "extension"@,
        "source_date_epoch"@ != "files"@,
        "created"@ != "servers"@,
        "created"@ != "extension"@,
        "created"@ != "files"@,
        "servers"@ != "extension"@,
        "servers"@ != "files"@,
        "extension"@ != "files"@,
{
    reveal_strlit("format_version");
    assert("format_version"@.len() == 14 && "format_version"@[0] == 'f');
    reveal_strlit("product");
    assert("product"@.len() == 7 && "product"@[0] == 'p');
    reveal_strlit("version");
    assert("version"@.len() == 7 && "version"@[0] == 'v');
    reveal_strlit("commit");
    assert("commit"@.len() == 6 && "commit"@[0] == 'c');
    reveal_strlit("dirty");
    assert("dirty"@.len() == 5 && "dirty"@[0] == 'd');
    reveal_strlit("target");
    assert("target"@.len() == 6 && "target"@[0] == 't');
    reveal_strlit("platform");
    assert("platform"@.len() == 8 && "platform"@[0] == 'p');
    reveal_strlit("source_date_epoch");
    assert("source_date_epoch"@.len() == 17 && "source_date_epoch"@[0] == 's');
    reveal_strlit("created");
    assert("created"@.len() == 7 && "created"@[0] == 'c');
    reveal_strlit("servers");
    assert("servers"@.len() == 7 && "servers"@[0] == 's');
    reveal_strlit("extension");
    assert("extension"@.len() == 9 && "extension"@[0] == 'e');
    reveal_strlit("files");
    assert("files"@.len() == 5 && "files"@[0] == 'f');
}

proof fn record_keys_differ()
    ensures
        "path"@ != "bytes"@,
        "path"@ != "sha256"@,
        "bytes"@ != "sha256"@,
{
    reveal_strlit("path");
    assert("path"@.len() == 4 && "path"@[0] == 'p');
    reveal_strlit("bytes");
    assert("bytes"@.len() == 5 && "bytes"@[0] == 'b');
    reveal_strlit("sha256");
    assert("sha256"@.len() == 6 && "sha256"@[0] == 's');
}

/// The manifest of a bundle says what the bundle is: each part of the identity stands
/// under its own key, and so do the servers, the extension and the files.
pub proof fn manifests_say_what_the_bundle_is(
    id: Identity,
    servers: Tree,
    extension: Tree,
    files: Seq<FileRecord>,
)
    ensures
        ({
            let t = bundle::manifest_tree(id, servers, extension, files);
            &&& json::tree_member(t, "format_version"@) == Some(Tree::Unsigned(1))
            &&& json::tree_member(t, "product"@) == Some(
                Tree::Text("timeless-telemetry-data-plane"@),
            )
            &&& json::tree_member(t, "version"@) == Some(Tree::Text(id.version@))
            &&& json::tree_member(t, "commit"@) == Some(Tree::Text(id.commit@))
            &&& json::tree_member(t, "dirty"@) == Some(Tree::Bool(id.dirty))
            &&& json::tree_member(t, "target"@) == Some(Tree::Text(id.target.triple@))
            &&& json::tree_member(t, "platform"@) == Some(Tree::Text(id.target.platform@))
            &&& json::tree_member(t, "source_date_epoch"@) == Some(Tree::Unsigned(id.epoch))
            &&& json::tree_member(t, "created"@) == Some(Tree::Text(id.created@))
            &&& json::tree_member(t, "servers"@) == Some(servers)
            &&& json::tree_member(t, "extension"@) == Some(extension)
            &&& json::tree_member(t, "files"@) matches Some(Tree::Array(list)) && list.len()
                == files.len()
        }),
{
    manifest_keys_differ();
    assert forall|members: Seq<(Seq<char>, Tree)>, member: (Seq<char>, Tree), k: Seq<char>|
        #[trigger] order::lookup(json::gathered(members.push(member)), k) == (if member.0 == k {
            Some(member.1)
        } else {
            order::lookup(json::gathered(members), k)
        }) by {
        json::gathered_member_is_added(members, member, k);
    }
}

/// Every file stands in the manifest at its place, with its path, its size and its
/// digest.
pub proof fn manifests_list_every_file(
    id: Identity,
    servers: Tree,
    extension: Tree,
    files: Seq<FileRecord>,
    i: int,
)
    requires
        0 <= i < files.len(),
    ensures
        json::tree_member(
            bundle::manifest_tree(id, servers, extension, files),
            "files"@,
        ) matches Some(Tree::Array(list)) && list.len() == files.len() && json::tree_member(
            list[i],
            "path"@,
        ) == Some(Tree::Text(files[i].path@)) && json::tree_member(list[i], "bytes"@) == Some(
            Tree::Unsigned(files[i].bytes),
        ) && json::tree_member(list[i], "sha256"@) == Some(Tree::Text(files[i].sha256@)),
{
    manifest_keys_differ();
    record_keys_differ();
    assert forall|members: Seq<(Seq<char>, Tree)>, member: (Seq<char>, Tree), k: Seq<char>|
        #[trigger] order::lookup(json::gathered(members.push(member)), k) == (if member.0 == k {
            Some(member.1)
        } else {
            order::lookup(json::gathered(members), k)
        }) by {
        json::gathered_member_is_added(members, member, k);
    }
    assert(bundle::record_trees(files)[i] == bundle::record_tree(files[i]));
}

/// Only what names the commit and the target identifies a bundle: another commit or
/// another target is refused.
pub proof fn others_do_not_identify(
    held: Tree,
    commit: Seq<char>,
    target: Seq<char>,
    other_commit: Seq<char>,
    other_target: Seq<char>,
)
    ensures
        bundle::identifies(held, commit, target) && bundle::identifies(
            held,
            other_commit,
            other_target,
        ) ==> commit == other_commit && target == other_target,
        bundle::identifies(held, commit, target) ==> json::tree_member(held, "commit"@) == Some(
            Tree::Text(commit),
        ) && json::tree_member(held, "target"@) == Some(Tree::Text(target)),
{
}

/// The servers pass exactly if each of them prints a document with this commit and
/// this target; otherwise the first that does not is named.
pub proof fn strangers_are_found(
    servers: Seq<(String, String)>,
    commit: Seq<char>,
    target: Seq<char>,
    from: int,
)
    requires
        0 <= from <= servers.len(),
    ensures
        match bundle::first_stranger(servers, commit, target, from) {
            None => forall|i: int|
                from <= i < servers.len() ==> documents::document_tree(
                    (#[trigger] servers[i]).1@,
                ) is Some && bundle::identifies(
                    documents::document_tree(servers[i].1@)->Some_0,
                    commit,
                    target,
                ),
            Some(at) => from <= at < servers.len() && !(documents::document_tree(
                servers[at].1@,
            ) is Some && bundle::identifies(
                documents::document_tree(servers[at].1@)->Some_0,
                commit,
                target,
            )) && forall|i: int|
                from <= i < at ==> documents::document_tree((#[trigger] servers[i]).1@) is Some,
        },
    decreases servers.len() - from,
{
    if from < servers.len() && bundle::is_own(servers[from].1@, commit, target) {
        strangers_are_found(servers, commit, target, from + 1);
    }
}

/// The first server without a link is found, and every one before it has one.
pub proof fn missing_links_are_found(linked: Seq<bool>, from: int)
    requires
        0 <= from <= linked.len(),
    ensures
        match bundle::first_unlinked(linked, from) {
            None => forall|i: int| from <= i < linked.len() ==> #[trigger] linked[i],
            Some(at) => from <= at < linked.len() && !linked[at] && forall|i: int|
                from <= i < at ==> #[trigger] linked[i],
        },
    decreases linked.len() - from,
{
    if from < linked.len() && linked[from] {
        missing_links_are_found(linked, from + 1);
    }
}

/// What is staged: two scripts, the extension, every server and the license, each from
/// where it was built to where it is installed, the scripts and the servers with the
/// right to run.
pub proof fn staged_files_come_from_their_builds(
    binaries: Seq<Seq<char>>,
    triple: Seq<char>,
    suffix: Seq<char>,
    i: int,
)
    ensures
        ({
            let list = bundle::staged_for(binaries, triple, suffix);
            let last = list.len() - 1;
            &&& list.len() == binaries.len() + 4
            &&& list[0].source == "tools/install_release.sh"@ && list[0].destination
                == "install.sh"@ && list[0].mode == 0o755
            &&& list[1].source == "tools/uninstall_release.sh"@ && list[1].destination
                == "uninstall.sh"@ && list[1].mode == 0o755
            &&& list[2].source == "target/"@ + triple + "/release/"@ + ("libtimeless_ext."@
                + suffix)
            &&& list[2].destination == "lib/"@ + ("libtimeless_ext."@ + suffix) && list[2].mode
                == 0o644
            &&& 0 <= i < binaries.len() ==> list[i + 3].source == "servers/target/"@ + triple
                + "/release/"@ + binaries[i] && list[i + 3].destination == "bin/"@ + binaries[i]
                && list[i + 3].mode == 0o755
            &&& list[last].source == "LICENSE"@ && list[last].destination
                == "licenses/timeless-libsql-MIT.txt"@ && list[last].mode == 0o644
        }),
{
}

/// The license inventory begins with its head, and each package adds a line with its
/// name, its version, its license and its source.
pub proof fn notices_have_a_line_each(list: Seq<NoticeModel>, n: int)
    ensures
        bundle::notices_text(list, 0) == bundle::NOTICE_HEAD@,
        0 <= n < list.len() ==> bundle::notices_text(list, n + 1) == bundle::notices_text(list, n)
            + (list[n].name + " "@ + list[n].version + " | "@ + list[n].license + " | "@
            + list[n].source + "\n"@),
{
    if 0 <= n < list.len() {
        let line = list[n].name + " "@ + list[n].version + " | "@ + list[n].license + " | "@
            + list[n].source + "\n"@;
        assert(bundle::notices_text(list, n + 1) =~= bundle::notices_text(list, n) + line);
    }
}

/// The host is what stands behind the first line that begins with `host:`.
pub proof fn the_host_line_is_read(lines: Seq<Seq<char>>, from: int, rest: Seq<char>)
    requires
        0 <= from <= lines.len(),
        from < lines.len() ==> lines[from] == "host:"@ + rest,
        forall|i: int| 0 <= i < from ==> !text::begins_with(#[trigger] lines[i], "host:"@),
    ensures
        bundle::host_in(lines, 0) == (if from < lines.len() {
            Some(text::trim(rest))
        } else {
            None
        }),
{
    host_is_behind(lines, 0, from, rest);
}

proof fn host_is_behind(lines: Seq<Seq<char>>, i: int, from: int, rest: Seq<char>)
    requires
        0 <= i <= from <= lines.len(),
        from < lines.len() ==> lines[from] == "host:"@ + rest,
        forall|k: int| 0 <= k < from ==> !text::begins_with(#[trigger] lines[k], "host:"@),
    ensures
        bundle::host_in(lines, i) == (if from < lines.len() {
            Some(text::trim(rest))
        } else {
            None
        }),
    decreases from - i,
{
    if i < from {
        assert(!text::begins_with(lines[i], "host:"@));
        host_is_behind(lines, i + 1, from, rest);
    } else if from < lines.len() {
        let head = "host:"@;
        assert(lines[from].subrange(0, head.len() as int) =~= head);
        assert(lines[from].skip(head.len() as int) =~= rest);
    }
}

/// A time after the middle of the range stands for one before the epoch: the two are
/// the same modulo the range.
pub proof fn epochs_keep_their_bits(epoch: u64)
    ensures
        bundle::signed_epoch(epoch) == epoch || bundle::signed_epoch(epoch)
            == epoch - 0x1_0000_0000_0000_0000,
        bundle::signed_epoch(epoch) < 0 <==> epoch > i64::MAX,
{
}

/// The payload is every file in the order of the archive, as long as nothing else than
/// files and directories is there.
pub proof fn payloads_are_the_files(
    list: Seq<(Seq<char>, crate::archive::Member)>,
    n: int,
    path: Seq<char>,
)
    requires
        0 <= n <= list.len(),
    ensures
        match bundle::payloads(list, n) {
            Ok(paths) => {
                &&& forall|i: int|
                    0 <= i < n ==> (#[trigger] list[i]).1.kind is Directory
                        || list[i].1.kind is File
                &&& paths.contains(path) <==> exists|i: int|
                    0 <= i < n && (#[trigger] list[i]).1.kind is File && list[i].1.path == path
            },
            Err(refused) => exists|i: int|
                0 <= i < n && (#[trigger] list[i]).1.path == refused && !(
                list[i].1.kind is Directory || list[i].1.kind is File),
        },
    decreases n,
{
    if n > 0 {
        payloads_are_the_files(list, n - 1, path);
        match bundle::payloads(list, n - 1) {
            Ok(before) => {
                let last = list[n - 1].1;
                if last.kind is File {
                    let after = before.push(last.path);
                    if before.contains(path) {
                        let i = choose|i: int| 0 <= i < before.len() && before[i] == path;
                        assert(after[i] == path);
                    }
                    if last.path == path {
                        assert(after[before.len() as int] == path);
                    }
                    if after.contains(path) && last.path != path {
                        let i = choose|i: int| 0 <= i < after.len() && after[i] == path;
                        assert(before[i] == path);
                    }
                }
            },
            Err(_) => {},
        }
    }
}

} // verus!
