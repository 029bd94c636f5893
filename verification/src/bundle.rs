//! The release bundle: what it is made of, how it is described, and what it must
//! meet before it is reported.
use crate::archive;
use crate::archive::{collect_sorted, Entry, EntryKind};
use crate::calendar;
use crate::documents;
use crate::documents::{byte_document, document};
use crate::inventory;
use crate::inventory::{Inventory, Target};
use crate::json;
use crate::json::{add_member, add_text, array_of, copied, held_member, no_members, object_of, Json, Tree};
use crate::order;
use crate::order::put_text;
use crate::sbom;
use crate::sbom::Notice;
use crate::text;
use crate::text::{ends_with, lines_of, parse_u64, same_text, starts_with, strip_prefix, trim_text};
use chrono::{DateTime, Utc};
use vstd::prelude::*;
use vstd::string::*;

verus! {

/// A step of a release.
#[derive(Clone, Copy, Debug, PartialEq, Eq, Structural)]
pub enum ReleaseStep {
    /// The inventory is read and checked.
    LoadInventory,
    /// The target is looked up.
    FindTarget,
    /// The compiler's host is compared with the target.
    CheckHost,
    /// The worktree is asked for changes.
    CheckTree,
    /// The version of the workspace is read.
    ReadVersion,
    /// The commit is read.
    ReadCommit,
    /// The time of the commit is read.
    ReadTime,
    /// The extension is built.
    BuildExtension,
    /// The servers are built.
    BuildServers,
    /// The output directory is asked for a bundle or an archive of that name.
    CheckOutput,
    /// The bundle is staged in a directory of its own.
    Stage,
    /// A bundle of that name is removed.
    RemoveBundle,
    /// An archive of that name is removed.
    RemoveArchive,
    /// The staged bundle takes its place.
    Publish,
    /// The archive is written.
    Archive,
    /// The checksums of the archives are written.
    WriteSums,
    /// The bundle is verified.
    Verify,
    /// The bundle is installed and removed.
    Drill,
    /// The bundle, the archive and its digest are reported.
    Report,
}

/// The step of a release at a place, from 0 on.
pub open spec fn release_step(i: nat) -> Option<ReleaseStep> {
    if i == 0 {
        Some(ReleaseStep::LoadInventory)
    } else if i == 1 {
        Some(ReleaseStep::FindTarget)
    } else if i == 2 {
        Some(ReleaseStep::CheckHost)
    } else if i == 3 {
        Some(ReleaseStep::CheckTree)
    } else if i == 4 {
        Some(ReleaseStep::ReadVersion)
    } else if i == 5 {
        Some(ReleaseStep::ReadCommit)
    } else if i == 6 {
        Some(ReleaseStep::ReadTime)
    } else if i == 7 {
        Some(ReleaseStep::BuildExtension)
    } else if i == 8 {
        Some(ReleaseStep::BuildServers)
    } else if i == 9 {
        Some(ReleaseStep::CheckOutput)
    } else if i == 10 {
        Some(ReleaseStep::Stage)
    } else if i == 11 {
        Some(ReleaseStep::RemoveBundle)
    } else if i == 12 {
        Some(ReleaseStep::RemoveArchive)
    } else if i == 13 {
        Some(ReleaseStep::Publish)
    } else if i == 14 {
        Some(ReleaseStep::Archive)
    } else if i == 15 {
        Some(ReleaseStep::WriteSums)
    } else if i == 16 {
        Some(ReleaseStep::Verify)
    } else if i == 17 {
        Some(ReleaseStep::Drill)
    } else if i == 18 {
        Some(ReleaseStep::Report)
    } else {
        None
    }
}

/// The step of a release at a place, from 0 on. A release takes them in order and
/// ends at the first that fails.
pub fn run(i: usize) -> (step: Option<ReleaseStep>)
    ensures
        step == release_step(i as nat),
{
    if i == 0 {
        Some(ReleaseStep::LoadInventory)
    } else if i == 1 {
        Some(ReleaseStep::FindTarget)
    } else if i == 2 {
        Some(ReleaseStep::CheckHost)
    } else if i == 3 {
        Some(ReleaseStep::CheckTree)
    } else if i == 4 {
        Some(ReleaseStep::ReadVersion)
    } else if i == 5 {
        Some(ReleaseStep::ReadCommit)
    } else if i == 6 {
        Some(ReleaseStep::ReadTime)
    } else if i == 7 {
        Some(ReleaseStep::BuildExtension)
    } else if i == 8 {
        Some(ReleaseStep::BuildServers)
    } else if i == 9 {
        Some(ReleaseStep::CheckOutput)
    } else if i == 10 {
        Some(ReleaseStep::Stage)
    } else if i == 11 {
        Some(ReleaseStep::RemoveBundle)
    } else if i == 12 {
        Some(ReleaseStep::RemoveArchive)
    } else if i == 13 {
        Some(ReleaseStep::Publish)
    } else if i == 14 {
        Some(ReleaseStep::Archive)
    } else if i == 15 {
        Some(ReleaseStep::WriteSums)
    } else if i == 16 {
        Some(ReleaseStep::Verify)
    } else if i == 17 {
        Some(ReleaseStep::Drill)
    } else if i == 18 {
        Some(ReleaseStep::Report)
    } else {
        None
    }
}

/// Nothing that was released before is removed until the new bundle is staged, and
/// nothing is reported until the bundle is verified and drilled.
pub proof fn release_steps_are_ordered(i: nat, j: nat)
    ensures
        release_step(i) == Some(ReleaseStep::Stage) && (release_step(j) == Some(
            ReleaseStep::RemoveBundle,
        ) || release_step(j) == Some(ReleaseStep::RemoveArchive)) ==> i < j,
        (release_step(i) == Some(ReleaseStep::Verify) || release_step(i) == Some(
            ReleaseStep::Drill,
        )) && release_step(j) == Some(ReleaseStep::Report) ==> i < j,
        (release_step(i) == Some(ReleaseStep::CheckTree) || release_step(i) == Some(
            ReleaseStep::CheckHost,
        )) && release_step(j) == Some(ReleaseStep::BuildExtension) ==> i < j,
{
}

/// What the worktree says of a release.
#[derive(Clone, Copy, Debug, PartialEq, Eq, Structural)]
pub enum TreeState {
    Clean,
    /// There are changes, and a diagnostic bundle is allowed.
    Dirty,
    /// There are changes, and none is allowed.
    Refused,
}

/// The state of the worktree, from what its status prints.
pub fn tree_state(status: &str, allow_dirty: bool) -> (state: TreeState)
    ensures
        state == (if text::trim(status@).len() == 0 {
            TreeState::Clean
        } else if allow_dirty {
            TreeState::Dirty
        } else {
            TreeState::Refused
        }),
{
    let trimmed = trim_text(status);
    if trimmed.as_str().unicode_len() == 0 {
        TreeState::Clean
    } else if allow_dirty {
        TreeState::Dirty
    } else {
        TreeState::Refused
    }
}

/// Whether a bundle may be written: nothing of its name is there, or replacing it
/// is asked for.
pub fn may_write(force: bool, bundle_exists: bool, archive_exists: bool) -> (may: bool)
    ensures
        may == (force || !(bundle_exists || archive_exists)),
{
    force || (!bundle_exists && !archive_exists)
}

/// The time of the source, from what the version control prints.
pub fn source_epoch(printed: &str) -> (epoch: Option<u64>)
    ensures
        match text::unsigned_value(text::trim(printed@)) {
            Some(n) => if n <= u64::MAX {
                epoch == Some(n as u64)
            } else {
                epoch is None
            },
            None => epoch is None,
        },
{
    let trimmed = trim_text(printed);
    parse_u64(&trimmed)
}

/// What `chrono` writes for seconds since the epoch in UTC. None if the time is out
/// of its range.
pub uninterp spec fn second_form(seconds: i64) -> Option<Seq<char>>;

/// `chrono::DateTime::from_timestamp` without nanoseconds, and
/// `chrono::DateTime::format` with `%Y-%m-%dT%H:%M:%SZ`. The text depends on the
/// seconds alone; which it is is not stated.
#[verifier::external_body]
fn epoch_text(seconds: i64) -> (written: Option<String>)
    ensures
        calendar::optional(written) == second_form(seconds),
{
    let at = DateTime::<Utc>::from_timestamp(seconds, 0)?;
    Some(at.format("%Y-%m-%dT%H:%M:%SZ").to_string())
}

/// The seconds as a signed number: the upper half of the range stands for times
/// before the epoch.
pub open spec fn signed_epoch(epoch: u64) -> i64 {
    if epoch <= i64::MAX {
        epoch as i64
    } else {
        (epoch - 0x1_0000_0000_0000_0000) as i64
    }
}

/// The time of the source as the bundle writes it.
pub fn created_text(epoch: u64) -> (created: Option<String>)
    ensures
        calendar::optional(created) == second_form(signed_epoch(epoch)),
{
    if epoch <= 0x7fff_ffff_ffff_ffff {
        epoch_text(epoch as i64)
    } else {
        epoch_text(-((u64::MAX - epoch) as i64) - 1)
    }
}

/// The name of the bundle of a version for a target.
pub open spec fn name_of_bundle(version: Seq<char>, triple: Seq<char>) -> Seq<char> {
    "timeless-telemetry-data-plane-"@ + version + "-"@ + triple
}

/// The name of the bundle of a version for a target.
pub fn bundle_name(version: &str, triple: &str) -> (name: String)
    ensures
        name@ == name_of_bundle(version@, triple@),
{
    let mut name = copied("timeless-telemetry-data-plane-");
    name.append(version);
    name.append("-");
    name.append(triple);
    name
}

/// What the toml crate finds in a document under three keys, one inside the other:
/// None if it is no document, Some(None) if there is no string.
pub uninterp spec fn toml_text(
    document: Seq<char>,
    first: Seq<char>,
    second: Seq<char>,
    third: Seq<char>,
) -> Option<Option<Seq<char>>>;

/// A found text by its characters.
pub open spec fn found_text(found: Option<Option<String>>) -> Option<Option<Seq<char>>> {
    match found {
        None => None,
        Some(t) => Some(calendar::optional(t)),
    }
}

/// `toml::from_str` to a `toml::Value`, then `toml::Value::get` three times and
/// `toml::Value::as_str`. What is found depends on the document and the keys
/// alone; how a document is read is not stated.
#[verifier::external_body]
fn toml_string(document: &str, first: &str, second: &str, third: &str) -> (found: Option<
    Option<String>,
>)
    ensures
        found_text(found) == toml_text(document@, first@, second@, third@),
{
    let root = toml::from_str::<toml::Value>(document).ok()?;
    let inner = root.get(first).and_then(|value| value.get(second));
    let value = inner.and_then(|value| value.get(third));
    Some(value.and_then(toml::Value::as_str).map(str::to_owned))
}

/// Why there is no version.
#[derive(Clone, Copy, Debug, PartialEq, Eq, Structural)]
pub enum VersionError {
    /// The manifest cannot be read.
    Manifest,
    /// The manifest has no version.
    Missing,
}

/// A version or an error, by what it holds.
pub open spec fn version_outcome(found: Option<Option<Seq<char>>>) -> Result<
    Seq<char>,
    VersionError,
> {
    match found {
        None => Err(VersionError::Manifest),
        Some(None) => Err(VersionError::Missing),
        Some(Some(v)) => Ok(v),
    }
}

/// The version, from what was found in a manifest.
pub fn version_found(found: Option<Option<String>>) -> (version: Result<String, VersionError>)
    ensures
        match version {
            Ok(v) => version_outcome(found_text(found)) == Ok::<Seq<char>, VersionError>(v@),
            Err(e) => version_outcome(found_text(found)) == Err::<Seq<char>, VersionError>(e),
        },
{
    match found {
        None => Err(VersionError::Manifest),
        Some(None) => Err(VersionError::Missing),
        Some(Some(v)) => Ok(v),
    }
}

/// The version of a workspace, from its manifest: `workspace.package.version`.
pub fn workspace_version(manifest: &str) -> (version: Result<String, VersionError>)
    ensures
        match version {
            Ok(v) => version_outcome(
                toml_text(manifest@, "workspace"@, "package"@, "version"@),
            ) == Ok::<Seq<char>, VersionError>(v@),
            Err(e) => version_outcome(
                toml_text(manifest@, "workspace"@, "package"@, "version"@),
            ) == Err::<Seq<char>, VersionError>(e),
        },
{
    version_found(toml_string(manifest, "workspace", "package", "version"))
}

/// Why a bundle cannot be built here.
#[derive(Clone, Debug, PartialEq, Eq)]
pub enum HostError {
    /// The compiler names no host.
    NoHost,
    /// The compiler's host is this one, and not the target.
    Foreign(String),
}

/// The rest of the first line from `i` on that begins with `host:`, without white
/// space at its ends.
pub open spec fn host_in(lines: Seq<Seq<char>>, i: int) -> Option<Seq<char>>
    decreases lines.len() - i,
{
    if i < 0 || i >= lines.len() {
        None
    } else {
        match text::behind(lines[i], "host:"@) {
            Some(rest) => Some(text::trim(rest)),
            None => host_in(lines, i + 1),
        }
    }
}

/// The host that the compiler names.
pub fn host_target(printed: &str) -> (host: Option<String>)
    ensures
        calendar::optional(host) == host_in(text::lines(text::trim(printed@)), 0),
{
    let trimmed = trim_text(printed);
    let all = lines_of(&trimmed);
    let ghost lines = text::lines(text::trim(printed@));
    let mut i: usize = 0;
    while i < all.len()
        invariant
            i <= all@.len(),
            text::texts(all@) == lines,
            lines == text::lines(text::trim(printed@)),
            host_in(lines, 0) == host_in(lines, i as int),
        decreases all.len() - i,
    {
        assert(text::texts(all@)[i as int] == all@[i as int]@);
        match strip_prefix(&all[i], "host:") {
            Some(rest) => {
                return Some(trim_text(&rest));
            },
            None => {},
        }
        i += 1;
    }
    None
}

/// Checks that bundles for a target can be built here, from what the compiler
/// prints: bundles are built on the target itself.
pub fn require_native_target(printed: &str, triple: &str) -> (result: Result<(), HostError>)
    ensures
        match (host_in(text::lines(text::trim(printed@)), 0), result) {
            (None, Err(HostError::NoHost)) => true,
            (Some(h), Ok(_)) => h == triple@,
            (Some(h), Err(HostError::Foreign(f))) => h != triple@ && f@ == h,
            _ => false,
        },
{
    match host_target(printed) {
        None => Err(HostError::NoHost),
        Some(host) => if same_text(&host, triple) {
            Ok(())
        } else {
            Err(HostError::Foreign(host))
        },
    }
}

/// The compiler flags of the builds: those that are set, and the mapping of the
/// repository's path to a fixed one.
pub open spec fn flags_of(existing: Seq<char>, root: Seq<char>) -> Seq<char> {
    text::trim(existing + " "@ + "--remap-path-prefix="@ + root + "=/src/timeless-libsql"@)
}

/// The compiler flags of the builds.
pub fn build_flags(existing: &str, root: &str) -> (flags: String)
    ensures
        flags@ == flags_of(existing@, root@),
{
    let mut flags = copied(existing);
    flags.append(" ");
    flags.append("--remap-path-prefix=");
    flags.append(root);
    flags.append("=/src/timeless-libsql");
    trim_text(&flags)
}

/// The environment of the builds.
pub open spec fn environment_of(commit: Seq<char>, epoch: nat, flags: Seq<char>) -> Seq<
    (Seq<char>, Seq<char>),
> {
    seq![
        ("TIMELESS_BUILD_COMMIT"@, commit),
        ("SOURCE_DATE_EPOCH"@, text::decimal(epoch)),
        ("CARGO_INCREMENTAL"@, "0"@),
        ("RUSTFLAGS"@, flags),
    ]
}

/// Pairs of texts by their characters.
pub open spec fn pair_texts(list: Seq<(&'static str, String)>) -> Seq<(Seq<char>, Seq<char>)> {
    list.map_values(|p: (&'static str, String)| (p.0@, p.1@))
}

/// The environment of the builds: what makes their results depend on the source
/// alone.
pub fn build_environment(commit: &str, epoch: u64, flags: &str) -> (pairs: Vec<
    (&'static str, String),
>)
    ensures
        pair_texts(pairs@) == environment_of(commit@, epoch as nat, flags@),
{
    let mut pairs: Vec<(&'static str, String)> = Vec::new();
    pairs.push(("TIMELESS_BUILD_COMMIT", copied(commit)));
    pairs.push(("SOURCE_DATE_EPOCH", text::decimal_text(epoch)));
    pairs.push(("CARGO_INCREMENTAL", copied("0")));
    pairs.push(("RUSTFLAGS", copied(flags)));
    assert(pair_texts(pairs@) =~= environment_of(commit@, epoch as nat, flags@));
    pairs
}

/// The arguments of the build of the extension for a target.
pub open spec fn extension_build_texts(triple: Seq<char>) -> Seq<Seq<char>> {
    seq![
            "build"@,
            "--locked"@,
            "--release"@,
            "--target"@,
            triple,
            "-p"@,
            "timeless-ext"@,
    ]
}

/// The arguments of the build of the extension for a target.
pub fn extension_build<'a>(triple: &'a str) -> (args: Vec<&'a str>)
    ensures
        inventory::str_views(args@) == extension_build_texts(triple@),
{
    let mut args: Vec<&'a str> = Vec::new();
    args.push("build");
    args.push("--locked");
    args.push("--release");
    args.push("--target");
    args.push(triple);
    args.push("-p");
    args.push("timeless-ext");
    assert(inventory::str_views(args@) =~= extension_build_texts(triple@));
    args
}

/// The arguments of the build of the servers for a target.
pub open spec fn server_build_texts(triple: Seq<char>) -> Seq<Seq<char>> {
    seq![
            "build"@,
            "--manifest-path"@,
            "servers/Cargo.toml"@,
            "--locked"@,
            "--release"@,
            "--target"@,
            triple,
            "--workspace"@,
    ]
}

/// The arguments of the build of the servers for a target.
pub fn server_build<'a>(triple: &'a str) -> (args: Vec<&'a str>)
    ensures
        inventory::str_views(args@) == server_build_texts(triple@),
{
    let mut args: Vec<&'a str> = Vec::new();
    args.push("build");
    args.push("--manifest-path");
    args.push("servers/Cargo.toml");
    args.push("--locked");
    args.push("--release");
    args.push("--target");
    args.push(triple);
    args.push("--workspace");
    assert(inventory::str_views(args@) =~= server_build_texts(triple@));
    args
}

/// A file that is staged: where it is taken from in the repository, where it goes
/// in the bundle, and its permissions.
#[derive(Clone, Debug, PartialEq, Eq)]
pub struct StagedFile {
    pub source: String,
    pub destination: String,
    pub mode: u32,
}

/// A staged file by its characters.
pub struct StagedModel {
    pub source: Seq<char>,
    pub destination: Seq<char>,
    pub mode: u32,
}

/// Staged files by their characters.
pub open spec fn staged_models(list: Seq<StagedFile>) -> Seq<StagedModel> {
    list.map_values(
        |f: StagedFile|
            StagedModel { source: f.source@, destination: f.destination@, mode: f.mode },
    )
}

/// The directory of the bundle at a place, from 0 on.
pub open spec fn directory_at(i: nat) -> Option<&'static str> {
    if i == 0 {
        Some("bin")
    } else if i == 1 {
        Some("lib")
    } else if i == 2 {
        Some("licenses")
    } else {
        None
    }
}

/// The directory of the bundle at a place, from 0 on.
pub fn bundle_directory(i: usize) -> (name: Option<&'static str>)
    ensures
        name == directory_at(i as nat),
{
    if i == 0 {
        Some("bin")
    } else if i == 1 {
        Some("lib")
    } else if i == 2 {
        Some("licenses")
    } else {
        None
    }
}

/// The file name of the extension for a target.
pub open spec fn extension_file(suffix: Seq<char>) -> Seq<char> {
    "libtimeless_ext."@ + suffix
}

/// The file name of the extension for a target.
pub fn extension_name(target: &Target) -> (name: String)
    ensures
        name@ == extension_file(target.extension_suffix@),
{
    let mut name = copied("libtimeless_ext.");
    name.append(&target.extension_suffix);
    name
}

/// The staged form of a server.
pub open spec fn server_file(triple: Seq<char>, binary: Seq<char>) -> StagedModel {
    StagedModel {
        source: "servers/target/"@ + triple + "/release/"@ + binary,
        destination: "bin/"@ + binary,
        mode: 0o755,
    }
}

/// The files that are staged for a target: the scripts, the extension, the servers
/// and the license.
pub open spec fn staged_for(binaries: Seq<Seq<char>>, triple: Seq<char>, suffix: Seq<char>) -> Seq<
    StagedModel,
> {
    seq![
        StagedModel {
            source: "tools/install_release.sh"@,
            destination: "install.sh"@,
            mode: 0o755,
        },
        StagedModel {
            source: "tools/uninstall_release.sh"@,
            destination: "uninstall.sh"@,
            mode: 0o755,
        },
        StagedModel {
            source: "target/"@ + triple + "/release/"@ + extension_file(suffix),
            destination: "lib/"@ + extension_file(suffix),
            mode: 0o644,
        },
    ] + binaries.map_values(|b: Seq<char>| server_file(triple, b)) + seq![
        StagedModel {
            source: "LICENSE"@,
            destination: "licenses/timeless-libsql-MIT.txt"@,
            mode: 0o644,
        },
    ]
}

fn staged(list: &mut Vec<StagedFile>, source: String, destination: String, mode: u32)
    ensures
        staged_models(final(list)@) == staged_models(old(list)@).push(
            (StagedModel { source: source@, destination: destination@, mode }),
        ),
{
    list.push(StagedFile { source, destination, mode });
    assert(staged_models(list@) =~= staged_models(old(list)@).push(
        StagedModel { source: source@, destination: destination@, mode },
    ));
}

fn stage_server(list: &mut Vec<StagedFile>, triple: &str, binary: &str)
    ensures
        staged_models(final(list)@) == staged_models(old(list)@).push(
            server_file(triple@, binary@),
        ),
{
    let mut source = copied("servers/target/");
    source.append(triple);
    source.append("/release/");
    source.append(binary);
    let mut destination = copied("bin/");
    destination.append(binary);
    staged(list, source, destination, 0o755);
}

/// The files that are staged for a target, in their order.
pub fn stage_files(inventory: &Inventory, target: &Target) -> (list: Vec<StagedFile>)
    ensures
        staged_models(list@) == staged_for(
            text::texts(inventory.binaries@),
            target.triple@,
            target.extension_suffix@,
        ),
{
    let mut list: Vec<StagedFile> = Vec::new();
    staged(&mut list, copied("tools/install_release.sh"), copied("install.sh"), 0o755);
    staged(&mut list, copied("tools/uninstall_release.sh"), copied("uninstall.sh"), 0o755);
    let extension = extension_name(target);
    let mut source = copied("target/");
    source.append(&target.triple);
    source.append("/release/");
    source.append(&extension);
    let mut destination = copied("lib/");
    destination.append(&extension);
    staged(&mut list, source, destination, 0o644);
    let ghost before = staged_models(list@);
    let ghost all = text::texts(inventory.binaries@);
    let ghost servers = all.map_values(|b: Seq<char>| server_file(target.triple@, b));
    let mut i: usize = 0;
    assert(before + servers.take(0) =~= before);
    while i < inventory.binaries.len()
        invariant
            i <= inventory.binaries@.len(),
            all == text::texts(inventory.binaries@),
            servers == all.map_values(|b: Seq<char>| server_file(target.triple@, b)),
            staged_models(list@) == before + servers.take(i as int),
        decreases inventory.binaries.len() - i,
    {
        assert(all[i as int] == inventory.binaries@[i as int]@);
        stage_server(&mut list, &target.triple, &inventory.binaries[i]);
        i += 1;
        assert(staged_models(list@) =~= before + servers.take(i as int));
    }
    staged(&mut list, copied("LICENSE"), copied("licenses/timeless-libsql-MIT.txt"), 0o644);
    assert(staged_models(list@) =~= staged_for(all, target.triple@, target.extension_suffix@));
    list
}

/// Every server of the inventory is staged under its name in the bundle's `bin`,
/// with permissions that let it run.
pub proof fn every_server_is_staged(
    binaries: Seq<Seq<char>>,
    triple: Seq<char>,
    suffix: Seq<char>,
    i: int,
)
    requires
        0 <= i < binaries.len(),
    ensures
        staged_for(binaries, triple, suffix)[i + 3].destination == "bin/"@ + binaries[i],
        staged_for(binaries, triple, suffix)[i + 3].mode == 0o755,
{
}

/// The head of the license inventory.
pub const NOTICE_HEAD: &'static str = "Timeless telemetry data plane third-party license inventory\nGenerated from the two locked Cargo workspaces. Consult each upstream source for full terms.\n\n";

/// The license inventory of the first `n` notices.
pub open spec fn notices_text(list: Seq<sbom::NoticeModel>, n: int) -> Seq<char>
    decreases n,
{
    if n <= 0 {
        NOTICE_HEAD@
    } else {
        notices_text(list, n - 1) + list[n - 1].name + " "@ + list[n - 1].version + " | "@ + list[n
            - 1].license + " | "@ + list[n - 1].source + "\n"@
    }
}

/// The license inventory: a head, and a line for each package.
pub fn notice_text(notices: &[Notice]) -> (out: String)
    ensures
        out@ == notices_text(sbom::notice_models(notices@), notices@.len() as int),
{
    let ghost all = sbom::notice_models(notices@);
    let mut out = copied(NOTICE_HEAD);
    let mut i: usize = 0;
    while i < notices.len()
        invariant
            i <= notices@.len(),
            all == sbom::notice_models(notices@),
            out@ == notices_text(all, i as int),
        decreases notices.len() - i,
    {
        let n = &notices[i];
        assert(all[i as int] == sbom::notice_model(*n));
        out.append(&n.name);
        out.append(" ");
        out.append(&n.version);
        out.append(" | ");
        out.append(&n.license);
        out.append(" | ");
        out.append(&n.source);
        out.append("\n");
        i += 1;
    }
    out
}

/// The payload files among the first `n` entries, or the path of the first entry
/// that is neither a directory nor a file.
pub open spec fn payloads(list: Seq<(Seq<char>, archive::Member)>, n: int) -> Result<
    Seq<Seq<char>>,
    Seq<char>,
>
    decreases n,
{
    if n <= 0 {
        Ok(Seq::empty())
    } else {
        match payloads(list, n - 1) {
            Err(e) => Err(e),
            Ok(before) => match list[n - 1].1.kind {
                EntryKind::Directory => Ok(before),
                EntryKind::File(_) => Ok(before.push(list[n - 1].1.path)),
                _ => Err(list[n - 1].1.path),
            },
        }
    }
}

proof fn payload_errors_persist(list: Seq<(Seq<char>, archive::Member)>, n: int, m: int)
    requires
        0 <= n <= m,
        payloads(list, n) is Err,
    ensures
        payloads(list, m) == payloads(list, n),
    decreases m - n,
{
    if n < m {
        payload_errors_persist(list, n, m - 1);
    }
}

/// The payload files of a bundle by their paths, in the order of the archive. An
/// entry that is neither a directory nor a file is refused.
pub fn payload_files(entries: &[Entry]) -> (result: Result<Vec<String>, String>)
    ensures
        match (
            payloads(
                archive::in_archive_order(entries@),
                archive::in_archive_order(entries@).len() as int,
            ),
            result,
        ) {
            (Ok(paths), Ok(list)) => text::texts(list@) == paths,
            (Err(p), Err(q)) => p == q@,
            _ => false,
        },
{
    let sorted = collect_sorted(entries);
    let ghost all = archive::keyed_refs(sorted@);
    let mut list: Vec<String> = Vec::new();
    let mut i: usize = 0;
    assert(text::texts(list@) =~= Seq::empty());
    while i < sorted.len()
        invariant
            i <= sorted@.len(),
            all == archive::keyed_refs(sorted@),
            all == archive::in_archive_order(entries@),
            payloads(all, i as int) == Ok::<Seq<Seq<char>>, Seq<char>>(text::texts(list@)),
        decreases sorted.len() - i,
    {
        let entry: &Entry = sorted[i];
        assert(all[i as int].1 == archive::member(*entry));
        match entry.kind {
            EntryKind::Directory => {},
            EntryKind::File(_) => {
                let ghost before = list@;
                list.push(copied(&entry.path));
                assert(text::texts(list@) =~= text::texts(before).push(entry.path@));
            },
            _ => {
                proof {
                    payload_errors_persist(all, i + 1, all.len() as int);
                }
                return Err(copied(&entry.path));
            },
        }
        i += 1;
    }
    Ok(list)
}

/// What `std::path::Path::strip_prefix` leaves of a path behind a directory. None
/// if the path is not in the directory.
pub uninterp spec fn path_behind(root: Seq<char>, path: Seq<char>) -> Option<Seq<char>>;

/// `std::path::Path::strip_prefix`, the result as a text. It depends on the two
/// paths alone; how paths are taken apart is not stated.
#[verifier::external_body]
fn strip_root(root: &str, path: &str) -> (rest: Option<String>)
    ensures
        calendar::optional(rest) == path_behind(root@, path@),
{
    let rest = std::path::Path::new(path).strip_prefix(root).ok()?;
    rest.to_str().map(str::to_owned)
}

/// The path of a payload from the bundle's directory on. None if it is not in the
/// directory.
pub fn relative_string(root: &str, path: &str) -> (relative: Option<String>)
    ensures
        calendar::optional(relative) == path_behind(root@, path@),
{
    strip_root(root, path)
}

/// What the manifest says of a file.
#[derive(Clone, Debug, PartialEq, Eq)]
pub struct FileRecord {
    pub path: String,
    pub bytes: u64,
    pub sha256: String,
}

/// A file in the manifest.
pub open spec fn record_tree(r: FileRecord) -> Tree {
    Tree::Object(
        json::gathered(
            Seq::empty().push(("path"@, Tree::Text(r.path@))).push(
                ("bytes"@, Tree::Unsigned(r.bytes)),
            ).push(("sha256"@, Tree::Text(r.sha256@))),
        ),
    )
}

fn record_value(r: &FileRecord) -> (value: Json)
    ensures
        json::tree(value) == record_tree(*r),
{
    let mut members = no_members();
    add_text(&mut members, "path", &r.path);
    add_member(&mut members, "bytes", Json::Unsigned(r.bytes));
    add_text(&mut members, "sha256", &r.sha256);
    object_of(members)
}

/// The files in the manifest.
pub open spec fn record_trees(list: Seq<FileRecord>) -> Seq<Tree> {
    list.map_values(|r: FileRecord| record_tree(r))
}

fn record_values(list: &[FileRecord]) -> (values: Vec<Json>)
    ensures
        json::trees(values@) == record_trees(list@),
{
    let mut values: Vec<Json> = Vec::new();
    let mut i: usize = 0;
    while i < list.len()
        invariant
            i <= list@.len(),
            values@.len() == i,
            forall|k: int| 0 <= k < i ==> json::tree(#[trigger] values@[k]) == record_tree(list@[k]),
        decreases list.len() - i,
    {
        values.push(record_value(&list[i]));
        i += 1;
    }
    assert(json::trees(values@) =~= record_trees(list@));
    values
}

/// What identifies a bundle.
#[derive(Clone, Debug)]
pub struct Identity {
    pub version: String,
    pub commit: String,
    pub dirty: bool,
    pub target: Target,
    pub epoch: u64,
    pub created: String,
}

/// What stands in the manifest of a bundle: its identity, the identities of its
/// servers and of its extension, and its files.
pub open spec fn manifest_members(
    id: Identity,
    servers: Tree,
    extension: Tree,
    files: Seq<FileRecord>,
) -> Seq<(Seq<char>, Tree)> {
    Seq::empty().push(("format_version"@, Tree::Unsigned(1))).push(
        ("product"@, Tree::Text("timeless-telemetry-data-plane"@)),
    ).push(("version"@, Tree::Text(id.version@))).push(
        ("commit"@, Tree::Text(id.commit@)),
    ).push(("dirty"@, Tree::Bool(id.dirty))).push(
        ("target"@, Tree::Text(id.target.triple@)),
    ).push(("platform"@, Tree::Text(id.target.platform@))).push(
        ("source_date_epoch"@, Tree::Unsigned(id.epoch)),
    ).push(("created"@, Tree::Text(id.created@))).push(("servers"@, servers)).push(
        ("extension"@, extension),
    ).push(("files"@, Tree::Array(record_trees(files))))
}

/// The manifest of a bundle.
pub open spec fn manifest_tree(
    id: Identity,
    servers: Tree,
    extension: Tree,
    files: Seq<FileRecord>,
) -> Tree {
    Tree::Object(json::gathered(manifest_members(id, servers, extension, files)))
}

/// The manifest of a bundle.
pub fn manifest(id: &Identity, servers: Json, extension: Json, files: &[FileRecord]) -> (value: Json)
    ensures
        json::tree(value) == manifest_tree(
            *id,
            json::tree(servers),
            json::tree(extension),
            files@,
        ),
{
    let mut members = no_members();
    add_member(&mut members, "format_version", Json::Unsigned(1));
    add_text(&mut members, "product", "timeless-telemetry-data-plane");
    add_text(&mut members, "version", &id.version);
    add_text(&mut members, "commit", &id.commit);
    add_member(&mut members, "dirty", Json::Bool(id.dirty));
    add_text(&mut members, "target", &id.target.triple);
    add_text(&mut members, "platform", &id.target.platform);
    add_member(&mut members, "source_date_epoch", Json::Unsigned(id.epoch));
    add_text(&mut members, "created", &id.created);
    add_member(&mut members, "servers", servers);
    add_member(&mut members, "extension", extension);
    let records = record_values(files);
    add_member(&mut members, "files", array_of(records));
    object_of(members)
}

/// What a value holds names this commit and this target.
pub open spec fn identifies(held: Tree, commit: Seq<char>, target: Seq<char>) -> bool {
    json::tree_member(held, "commit"@) == Some(Tree::Text(commit)) && json::tree_member(
        held,
        "target"@,
    ) == Some(Tree::Text(target))
}

fn member_is(value: &Json, key: &str, expected: &str) -> (yes: bool)
    ensures
        yes == (json::tree_member(json::tree(*value), key@) == Some(Tree::Text(expected@))),
{
    match held_member(value, key) {
        Some(found) => json::text_is(found, expected),
        None => false,
    }
}

/// Whether a manifest, or what a server says of itself, names this commit and this
/// target.
pub fn verify_identity(value: &Json, commit: &str, target: &str) -> (yes: bool)
    ensures
        yes == identifies(json::tree(*value), commit@, target@),
{
    member_is(value, "commit", commit) && member_is(value, "target", target)
}

/// What is wrong with a bundle.
#[derive(Clone, Debug, PartialEq, Eq)]
pub enum IdentityError {
    /// The manifest is no document.
    ManifestDocument,
    /// The manifest names another commit or another target.
    Manifest,
    /// What this server prints is no document.
    ServerDocument(String),
    /// This server names another commit or another target.
    Server(String),
}

/// Checks that the manifest of a bundle names its commit and its target.
pub fn verify_manifest(manifest: &[u8], commit: &str, target: &str) -> (result: Result<
    (),
    IdentityError,
>)
    ensures
        result == (match documents::byte_tree(manifest@) {
            None => Err::<(), IdentityError>(IdentityError::ManifestDocument),
            Some(held) => if identifies(held, commit@, target@) {
                Ok(())
            } else {
                Err(IdentityError::Manifest)
            },
        }),
{
    match byte_document(manifest) {
        None => Err(IdentityError::ManifestDocument),
        Some(value) => if verify_identity(&value, commit, target) {
            Ok(())
        } else {
            Err(IdentityError::Manifest)
        },
    }
}

/// What a server prints names the commit and the target.
pub open spec fn is_own(printed: Seq<char>, commit: Seq<char>, target: Seq<char>) -> bool {
    documents::document_tree(printed) matches Some(held) && identifies(held, commit, target)
}

/// The first of the servers from `i` on that does not name the commit and the
/// target.
pub open spec fn first_stranger(
    servers: Seq<(String, String)>,
    commit: Seq<char>,
    target: Seq<char>,
    i: int,
) -> Option<int>
    decreases servers.len() - i,
{
    if i < 0 || i >= servers.len() {
        None
    } else if !is_own(servers[i].1@, commit, target) {
        Some(i)
    } else {
        first_stranger(servers, commit, target, i + 1)
    }
}

/// Checks that the servers of a bundle name its commit and its target in what they
/// print.
pub fn verify_servers(servers: &[(String, String)], commit: &str, target: &str) -> (result: Result<
    (),
    IdentityError,
>)
    ensures
        match (first_stranger(servers@, commit@, target@, 0), result) {
            (None, Ok(_)) => true,
            (Some(i), Err(IdentityError::ServerDocument(name))) => name@ == servers@[i].0@
                && documents::document_tree(servers@[i].1@) is None,
            (Some(i), Err(IdentityError::Server(name))) => name@ == servers@[i].0@
                && documents::document_tree(servers@[i].1@) is Some,
            _ => false,
        },
{
    let mut i: usize = 0;
    while i < servers.len()
        invariant
            i <= servers@.len(),
            first_stranger(servers@, commit@, target@, 0) == first_stranger(
                servers@,
                commit@,
                target@,
                i as int,
            ),
        decreases servers.len() - i,
    {
        match document(&servers[i].1) {
            None => {
                return Err(IdentityError::ServerDocument(copied(&servers[i].0)));
            },
            Some(value) => {
                if !verify_identity(&value, commit, target) {
                    return Err(IdentityError::Server(copied(&servers[i].0)));
                }
            },
        }
        i += 1;
    }
    Ok(())
}

/// What servers print of themselves, under their names.
pub open spec fn printed_trees(servers: Seq<(String, String)>) -> Seq<(Seq<char>, Tree)> {
    servers.map_values(
        |s: (String, String)| (s.0@, documents::document_tree(s.1@)->Some_0),
    )
}

/// The first of the servers from `i` on that prints no document.
pub open spec fn first_silent(servers: Seq<(String, String)>, i: int) -> Option<int>
    decreases servers.len() - i,
{
    if i < 0 || i >= servers.len() {
        None
    } else if documents::document_tree(servers[i].1@) is None {
        Some(i)
    } else {
        first_silent(servers, i + 1)
    }
}

/// What servers print of themselves as one value, under their names.
pub fn server_identities(servers: &[(String, String)]) -> (result: Result<Json, IdentityError>)
    ensures
        match (first_silent(servers@, 0), result) {
            (None, Ok(value)) => json::tree(value) == Tree::Object(
                json::gathered(printed_trees(servers@)),
            ),
            (Some(i), Err(IdentityError::ServerDocument(name))) => name@ == servers@[i].0@,
            _ => false,
        },
{
    let ghost all = printed_trees(servers@);
    let mut members = no_members();
    let mut i: usize = 0;
    assert(all.take(0) =~= Seq::empty());
    while i < servers.len()
        invariant
            i <= servers@.len(),
            all == printed_trees(servers@),
            json::member_trees(members@) == all.take(i as int),
            first_silent(servers@, 0) == first_silent(servers@, i as int),
        decreases servers.len() - i,
    {
        match document(&servers[i].1) {
            None => {
                return Err(IdentityError::ServerDocument(copied(&servers[i].0)));
            },
            Some(value) => {
                add_member(&mut members, &servers[i].0, value);
                assert(json::member_trees(members@) =~= all.take(i + 1));
            },
        }
        i += 1;
    }
    assert(all.take(i as int) =~= all);
    Ok(object_of(members))
}

/// A manifest that was written identifies its bundle.
pub proof fn written_manifest_identifies(
    id: Identity,
    servers: Tree,
    extension: Tree,
    files: Seq<FileRecord>,
)
    ensures
        identifies(manifest_tree(id, servers, extension, files), id.commit@, id.target.triple@),
{
    reveal_strlit("commit");
    reveal_strlit("dirty");
    reveal_strlit("target");
    reveal_strlit("platform");
    reveal_strlit("source_date_epoch");
    reveal_strlit("created");
    reveal_strlit("servers");
    reveal_strlit("extension");
    reveal_strlit("files");
    let members = manifest_members(id, servers, extension, files);
    assert(members.len() == 12);
    assert(members[3] == ("commit"@, Tree::Text(id.commit@)));
    assert(members[4].0 == "dirty"@);
    assert(members[5] == ("target"@, Tree::Text(id.target.triple@)));
    assert(members[5].0[0] == 't');
    assert(members[6].0 == "platform"@);
    assert(members[7].0 == "source_date_epoch"@);
    assert(members[8].0 == "created"@);
    assert(members[9].0 == "servers"@);
    assert(members[10].0 == "extension"@);
    assert(members[11].0 == "files"@);
    assert forall|j: int| 5 < j < 12 implies (#[trigger] members[j]).0.len() != 6 by {}
    json::gathered_member_is_found(members, 3);
    json::gathered_member_is_found(members, 5);
}

/// The manifest of a bundle is well formed, if what it is given is.
pub proof fn manifest_is_well_formed(
    id: Identity,
    servers: Tree,
    extension: Tree,
    files: Seq<FileRecord>,
)
    requires
        json::well_formed(servers),
        json::well_formed(extension),
    ensures
        json::well_formed(manifest_tree(id, servers, extension, files)),
{
    let records = record_trees(files);
    assert forall|i: int| 0 <= i < records.len() implies json::well_formed(#[trigger] records[i]) by {
        let r = files[i];
        json::gathered_is_well_formed(
            Seq::empty().push(("path"@, Tree::Text(r.path@))).push(
                ("bytes"@, Tree::Unsigned(r.bytes)),
            ).push(("sha256"@, Tree::Text(r.sha256@))),
        );
    }
    json::gathered_is_well_formed(manifest_members(id, servers, extension, files));
}

/// What the drill of a bundle leaves to be desired.
#[derive(Clone, Debug, PartialEq, Eq)]
pub enum DrillError {
    /// The installer made no link to this server.
    Link(String),
    /// The data or the configuration that was there is not what it was.
    Sentinels,
}

/// What stands in the data of the prefix before the drill.
pub const DATA_SENTINEL: &'static str = "data\n";

/// What stands in the configuration of the prefix before the drill.
pub const CONFIGURATION_SENTINEL: &'static str = "config\n";

/// The first of the servers from `i` on to which there is no link.
pub open spec fn first_unlinked(linked: Seq<bool>, i: int) -> Option<int>
    decreases linked.len() - i,
{
    if i < 0 || i >= linked.len() {
        None
    } else if !linked[i] {
        Some(i)
    } else {
        first_unlinked(linked, i + 1)
    }
}

/// Checks an installation: there is a link to each server.
pub fn check_links(binaries: &[String], linked: &[bool]) -> (result: Result<(), DrillError>)
    requires
        binaries@.len() == linked@.len(),
    ensures
        match (first_unlinked(linked@, 0), result) {
            (None, Ok(_)) => true,
            (Some(i), Err(DrillError::Link(name))) => name@ == binaries@[i]@,
            _ => false,
        },
{
    let mut i: usize = 0;
    while i < linked.len()
        invariant
            i <= linked@.len(),
            binaries@.len() == linked@.len(),
            first_unlinked(linked@, 0) == first_unlinked(linked@, i as int),
        decreases linked.len() - i,
    {
        if !linked[i] {
            return Err(DrillError::Link(copied(&binaries[i])));
        }
        i += 1;
    }
    Ok(())
}

/// Checks what is left after the bundle is removed again: the data and the
/// configuration of the prefix are what they were.
pub fn check_sentinels(data: &str, configuration: &str) -> (result: Result<(), DrillError>)
    ensures
        result is Ok <==> data@ == DATA_SENTINEL@ && configuration@ == CONFIGURATION_SENTINEL@,
        result matches Err(e) ==> e == DrillError::Sentinels,
{
    if same_text(data, DATA_SENTINEL) && same_text(configuration, CONFIGURATION_SENTINEL) {
        Ok(())
    } else {
        Err(DrillError::Sentinels)
    }
}

/// A file name is that of an archive.
pub open spec fn is_archive(name: Seq<char>) -> bool {
    text::begins_with(name, "timeless-telemetry-data-plane-"@) && text::ends_in(name, ".tar.gz"@)
}

/// The archives among file names, in order.
pub fn outer_archives(names: &[String]) -> (list: Vec<String>)
    ensures
        order::ascending(text::texts(list@)),
        forall|x: Seq<char>| #[trigger]
            text::texts(list@).contains(x) <==> text::texts(names@).contains(x) && is_archive(x),
{
    let mut list: Vec<String> = Vec::new();
    let mut i: usize = 0;
    assert(text::texts(names@.take(0)) =~= Seq::empty());
    while i < names.len()
        invariant
            i <= names@.len(),
            order::ascending(text::texts(list@)),
            forall|x: Seq<char>| #[trigger]
                text::texts(list@).contains(x) <==> text::texts(names@.take(i as int)).contains(x)
                    && is_archive(x),
        decreases names.len() - i,
    {
        let name = &names[i];
        let kept = starts_with(name, "timeless-telemetry-data-plane-") && ends_with(
            name,
            ".tar.gz",
        );
        proof {
            assert(text::texts(names@.take(i + 1)) =~= text::texts(names@.take(i as int)).push(
                name@,
            ));
            text_joins(text::texts(names@.take(i as int)), name@);
        }
        let ghost before = text::texts(list@);
        if kept {
            put_text(&mut list, name);
        }
        i += 1;
        assert forall|x: Seq<char>| #[trigger]
            text::texts(list@).contains(x) <==> text::texts(names@.take(i as int)).contains(x)
                && is_archive(x) by {
            assert(before.contains(x) <==> text::texts(names@.take(i - 1)).contains(x)
                && is_archive(x));
        }
    }
    assert(names@.take(i as int) =~= names@);
    list
}

proof fn text_joins(list: Seq<Seq<char>>, last: Seq<char>)
    ensures
        forall|x: Seq<char>| #[trigger]
            list.push(last).contains(x) <==> list.contains(x) || x == last,
{
    let all = list.push(last);
    assert forall|x: Seq<char>| all.contains(x) <==> list.contains(x) || x == last by {
        if all.contains(x) {
            let i = choose|i: int| 0 <= i < all.len() && all[i] == x;
            if i < list.len() {
                assert(list[i] == x);
            }
        }
        if list.contains(x) {
            let i = choose|i: int| 0 <= i < list.len() && list[i] == x;
            assert(all[i] == x);
        }
        if x == last {
            assert(all[list.len() as int] == x);
        }
    }
}

} // verus!
