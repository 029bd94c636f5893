use std::io::Read;
use timeless_tools::archive::{
    collect_sorted, deterministic_tar, file_mode, ArchiveError, Entry, EntryKind,
};
use timeless_tools::bundle::{
    build_environment, build_flags, bundle_directory, bundle_name, check_links, check_sentinels,
    created_text, extension_build, extension_name, host_target, manifest, may_write, notice_text,
    outer_archives, payload_files, relative_string, require_native_target, run, server_build,
    server_identities, source_epoch, stage_files, tree_state, verify_identity, verify_manifest, verify_servers, version_found,
    workspace_version, DrillError, FileRecord, HostError, Identity, IdentityError, ReleaseStep,
    TreeState, VersionError,
};
use timeless_tools::checksums::{
    check_line, check_sums, checksum_file, sha256, split_line, sum_paths, BundleFile, SumError,
};
use timeless_tools::inventory::{ensure_unique, Inventory, InventoryError, Target};
use timeless_tools::json::{object_of, Json};
use timeless_tools::sbom::{lock_checksums, make, spdx_id, LockedPackage, MetadataPackage, Notice};

fn entry(path: &str, kind: EntryKind, bytes: &[u8]) -> Entry {
    Entry { path: path.to_owned(), kind, bytes: bytes.to_vec() }
}

fn bundle() -> Vec<Entry> {
    vec![
        entry("", EntryKind::Directory, b""),
        entry("payload", EntryKind::File(0o600), b"timeless\n"),
    ]
}

#[test]
fn archive_is_byte_reproducible_and_normalized() {
    let source = bundle();
    let first = deterministic_tar("bundle", &source, 1_700_000_000).unwrap();
    let second = deterministic_tar("bundle", &source, 1_700_000_000).unwrap();
    assert_eq!(first, second);

    let decoder = flate2::read::GzDecoder::new(&first[..]);
    let mut archive = tar::Archive::new(decoder);
    let mut entries = archive.entries().unwrap();
    let root = entries.next().unwrap().unwrap();
    assert_eq!(root.path().unwrap(), std::path::Path::new("bundle"));
    assert_eq!(root.header().mode().unwrap(), 0o755);
    let mut payload = entries.next().unwrap().unwrap();
    assert_eq!(payload.path().unwrap(), std::path::Path::new("bundle/payload"));
    assert_eq!(payload.header().mode().unwrap(), 0o644);
    let mut contents = String::new();
    payload.read_to_string(&mut contents).unwrap();
    assert_eq!(contents, "timeless\n");
    assert!(entries.next().is_none());
}

#[test]
fn archives_do_not_depend_on_the_order_of_entries() {
    let mut source = vec![
        entry("", EntryKind::Directory, b""),
        entry("bin", EntryKind::Directory, b""),
        entry("bin/tool", EntryKind::File(0o700), b"run"),
        entry("bin-notes", EntryKind::File(0o644), b"notes"),
    ];
    let sorted: Vec<String> = collect_sorted(&source).iter().map(|e| e.path.clone()).collect();
    assert_eq!(sorted, ["", "bin", "bin/tool", "bin-notes"]);
    let first = deterministic_tar("b", &source, 7).unwrap();
    source.reverse();
    assert_eq!(deterministic_tar("b", &source, 7).unwrap(), first);
    assert_ne!(deterministic_tar("b", &source, 8).unwrap(), first);
    assert_ne!(deterministic_tar("c", &source, 7).unwrap(), first);
    let decoder = flate2::read::GzDecoder::new(&first[..]);
    let mut archive = tar::Archive::new(decoder);
    let headers: Vec<(String, u32, u64, u64, String)> = archive
        .entries()
        .unwrap()
        .map(|entry| {
            let entry = entry.unwrap();
            let header = entry.header();
            (
                entry.path().unwrap().to_string_lossy().into_owned(),
                header.mode().unwrap(),
                header.mtime().unwrap(),
                header.uid().unwrap(),
                header.username().unwrap().unwrap().to_owned(),
            )
        })
        .collect();
    assert_eq!(headers[2], ("b/bin/tool".to_owned(), 0o755, 7, 0, "root".to_owned()));
    assert_eq!(headers[3].1, 0o644);
}

#[test]
fn archives_refuse_links_and_devices() {
    let mut source = bundle();
    source.push(entry("link", EntryKind::Symlink, b""));
    assert_eq!(
        deterministic_tar("bundle", &source, 0),
        Err(ArchiveError::Symlink("link".to_owned()))
    );
    source[2].kind = EntryKind::Other;
    assert_eq!(
        deterministic_tar("bundle", &source, 0),
        Err(ArchiveError::Unsupported("link".to_owned()))
    );
    source[2] = entry("../escape", EntryKind::File(0o644), b"");
    assert_eq!(
        deterministic_tar("bundle", &source, 0),
        Err(ArchiveError::Path("../escape".to_owned()))
    );
    assert_eq!(file_mode(0o100), 0o755);
    assert_eq!(file_mode(0o677), 0o644);
}

#[test]
fn payloads_are_files_in_archive_order() {
    let source = vec![
        entry("lib/x", EntryKind::File(0o644), b""),
        entry("lib", EntryKind::Directory, b""),
        entry("a", EntryKind::File(0o644), b""),
    ];
    assert_eq!(payload_files(&source).unwrap(), ["a", "lib/x"]);
    let odd = vec![entry("pipe", EntryKind::Other, b"")];
    assert_eq!(payload_files(&odd), Err("pipe".to_owned()));
}

fn inventory() -> Inventory {
    let target = |triple: &str, suffix: &str, platform: &str| Target {
        triple: triple.to_owned(),
        extension_suffix: suffix.to_owned(),
        platform: platform.to_owned(),
    };
    Inventory {
        schema: 1,
        binaries: vec!["metrics-server".to_owned(), "logs-server".to_owned()],
        targets: vec![
            target("x86_64-unknown-linux-gnu", "so", "linux"),
            target("aarch64-apple-darwin", "dylib", "macos"),
        ],
        fixed_files: vec!["SBOM.spdx.json".to_owned()],
    }
}

#[test]
fn valid_inventories_are_accepted() {
    let inventory = inventory();
    assert_eq!(inventory.validate(), Ok(()));
    assert_eq!(inventory.target("aarch64-apple-darwin").unwrap().extension_suffix, "dylib");
    assert_eq!(
        inventory.target("riscv").unwrap_err(),
        InventoryError::Unsupported(
            "riscv".to_owned(),
            "x86_64-unknown-linux-gnu, aarch64-apple-darwin".to_owned()
        )
    );
}

#[test]
fn inventories_are_refused_for_each_fault() {
    let mut bad = inventory();
    bad.schema = 2;
    assert_eq!(bad.validate(), Err(InventoryError::Schema(2)));
    let mut bad = inventory();
    bad.fixed_files.clear();
    assert_eq!(bad.validate(), Err(InventoryError::EmptySection));
    let mut bad = inventory();
    bad.binaries.push("logs-server".to_owned());
    assert_eq!(
        bad.validate(),
        Err(InventoryError::Repeated("binary", "logs-server".to_owned()))
    );
    let mut bad = inventory();
    bad.targets[1].extension_suffix = "dll".to_owned();
    assert_eq!(
        bad.validate(),
        Err(InventoryError::Suffix("aarch64-apple-darwin".to_owned(), "dll".to_owned()))
    );
    let mut bad = inventory();
    bad.targets[0].platform = "bsd".to_owned();
    assert_eq!(
        bad.validate(),
        Err(InventoryError::Platform("x86_64-unknown-linux-gnu".to_owned(), "bsd".to_owned()))
    );
    assert_eq!(ensure_unique("kind", &["a", "b"]), Ok(()));
    assert_eq!(
        ensure_unique("kind", &["a", ""]),
        Err(InventoryError::Repeated("kind", String::new()))
    );
}

#[test]
fn spdx_identifiers_are_stable_and_safe() {
    assert_eq!(
        spdx_id("timeless ext/sys", "0.4.0", 7),
        "SPDXRef-Package-timeless-ext-sys-0.4.0-7"
    );
}

#[test]
fn spdx_identifiers_of_different_numbers_differ() {
    assert_ne!(spdx_id("a", "1-1", 1), spdx_id("a", "1", 11));
    assert_ne!(spdx_id("a-1", "1", 2), spdx_id("a", "1-1", 3));
}

#[test]
fn cargo_lock_checksum_keys_include_source() {
    let document: toml::Value = toml::from_str(
        r#"[[package]]
name = "crate"
version = "1.2.3"
source = "registry+https://example.invalid"
checksum = "abc"

[[package]]
name = "workspace"
version = "0.1.0"
"#,
    )
    .unwrap();
    let text = |value: &toml::Value, key: &str| {
        value.get(key).and_then(toml::Value::as_str).map(str::to_owned)
    };
    let packages: Vec<LockedPackage> = document
        .get("package")
        .and_then(toml::Value::as_array)
        .unwrap()
        .iter()
        .map(|package| LockedPackage {
            name: text(package, "name").unwrap(),
            version: text(package, "version").unwrap(),
            source: text(package, "source").unwrap_or_default(),
            checksum: text(package, "checksum"),
        })
        .collect();
    let checksums = lock_checksums(&packages);
    assert_eq!(checksums.len(), 1);
    assert_eq!(checksums[0].name, "crate");
    assert_eq!(checksums[0].version, "1.2.3");
    assert_eq!(checksums[0].source, "registry+https://example.invalid");
    assert_eq!(checksums[0].checksum, "abc");
}

fn package(name: &str, version: &str, source: Option<&str>, license: Option<&str>) -> MetadataPackage {
    MetadataPackage {
        name: name.to_owned(),
        version: version.to_owned(),
        source: source.map(str::to_owned),
        license: license.map(str::to_owned),
    }
}

fn field<'a>(value: &'a Json, key: &str) -> &'a Json {
    match value {
        Json::Object(members) => &members.iter().find(|member| member.0 == key).unwrap().1,
        _ => panic!("not an object"),
    }
}

fn text(value: &Json) -> &str {
    match value {
        Json::Text(text) => text,
        _ => panic!("not a text"),
    }
}

#[test]
fn every_package_stands_once_in_the_bill() {
    let packages = [
        package("zeta", "1.0.0", Some("registry"), Some("MIT")),
        package("alpha", "0.1.0", None, None),
        package("zeta", "1.0.0", Some("registry"), Some("Apache-2.0")),
        package("alpha", "0.1.0", Some("registry"), Some("MIT")),
    ];
    let locked = [LockedPackage {
        name: "zeta".to_owned(),
        version: "1.0.0".to_owned(),
        source: "registry".to_owned(),
        checksum: Some("abc".to_owned()),
    }];
    let (bill, notices) = make(&packages, &locked, "0.4.0", "c0ffee", "linux", "2026-01-01T00:00:00Z");
    assert_eq!(text(field(&bill, "name")), "timeless-telemetry-data-plane-0.4.0-linux");
    assert_eq!(
        text(field(&bill, "documentNamespace")),
        "https://timeless.dev/spdx/telemetry-data-plane/0.4.0/linux/c0ffee"
    );
    let list = match field(&bill, "packages") {
        Json::Array(list) => list,
        _ => panic!("not a list"),
    };
    assert_eq!(list.len(), 3);
    assert_eq!(text(field(&list[0], "SPDXID")), "SPDXRef-Package-alpha-0.1.0-1");
    assert_eq!(text(field(&list[0], "downloadLocation")), "NOASSERTION");
    assert_eq!(text(field(&list[1], "downloadLocation")), "registry");
    assert_eq!(text(field(&list[2], "licenseDeclared")), "Apache-2.0");
    match field(&list[2], "checksums") {
        Json::Array(sums) => assert_eq!(text(field(&sums[0], "checksumValue")), "abc"),
        _ => panic!("not a list"),
    }
    let sources: Vec<&str> = notices.iter().map(|notice| notice.source.as_str()).collect();
    assert_eq!(sources, ["workspace", "registry", "registry"]);
    assert_eq!(notices[0].license, "NOASSERTION");
}

#[test]
fn notices_are_listed_line_by_line() {
    let notice = Notice {
        name: "a".to_owned(),
        version: "1".to_owned(),
        license: "MIT".to_owned(),
        source: "workspace".to_owned(),
    };
    let written = notice_text(&[notice]);
    assert!(written.starts_with("Timeless telemetry data plane third-party license inventory\n"));
    assert!(written.ends_with("\n\na 1 | MIT | workspace\n"));
}

fn file(path: &str, bytes: &[u8]) -> BundleFile {
    BundleFile { path: path.to_owned(), bytes: bytes.to_vec() }
}

#[test]
fn digests_are_those_of_sha_256() {
    assert_eq!(
        sha256(b"abc"),
        "ba7816bf8f01cfea414140de5dae2223b00361a396177a9cb410ff61f20015ad"
    );
}

#[test]
fn written_checksums_are_met() {
    let files = vec![file("bin/tool", b"abc"), file("two  spaces", b"")];
    let sums = checksum_file(&files);
    assert_eq!(
        sums.lines().next().unwrap(),
        "ba7816bf8f01cfea414140de5dae2223b00361a396177a9cb410ff61f20015ad  bin/tool"
    );
    assert_eq!(
        sum_paths(&sums),
        [Some("bin/tool".to_owned()), Some("two  spaces".to_owned())]
    );
    let mut reads: Vec<_> = files.iter().map(|file| Some(file.bytes.clone())).collect();
    assert_eq!(check_sums(&sums, &reads), Ok(()));
    reads[1] = Some(b"changed".to_vec());
    assert_eq!(check_sums(&sums, &reads), Err(SumError::Mismatch("two  spaces".to_owned())));
    reads[1] = None;
    assert_eq!(check_sums(&sums, &reads), Err(SumError::Missing("two  spaces".to_owned())));
    reads.pop();
    assert_eq!(check_sums(&sums, &reads), Err(SumError::Missing("two  spaces".to_owned())));
    assert_eq!(check_sums("no gap\n", &reads), Err(SumError::Line(1)));
    assert_eq!(check_line("one gap", 3, &reads[0]), Err(SumError::Line(3)));
    assert_eq!(sum_paths("no gap\nx  ./a\n"), [None, Some("./a".to_owned())]);
    assert_eq!(split_line("a  b  c"), Some(("a".to_owned(), "b  c".to_owned())));
}

#[test]
fn the_source_decides_what_may_be_released() {
    assert_eq!(tree_state(" \n", false), TreeState::Clean);
    assert_eq!(tree_state(" M file\n", true), TreeState::Dirty);
    assert_eq!(tree_state(" M file\n", false), TreeState::Refused);
    assert!(may_write(false, false, false));
    assert!(!may_write(false, true, false));
    assert!(!may_write(false, false, true));
    assert!(may_write(true, true, true));
    assert_eq!(source_epoch("1700000000\n"), Some(1_700_000_000));
    assert_eq!(source_epoch("yesterday"), None);
    assert_eq!(source_epoch("18446744073709551616"), None);
    assert_eq!(created_text(1_700_000_000), Some("2023-11-14T22:13:20Z".to_owned()));
    assert_eq!(created_text(u64::MAX), Some("1969-12-31T23:59:59Z".to_owned()));
    assert_eq!(created_text(i64::MAX as u64), None);
    assert_eq!(bundle_name("0.4.0", "linux"), "timeless-telemetry-data-plane-0.4.0-linux");
}

#[test]
fn versions_come_from_the_workspace() {
    assert_eq!(
        workspace_version("[workspace.package]\nversion = \"0.4.0\"\n"),
        Ok("0.4.0".to_owned())
    );
    assert_eq!(workspace_version("[workspace]\n"), Err(VersionError::Missing));
    assert_eq!(workspace_version("[workspace"), Err(VersionError::Manifest));
    assert_eq!(version_found(Some(Some("1".to_owned()))), Ok("1".to_owned()));
    assert_eq!(version_found(Some(None)), Err(VersionError::Missing));
    assert_eq!(version_found(None), Err(VersionError::Manifest));
}

#[test]
fn bundles_are_built_on_their_target() {
    let printed = "rustc 1.90\nbinary: rustc\nhost: linux-gnu \nrelease: 1.90\n";
    assert_eq!(host_target(printed), Some("linux-gnu".to_owned()));
    assert_eq!(require_native_target(printed, "linux-gnu"), Ok(()));
    assert_eq!(
        require_native_target(printed, "darwin"),
        Err(HostError::Foreign("linux-gnu".to_owned()))
    );
    assert_eq!(require_native_target("rustc", "darwin"), Err(HostError::NoHost));
    assert_eq!(
        extension_build("darwin"),
        ["build", "--locked", "--release", "--target", "darwin", "-p", "timeless-ext"]
    );
    assert_eq!(server_build("darwin")[6], "darwin");
    assert_eq!(
        build_flags("", "/repo"),
        "--remap-path-prefix=/repo=/src/timeless-libsql"
    );
    assert_eq!(
        build_flags("-C x", "/repo"),
        "-C x --remap-path-prefix=/repo=/src/timeless-libsql"
    );
    let environment = build_environment("c0ffee", 7, "flags");
    assert_eq!(environment[1], ("SOURCE_DATE_EPOCH", "7".to_owned()));
    assert_eq!(environment[2], ("CARGO_INCREMENTAL", "0".to_owned()));
}

#[test]
fn every_server_is_staged_to_run() {
    let inventory = inventory();
    let target = &inventory.targets[1];
    assert_eq!(extension_name(target), "libtimeless_ext.dylib");
    let files = stage_files(&inventory, target);
    assert_eq!(files.len(), 6);
    assert_eq!(files[2].source, "target/aarch64-apple-darwin/release/libtimeless_ext.dylib");
    assert_eq!(files[3].destination, "bin/metrics-server");
    assert_eq!(files[3].mode, 0o755);
    assert_eq!(files[5].destination, "licenses/timeless-libsql-MIT.txt");
    assert_eq!(bundle_directory(0), Some("bin"));
    assert_eq!(bundle_directory(3), None);
}

#[test]
fn manifests_identify_their_bundles() {
    let id = Identity {
        version: "0.4.0".to_owned(),
        commit: "c0ffee".to_owned(),
        dirty: false,
        target: inventory().targets[0].clone(),
        epoch: 7,
        created: "1970-01-01T00:00:07Z".to_owned(),
    };
    let record = FileRecord { path: "a".to_owned(), bytes: 3, sha256: "s".to_owned() };
    let value = manifest(&id, Json::Object(vec![]), Json::Null, &[record]);
    let Json::Object(members) = &value else { panic!("no object") };
    assert_eq!(members.len(), 12);
    assert!(members.windows(2).all(|pair| pair[0].0 < pair[1].0));
    let twice = vec![
        ("b".to_owned(), Json::Unsigned(1)),
        ("a".to_owned(), Json::Unsigned(2)),
        ("b".to_owned(), Json::Unsigned(3)),
    ];
    let Json::Object(gathered) = object_of(twice) else { panic!("no object") };
    let shown: Vec<_> = gathered.iter().map(|(key, value)| format!("{key}={value:?}")).collect();
    assert_eq!(shown, ["a=Unsigned(2)", "b=Unsigned(3)"]);
    assert!(verify_identity(&value, "c0ffee", "x86_64-unknown-linux-gnu"));
    assert!(!verify_identity(&value, "c0ffee", "other"));
    assert!(!verify_identity(&value, "other", "x86_64-unknown-linux-gnu"));
    assert!(matches!(field(&value, "format_version"), Json::Unsigned(1)));
    let target = "x86_64-unknown-linux-gnu";
    let own = format!("{{\"commit\":\"c0ffee\",\"target\":\"{target}\"}}");
    assert_eq!(verify_manifest(own.as_bytes(), "c0ffee", target), Ok(()));
    assert_eq!(verify_manifest(own.as_bytes(), "other", target), Err(IdentityError::Manifest));
    assert_eq!(verify_manifest(b"c0ffee", "c0ffee", target), Err(IdentityError::ManifestDocument));
    let printed = |said: &str| vec![
        ("two".to_owned(), format!("{own}\n")),
        ("one".to_owned(), said.to_owned()),
    ];
    assert_eq!(verify_servers(&printed(&own), "c0ffee", target), Ok(()));
    assert_eq!(
        verify_servers(&printed("null"), "c0ffee", target),
        Err(IdentityError::Server("one".to_owned()))
    );
    assert_eq!(
        verify_servers(&printed("one 1.0"), "c0ffee", target),
        Err(IdentityError::ServerDocument("one".to_owned()))
    );
    let Ok(Json::Object(said)) = server_identities(&printed("1")) else { panic!("no object") };
    assert_eq!(said.iter().map(|(name, _)| name.as_str()).collect::<Vec<_>>(), ["one", "two"]);
    assert!(matches!(said[0].1, Json::Unsigned(1)));
    assert_eq!(
        server_identities(&printed("one 1.0")).unwrap_err(),
        IdentityError::ServerDocument("one".to_owned())
    );
}

#[test]
fn drills_leave_the_prefix_as_it_was() {
    let names = vec!["one".to_owned(), "two".to_owned()];
    assert_eq!(check_links(&names, &[true, true]), Ok(()));
    assert_eq!(check_links(&names, &[true, false]), Err(DrillError::Link("two".to_owned())));
    assert_eq!(check_sentinels("data\n", "config\n"), Ok(()));
    assert_eq!(check_sentinels("data\n", "other\n"), Err(DrillError::Sentinels));
}

#[test]
fn archives_are_listed_in_order() {
    let names = vec![
        "timeless-telemetry-data-plane-b.tar.gz".to_owned(),
        "SHA256SUMS".to_owned(),
        "timeless-telemetry-data-plane-a.tar.gz".to_owned(),
        "timeless-telemetry-data-plane-a".to_owned(),
    ];
    assert_eq!(
        outer_archives(&names),
        ["timeless-telemetry-data-plane-a.tar.gz", "timeless-telemetry-data-plane-b.tar.gz"]
    );
}

#[test]
fn paths_are_taken_from_the_bundle_on() {
    assert_eq!(relative_string("/out/bundle", "/out/bundle/bin/tool"), Some("bin/tool".to_owned()));
    assert_eq!(relative_string("/out/bundle/", "/out/bundle"), Some(String::new()));
    assert_eq!(relative_string("/out/bundle", "/out/bundled"), None);
}

#[test]
fn releases_stage_before_they_remove() {
    let mut steps = Vec::new();
    while let Some(step) = run(steps.len()) {
        steps.push(step);
    }
    let place = |step: ReleaseStep| steps.iter().position(|other| *other == step).unwrap();
    assert_eq!(steps.len(), 19);
    assert!(place(ReleaseStep::Stage) < place(ReleaseStep::RemoveBundle));
    assert!(place(ReleaseStep::Verify) < place(ReleaseStep::Report));
}
