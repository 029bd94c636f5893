//! What holds of every inventory, oracle manifest, process status and crash workload.
use crate::crash;
use crate::documents;
use crate::fixture_build::{self, MemoryValue, RichProbe};
use crate::inventory::{self, Inventory, Target};
use crate::json::{self, Tree};
use crate::oracle_manifest::{self, OracleDefinition, OracleManifest};
use crate::probes;
use crate::text;
use vstd::prelude::*;

verus! {

proof fn checked_targets_are_known(targets: Seq<Target>, from: int)
    requires
        0 <= from,
    ensures
        inventory::targets_outcome(targets, from) is Ok <==> (forall|i: int|
            from <= i < targets.len() ==> target_is_known(#[trigger] targets[i])),
    decreases targets.len() - from,
{
    if from < targets.len() {
        checked_targets_are_known(targets, from + 1);
        if target_is_known(targets[from]) {
            assert forall|i: int|
                from <= i < targets.len() && (forall|k: int|
                    from + 1 <= k < targets.len() ==> target_is_known(
                        #[trigger] targets[k],
                    )) implies target_is_known(#[trigger] targets[i]) by {}
        }
    }
}

/// A target has the suffix of a shared library and one of the two platforms.
pub open spec fn target_is_known(t: Target) -> bool {
    &&& t.extension_suffix@ == "so"@ || t.extension_suffix@ == "dylib"@
    &&& t.platform@ == "linux"@ || t.platform@ == "macos"@
}

/// An inventory is valid exactly where its schema is the first, no section is empty, no
/// binary, triple or fixed file is empty or stands twice, and each target is known.
pub proof fn valid_inventories_are_sound(inv: Inventory)
    ensures
        inv.verdict() is Ok <==> {
            &&& inv.schema == 1
            &&& inv.binaries@.len() > 0
            &&& inv.targets@.len() > 0
            &&& inv.fixed_files@.len() > 0
            &&& stands_once(inv.binaries@.map_values(|s: String| s@))
            &&& stands_once(inv.targets@.map_values(|t: Target| t.triple@))
            &&& stands_once(inv.fixed_files@.map_values(|s: String| s@))
            &&& forall|i: int|
                0 <= i < inv.targets@.len() ==> target_is_known(#[trigger] inv.targets@[i])
        },
{
    let b = inv.binaries@.map_values(|s: String| s@);
    let t = inv.targets@.map_values(|t: Target| t.triple@);
    let f = inv.fixed_files@.map_values(|s: String| s@);
    assert(b =~= text::texts(inv.binaries@));
    assert(t =~= inventory::triples(inv.targets@));
    assert(f =~= text::texts(inv.fixed_files@));
    inventory::unique_values_differ(b);
    inventory::unique_values_differ(t);
    inventory::unique_values_differ(f);
    checked_targets_are_known(inv.targets@, 0);
}

/// No text is empty or stands twice.
pub open spec fn stands_once(list: Seq<Seq<char>>) -> bool {
    &&& forall|i: int| 0 <= i < list.len() ==> (#[trigger] list[i]).len() > 0
    &&& list.no_duplicates()
}

/// A target is found by its triple: the first that has it, and none only where no target
/// has it.
pub proof fn targets_are_found_by_triple(targets: Seq<Target>, triple: Seq<char>, from: int)
    requires
        0 <= from,
    ensures
        match inventory::found_target(targets, triple, from) {
            Some(k) => {
                &&& from <= k < targets.len()
                &&& targets[k].triple@ == triple
                &&& forall|i: int| from <= i < k ==> (#[trigger] targets[i]).triple@ != triple
            },
            None => forall|i: int|
                from <= i < targets.len() ==> (#[trigger] targets[i]).triple@ != triple,
        },
    decreases targets.len() - from,
{
    if from < targets.len() && targets[from].triple@ != triple {
        targets_are_found_by_triple(targets, triple, from + 1);
    }
}

/// The peak that a status gives is that of the first line that states one.
pub proof fn the_first_peak_counts(lines: Seq<Seq<char>>)
    ensures
        match fixture_build::first_peak(lines) {
            Some(n) => exists|k: int|
                0 <= k < lines.len() && fixture_build::memory_at(#[trigger] lines[k], "VmHWM:"@)
                    == MemoryValue::Kib(n) && forall|i: int|
                    0 <= i < k ==> !(fixture_build::memory_at(
                        #[trigger] lines[i],
                        "VmHWM:"@,
                    ) is Kib),
            None => forall|i: int|
                0 <= i < lines.len() ==> !(fixture_build::memory_at(
                    #[trigger] lines[i],
                    "VmHWM:"@,
                ) is Kib),
        },
    decreases lines.len(),
{
    if lines.len() > 0 {
        let rest = lines.drop_first();
        if fixture_build::memory_at(lines[0], "VmHWM:"@) is Kib {
            assert(fixture_build::memory_at(lines[0], "VmHWM:"@) == MemoryValue::Kib(
                fixture_build::first_peak(lines)->Some_0,
            ));
        } else {
            the_first_peak_counts(rest);
            match fixture_build::first_peak(rest) {
                Some(n) => {
                    let k = choose|k: int|
                        0 <= k < rest.len() && fixture_build::memory_at(
                            #[trigger] rest[k],
                            "VmHWM:"@,
                        ) == MemoryValue::Kib(n) && forall|i: int|
                            0 <= i < k ==> !(fixture_build::memory_at(
                                #[trigger] rest[i],
                                "VmHWM:"@,
                            ) is Kib);
                    assert(lines[k + 1] == rest[k]);
                    assert forall|i: int| 0 <= i < k + 1 implies !(fixture_build::memory_at(
                        #[trigger] lines[i],
                        "VmHWM:"@,
                    ) is Kib) by {
                        if i > 0 {
                            assert(lines[i] == rest[i - 1]);
                        }
                    }
                },
                None => {
                    assert forall|i: int| 0 <= i < lines.len() implies !(fixture_build::memory_at(
                        #[trigger] lines[i],
                        "VmHWM:"@,
                    ) is Kib) by {
                        if i > 0 {
                            assert(lines[i] == rest[i - 1]);
                        }
                    }
                },
            }
        }
    }
}

/// A measure of a status is that of the last line that states it: one more line replaces
/// what was read where it states the measure, and leaves it otherwise.
pub proof fn the_last_measure_counts(lines: Seq<Seq<char>>, line: Seq<char>, prefix: Seq<char>)
    ensures
        fixture_build::memory_at(line, prefix) matches MemoryValue::Kib(n) ==> probes::last_kib(
            lines.push(line),
            prefix,
        ) == Some(n),
        !(fixture_build::memory_at(line, prefix) is Kib) ==> probes::last_kib(
            lines.push(line),
            prefix,
        ) == probes::last_kib(lines, prefix),
        probes::last_kib(Seq::empty(), prefix) is None,
{
    assert(lines.push(line).drop_last() =~= lines);
    assert(lines.push(line).last() == line);
}

/// One more line of a status changes the resident memory where it states that, the peak
/// where it states that, and nothing else; a line without a readable number spoils the
/// whole status.
pub proof fn memory_is_read_line_by_line(lines: Seq<Seq<char>>, line: Seq<char>)
    ensures
        ({
            let before = fixture_build::memory_of(lines);
            let after = fixture_build::memory_of(lines.push(line));
            let rss = fixture_build::memory_at(line, "VmRSS:"@);
            let hwm = fixture_build::memory_at(line, "VmHWM:"@);
            &&& after is None <==> (before is None || rss is Blank || rss is Unreadable
                || hwm is Blank || hwm is Unreadable)
            &&& after is Some && rss is Kib ==> after->Some_0.rss_kib == Some(rss->Kib_0)
            &&& after is Some && rss is Absent ==> after->Some_0.rss_kib == before->Some_0.rss_kib
            &&& after is Some && hwm is Kib ==> after->Some_0.hwm_kib == Some(hwm->Kib_0)
            &&& after is Some && hwm is Absent ==> after->Some_0.hwm_kib == before->Some_0.hwm_kib
        }),
{
    assert(lines.push(line).drop_last() =~= lines);
    assert(lines.push(line).last() == line);
}

/// A first span comes back whole exactly where its service, its five documents, its state
/// and flags, its dropped counts and its schemas are those that it was written with.
pub proof fn whole_probes_keep_everything(p: RichProbe)
    ensures
        p.fault() is None <==> {
            &&& p.service@ == "bench"@
            &&& keeps_attributes(p.attributes@)
            &&& keeps_event(p.events@)
            &&& keeps_resource(p.resource@)
            &&& keeps_scope(p.scope@)
            &&& keeps_link(p.links@)
            &&& p.trace_state@ == "bench=root"@
            &&& p.trace_flags == 0xffff_ffff
            &&& p.dropped_attributes == 1
            &&& p.dropped_events == 2
            &&& p.dropped_links == 3
            &&& p.resource_schema_url@ == "https://example.test/resource/1"@
            &&& p.scope_schema_url@ == "https://example.test/scope/2"@
            &&& p.resource_dropped_attributes == 4
            &&& p.scope_dropped_attributes == 5
        },
{
}

/// The attributes hold the nested text.
pub open spec fn keeps_attributes(document: Seq<char>) -> bool {
    &&& documents::document_tree(document) matches Some(held)
    &&& json::tree_member(held, "nested"@) matches Some(nested)
    &&& json::tree_member(nested, "unicode"@) == Some(Tree::Text("空🔥"@))
}

/// The first event is the exception.
pub open spec fn keeps_event(document: Seq<char>) -> bool {
    &&& documents::document_tree(document) matches Some(held)
    &&& json::tree_items(held) matches Some(list)
    &&& list.len() > 0
    &&& json::tree_member(list[0], "name"@) == Some(Tree::Text("exception"@))
}

/// The resource names the environment.
pub open spec fn keeps_resource(document: Seq<char>) -> bool {
    &&& documents::document_tree(document) matches Some(held)
    &&& json::tree_member(held, "deployment.environment"@) == Some(Tree::Text("baseline"@))
}

/// The scope has its name and its attribute, which is false.
pub open spec fn keeps_scope(document: Seq<char>) -> bool {
    &&& documents::document_tree(document) matches Some(held)
    &&& json::tree_member(held, "name"@) == Some(Tree::Text("trace-baseline"@))
    &&& json::tree_member(held, "attributes"@) matches Some(attributes)
    &&& json::tree_member(attributes, "debug"@) == Some(Tree::Bool(false))
}

/// The first link states its reason.
pub open spec fn keeps_link(document: Seq<char>) -> bool {
    &&& documents::document_tree(document) matches Some(held)
    &&& json::tree_items(held) matches Some(list)
    &&& list.len() > 0
    &&& json::tree_member(list[0], "attributes"@) matches Some(attributes)
    &&& json::tree_member(attributes, "reason"@) == Some(Tree::Text("baseline"@))
}

proof fn oracle_errors_only_grow(
    before: Seq<Seq<char>>,
    oracles: Seq<(String, OracleDefinition)>,
    k: int,
    n: int,
    docs: Seq<char>,
    existing: Seq<String>,
)
    requires
        0 <= k <= n,
    ensures
        oracle_manifest::all_oracle_errors(before, oracles, k, docs, existing).len()
            <= oracle_manifest::all_oracle_errors(before, oracles, n, docs, existing).len(),
        before.len() <= oracle_manifest::all_oracle_errors(
            before,
            oracles,
            k,
            docs,
            existing,
        ).len(),
    decreases n,
{
    if k < n {
        oracle_errors_only_grow(before, oracles, k, n - 1, docs, existing);
    } else if k > 0 {
        oracle_errors_only_grow(before, oracles, k - 1, k - 1, docs, existing);
    }
}

proof fn fixtures_without_errors_exist(
    prefix: Seq<char>,
    fixtures: Seq<String>,
    existing: Seq<String>,
    j: int,
)
    requires
        oracle_manifest::fixture_errors(prefix, fixtures, existing).len() == 0,
        0 <= j < fixtures.len(),
    ensures
        text::texts(existing).contains(fixtures[j]@),
    decreases fixtures.len(),
{
    if j < fixtures.len() - 1 {
        fixtures_without_errors_exist(prefix, fixtures.drop_last(), existing, j);
    }
}

/// A manifest without errors is of the first schema and names the three engines and no
/// other. Each has a text by which its version is known, every file of its fixtures
/// exists, and its version, commit, image and digest stand in the documentation.
pub proof fn accepted_manifests_are_documented(
    manifest: OracleManifest,
    docs: Seq<char>,
    existing: Seq<String>,
    i: int,
    j: int,
)
    requires
        oracle_manifest::manifest_errors(manifest, docs, existing).len() == 0,
        0 <= i < manifest.oracles@.len(),
    ensures
        manifest.schema_version == 1,
        manifest.oracles@[i].0@ == "prometheus"@ || manifest.oracles@[i].0@ == "victoriametrics"@
            || manifest.oracles@[i].0@ == "victorialogs"@,
        manifest.oracles@[i].1.version_contains@.len() > 0,
        manifest.oracles@[i].1.version@.len() == 0 || text::occurs_in(
            docs,
            manifest.oracles@[i].1.version@,
        ),
        manifest.oracles@[i].1.source_commit@.len() == 0 || text::occurs_in(
            docs,
            manifest.oracles@[i].1.source_commit@,
        ),
        manifest.oracles@[i].1.image@.len() == 0 || text::occurs_in(
            docs,
            manifest.oracles@[i].1.image@,
        ),
        manifest.oracles@[i].1.linux_amd64_digest@.len() == 0 || text::occurs_in(
            docs,
            manifest.oracles@[i].1.linux_amd64_digest@,
        ),
        0 <= j < manifest.oracles@[i].1.fixtures@.len() ==> text::texts(existing).contains(
            manifest.oracles@[i].1.fixtures@[j]@,
        ),
{
    let oracles = manifest.oracles@;
    let first = oracle_manifest::error_if(
        manifest.schema_version != 1,
        ""@,
        "manifest schema_version must be 1"@,
    );
    let n = oracles.len() as int;
    assert(oracle_manifest::has_wanted_oracles(oracles));
    assert(oracle_manifest::is_wanted(oracles[i].0@));
    oracle_errors_only_grow(first, oracles, i + 1, n, docs, existing);
    let (name, oracle) = oracles[i];
    let prefix = "oracle "@ + name@;
    if 0 <= j < oracle.fixtures@.len() {
        fixtures_without_errors_exist(prefix, oracle.fixtures@, existing, j);
    }
}

/// An oracle is run by its own image, for one platform, and with the further arguments
/// last.
pub proof fn containers_run_their_image(oracle: OracleDefinition, extra: Seq<String>)
    ensures
        ({
            let words = oracle_manifest::container_words(oracle, extra);
            let at = words.len() - extra.len() - 1;
            &&& at == 4 || at == 6
            &&& words[0] == "run"@
            &&& words[1] == "--rm"@
            &&& words[2] == "--platform"@
            &&& words[3] == "linux/amd64"@
            &&& words[at] == oracle.image@
            &&& at == 4 <==> oracle.version_entrypoint@.len() == 0
            &&& at == 6 ==> words[4] == "--entrypoint"@ && words[5] == oracle.version_entrypoint@
            &&& forall|k: int|
                0 <= k < extra.len() ==> #[trigger] words[at + 1 + k] == extra[k]@
        }),
{
    let words = oracle_manifest::container_words(oracle, extra);
    let at = words.len() - extra.len() - 1;
    assert forall|k: int| 0 <= k < extra.len() implies #[trigger] words[at + 1 + k]
        == extra[k]@ by {
        assert(text::texts(extra)[k] == extra[k]@);
    }
}

/// What a probe reports is a line that is not blank, and no line before it is anything
/// but blank; where all are, it reports nothing.
pub proof fn the_first_line_is_reported(lines: Seq<Seq<char>>)
    ensures
        (exists|k: int|
            0 <= k < lines.len() && oracle_manifest::first_line(lines) == #[trigger] lines[k]
                && text::trim(lines[k]).len() > 0 && forall|i: int|
                0 <= i < k ==> text::trim(#[trigger] lines[i]).len() == 0) || (
        oracle_manifest::first_line(lines).len() == 0 && forall|i: int|
            0 <= i < lines.len() ==> text::trim(#[trigger] lines[i]).len() == 0),
    decreases lines.len(),
{
    if lines.len() > 0 {
        if text::trim(lines[0]).len() > 0 {
            assert(oracle_manifest::first_line(lines) == lines[0]);
        } else {
            let rest = lines.drop_first();
            the_first_line_is_reported(rest);
            if forall|i: int| 0 <= i < rest.len() ==> text::trim(#[trigger] rest[i]).len() == 0 {
                assert forall|i: int| 0 <= i < lines.len() implies text::trim(
                    #[trigger] lines[i],
                ).len() == 0 by {
                    if i > 0 {
                        assert(lines[i] == rest[i - 1]);
                    }
                }
                assert(oracle_manifest::first_line(rest).len() == 0);
            } else {
                let k = choose|k: int|
                    0 <= k < rest.len() && oracle_manifest::first_line(rest) == #[trigger] rest[k]
                        && text::trim(rest[k]).len() > 0 && forall|i: int|
                        0 <= i < k ==> text::trim(#[trigger] rest[i]).len() == 0;
                assert(lines[k + 1] == rest[k]);
                assert forall|i: int| 0 <= i < k + 1 implies text::trim(
                    #[trigger] lines[i],
                ).len() == 0 by {
                    if i > 0 {
                        assert(lines[i] == rest[i - 1]);
                    }
                }
            }
        }
    }
}

/// Of four log entries in a row exactly the last of a full four is an error, and of five
/// spans in a row the first of a full five; a span has a description exactly where it is
/// an error.
pub proof fn errors_come_in_turn(group: nat, k: nat)
    ensures
        k < 4 ==> (crash::log_level(4 * group + k)@ == "error"@ <==> k == 3),
        k < 4 ==> (crash::log_level(4 * group + k)@ == "info"@ <==> k != 3),
        k < 5 ==> (crash::span_status(5 * group + k)@ == "error"@ <==> k == 0),
        k < 5 ==> (crash::span_status(5 * group + k)@ == "ok"@ <==> k != 0),
        k < 5 ==> (crash::span_description(5 * group + k)@.len() > 0 <==> k == 0),
{
    reveal_strlit("error");
    reveal_strlit("info");
    reveal_strlit("ok");
    reveal_strlit("crash-path");
    reveal_strlit("");
    assert("error"@.len() == 5 && "info"@.len() == 4 && "ok"@.len() == 2);
    if k < 4 {
        assert((4 * group + k) % 4 == k);
    }
    if k < 5 {
        assert((5 * group + k) % 5 == k);
    }
}

/// Spans of a workload start a nanosecond apart within a round, and a millisecond later in
/// the next; no two of a round start together.
pub proof fn spans_start_apart(round: nat, i: nat, j: nat)
    ensures
        crash::span_time(round, i) == crash::span_time(round, j) <==> i == j,
        crash::span_time(round, i + 1) == crash::span_time(round, i) + 1,
        crash::span_time(round + 1, i) == crash::span_time(round, i) + 1_000_000,
        crash::span_time(0, 0) == 1_700_000_000_000_000_000,
{
}

} // verus!
