//! The manifest of the query oracles, and the containers that run them.
use crate::json::copied;
use crate::order::holds_text;
use crate::text::{self, chars_of, contains_text, ends_with, lines_of, push_decimal, same_text, trim_text};
use vstd::prelude::*;
use vstd::string::*;

verus! {

/// One oracle: a pinned image of a query engine.
pub struct OracleDefinition {
    pub language: String,
    pub role: String,
    pub version: String,
    pub source_commit: String,
    pub image: String,
    pub linux_amd64_digest: String,
    pub version_entrypoint: String,
    pub version_args: Vec<String>,
    pub version_contains: String,
    pub fixtures: Vec<String>,
}

/// The oracles by name.
pub struct OracleManifest {
    pub schema_version: u64,
    pub selected_at: String,
    pub oracles: Vec<(String, OracleDefinition)>,
}

/// The pattern of a commit.
pub const COMMIT: &'static str = r"^[0-9a-f]{40}$";

/// The pattern of a digest.
pub const DIGEST: &'static str = r"^sha256:[0-9a-f]{64}$";

/// A hexadecimal digit in lower case.
pub open spec fn is_low_hex(c: char) -> bool {
    '0' <= c <= '9' || 'a' <= c <= 'f'
}

/// Hexadecimal digits in lower case only.
pub open spec fn all_low_hex(s: Seq<char>) -> bool {
    forall|i: int| 0 <= i < s.len() ==> is_low_hex(#[trigger] s[i])
}

/// A commit in full: forty hexadecimal digits in lower case.
pub open spec fn is_commit(s: Seq<char>) -> bool {
    s.len() == 40 && all_low_hex(s)
}

/// A digest: `sha256:` and 64 hexadecimal digits in lower case.
pub open spec fn is_digest(s: Seq<char>) -> bool {
    &&& text::begins_with(s, "sha256:"@)
    &&& s.len() == "sha256:"@.len() + 64
    &&& all_low_hex(s.skip("sha256:"@.len() as int))
}

/// `regex::Regex::new` and `Regex::is_match`, for the patterns of a commit and of
/// a digest. Both patterns are valid, and both are anchored: `^` and `$` match at
/// the start and at the end of the text alone. So the whole text must have the
/// shape that the pattern writes down.
#[verifier::external_body]
fn matches_pattern(pattern: &'static str, text: &str) -> (found: bool)
    requires
        pattern == COMMIT || pattern == DIGEST,
    ensures
        pattern == COMMIT ==> found == is_commit(text@),
        pattern == DIGEST ==> found == is_digest(text@),
{
    regex::Regex::new(pattern).unwrap().is_match(text)
}

/// The image is pinned by a digest.
pub open spec fn is_pinned(image: Seq<char>) -> bool {
    text::occurs_in(image, "@sha256:"@) && !text::ends_in(image, "@"@)
}

/// The image can move to another content.
pub open spec fn is_floating(image: Seq<char>) -> bool {
    text::occurs_in(image, ":latest"@) || !text::occurs_in(image, "@"@)
}

/// A list of one error, or none.
pub open spec fn error_if(wrong: bool, prefix: Seq<char>, tail: Seq<char>) -> Seq<Seq<char>> {
    if wrong {
        seq![prefix + tail]
    } else {
        Seq::empty()
    }
}

/// The field is named in the documentation, unless it is empty.
pub open spec fn undocumented(field: Seq<char>, docs: Seq<char>) -> bool {
    field.len() > 0 && !text::occurs_in(docs, field)
}

/// The error of a field that the documentation does not name.
pub open spec fn docs_error(prefix: Seq<char>, field: Seq<char>, docs: Seq<char>) -> Seq<Seq<char>> {
    error_if(undocumented(field, docs), prefix, ": docs/QUERY_ORACLES.md is missing "@ + field)
}

/// The errors of fixtures that do not exist.
pub open spec fn fixture_errors(
    prefix: Seq<char>,
    fixtures: Seq<String>,
    existing: Seq<String>,
) -> Seq<Seq<char>>
    decreases fixtures.len(),
{
    if fixtures.len() == 0 {
        Seq::empty()
    } else {
        fixture_errors(prefix, fixtures.drop_last(), existing) + error_if(
            !text::texts(existing).contains(fixtures.last()@),
            prefix,
            ": missing fixture "@ + fixtures.last()@,
        )
    }
}

/// The images of oracles.
pub open spec fn images(oracles: Seq<(String, OracleDefinition)>) -> Seq<Seq<char>> {
    oracles.map_values(|o: (String, OracleDefinition)| o.1.image@)
}

/// Errors, followed by those of one oracle.
pub open spec fn with_oracle_errors(
    before: Seq<Seq<char>>,
    oracles: Seq<(String, OracleDefinition)>,
    i: int,
    docs: Seq<char>,
    existing: Seq<String>,
) -> Seq<Seq<char>> {
    let (name, oracle) = oracles[i];
    let prefix = "oracle "@ + name@;
    before + error_if(
        !is_pinned(oracle.image@),
        prefix,
        ": image must use an immutable sha256 digest"@,
    ) + error_if(
        is_floating(oracle.image@),
        prefix,
        ": floating image reference is forbidden"@,
    ) + error_if(
        images(oracles.take(i)).contains(oracle.image@),
        prefix,
        ": duplicate image pin"@,
    ) + error_if(
        !is_commit(oracle.source_commit@),
        prefix,
        ": source_commit must be a 40-character lowercase SHA"@,
    ) + error_if(
        !is_digest(oracle.linux_amd64_digest@),
        prefix,
        ": linux_amd64_digest must be sha256:<64 hex>"@,
    ) + error_if(
        oracle.version_contains@.len() == 0,
        prefix,
        ": version_contains is required"@,
    ) + docs_error(prefix, oracle.version@, docs) + docs_error(
        prefix,
        oracle.source_commit@,
        docs,
    ) + docs_error(prefix, oracle.image@, docs) + docs_error(
        prefix,
        oracle.linux_amd64_digest@,
        docs,
    ) + fixture_errors(prefix, oracle.fixtures@, existing)
}

/// Errors, followed by those of the first `n` oracles.
pub open spec fn all_oracle_errors(
    before: Seq<Seq<char>>,
    oracles: Seq<(String, OracleDefinition)>,
    n: int,
    docs: Seq<char>,
    existing: Seq<String>,
) -> Seq<Seq<char>>
    decreases n,
{
    if n <= 0 {
        before
    } else {
        with_oracle_errors(
            all_oracle_errors(before, oracles, n - 1, docs, existing),
            oracles,
            n - 1,
            docs,
            existing,
        )
    }
}

/// The names of oracles.
pub open spec fn names(oracles: Seq<(String, OracleDefinition)>) -> Seq<Seq<char>> {
    oracles.map_values(|o: (String, OracleDefinition)| o.0@)
}

/// The name of a wanted oracle.
pub open spec fn is_wanted(name: Seq<char>) -> bool {
    name == "prometheus"@ || name == "victoriametrics"@ || name == "victorialogs"@
}

/// Exactly the wanted oracles are there.
pub open spec fn has_wanted_oracles(oracles: Seq<(String, OracleDefinition)>) -> bool {
    &&& names(oracles).contains("prometheus"@)
    &&& names(oracles).contains("victoriametrics"@)
    &&& names(oracles).contains("victorialogs"@)
    &&& forall|i: int| 0 <= i < oracles.len() ==> is_wanted((#[trigger] oracles[i]).0@)
}

/// All errors of a manifest.
pub open spec fn manifest_errors(
    manifest: OracleManifest,
    docs: Seq<char>,
    existing: Seq<String>,
) -> Seq<Seq<char>> {
    let first = error_if(
        manifest.schema_version != 1,
        ""@,
        "manifest schema_version must be 1"@,
    );
    if has_wanted_oracles(manifest.oracles@) {
        all_oracle_errors(
            first,
            manifest.oracles@,
            manifest.oracles@.len() as int,
            docs,
            existing,
        )
    } else {
        first.push("manifest must define exactly prometheus, victoriametrics, and victorialogs"@)
    }
}

fn add_error(errors: &mut Vec<String>, wrong: bool, prefix: &str, tail: &str)
    ensures
        text::texts(final(errors)@) == text::texts(old(errors)@) + error_if(wrong, prefix@, tail@),
{
    if wrong {
        let mut error = String::new();
        error.append(prefix);
        error.append(tail);
        errors.push(error);
        assert(error@ =~= prefix@ + tail@);
    }
    assert(text::texts(errors@) =~= text::texts(old(errors)@) + error_if(wrong, prefix@, tail@));
}

fn add_docs_error(errors: &mut Vec<String>, prefix: &str, field: &str, docs: &str)
    ensures
        text::texts(final(errors)@) == text::texts(old(errors)@) + docs_error(
            prefix@,
            field@,
            docs@,
        ),
{
    let chars = chars_of(field);
    let mut tail = String::new();
    tail.append(": docs/QUERY_ORACLES.md is missing ");
    tail.append(field);
    assert(tail@ =~= ": docs/QUERY_ORACLES.md is missing "@ + field@);
    let wrong = chars.len() > 0 && !contains_text(docs, field);
    add_error(errors, wrong, prefix, &tail);
}

fn add_fixture_errors(
    errors: &mut Vec<String>,
    prefix: &str,
    fixtures: &Vec<String>,
    existing: &Vec<String>,
)
    ensures
        text::texts(final(errors)@) == text::texts(old(errors)@) + fixture_errors(
            prefix@,
            fixtures@,
            existing@,
        ),
{
    let mut i: usize = 0;
    assert(text::texts(errors@) =~= text::texts(old(errors)@) + fixture_errors(
        prefix@,
        fixtures@.take(0),
        existing@,
    ));
    while i < fixtures.len()
        invariant
            i <= fixtures@.len(),
            text::texts(errors@) == text::texts(old(errors)@) + fixture_errors(
                prefix@,
                fixtures@.take(i as int),
                existing@,
            ),
        decreases fixtures.len() - i,
    {
        let mut tail = String::new();
        tail.append(": missing fixture ");
        tail.append(&fixtures[i]);
        assert(tail@ =~= ": missing fixture "@ + fixtures@[i as int]@);
        add_error(errors, !holds_text(existing, &fixtures[i]), prefix, &tail);
        i += 1;
        assert(fixtures@.take(i as int).drop_last() =~= fixtures@.take(i - 1));
        assert(text::texts(errors@) =~= text::texts(old(errors)@) + fixture_errors(
            prefix@,
            fixtures@.take(i as int),
            existing@,
        ));
    }
    assert(fixtures@.take(i as int) =~= fixtures@);
}

fn seen_before(oracles: &Vec<(String, OracleDefinition)>, at: usize) -> (yes: bool)
    requires
        at < oracles@.len(),
    ensures
        yes == images(oracles@.take(at as int)).contains(oracles@[at as int].1.image@),
{
    let ghost earlier = images(oracles@.take(at as int));
    let mut i: usize = 0;
    while i < at
        invariant
            i <= at < oracles@.len(),
            earlier == images(oracles@.take(at as int)),
            forall|j: int| 0 <= j < i ==> earlier[j] != oracles@[at as int].1.image@,
        decreases at - i,
    {
        assert(earlier[i as int] == oracles@[i as int].1.image@);
        if same_text(&oracles[i].1.image, &oracles[at].1.image) {
            return true;
        }
        i += 1;
    }
    false
}

fn check_oracle(
    errors: &mut Vec<String>,
    oracles: &Vec<(String, OracleDefinition)>,
    at: usize,
    docs: &str,
    existing: &Vec<String>,
)
    requires
        at < oracles@.len(),
    ensures
        text::texts(final(errors)@) == with_oracle_errors(
            text::texts(old(errors)@),
            oracles@,
            at as int,
            docs@,
            existing@,
        ),
{
    let oracle = &oracles[at].1;
    let mut prefix = String::new();
    prefix.append("oracle ");
    prefix.append(&oracles[at].0);
    assert(prefix@ =~= "oracle "@ + oracles@[at as int].0@);
    let pinned = contains_text(&oracle.image, "@sha256:") && !ends_with(&oracle.image, "@");
    add_error(errors, !pinned, &prefix, ": image must use an immutable sha256 digest");
    let floating = contains_text(&oracle.image, ":latest") || !contains_text(&oracle.image, "@");
    add_error(errors, floating, &prefix, ": floating image reference is forbidden");
    add_error(errors, seen_before(oracles, at), &prefix, ": duplicate image pin");
    add_error(
        errors,
        !matches_pattern(COMMIT, &oracle.source_commit),
        &prefix,
        ": source_commit must be a 40-character lowercase SHA",
    );
    add_error(
        errors,
        !matches_pattern(DIGEST, &oracle.linux_amd64_digest),
        &prefix,
        ": linux_amd64_digest must be sha256:<64 hex>",
    );
    let wanted = chars_of(&oracle.version_contains);
    add_error(errors, wanted.len() == 0, &prefix, ": version_contains is required");
    add_docs_error(errors, &prefix, &oracle.version, docs);
    add_docs_error(errors, &prefix, &oracle.source_commit, docs);
    add_docs_error(errors, &prefix, &oracle.image, docs);
    add_docs_error(errors, &prefix, &oracle.linux_amd64_digest, docs);
    add_fixture_errors(errors, &prefix, &oracle.fixtures, existing);
}

fn has_name(oracles: &Vec<(String, OracleDefinition)>, name: &str) -> (yes: bool)
    ensures
        yes == names(oracles@).contains(name@),
{
    let mut i: usize = 0;
    while i < oracles.len()
        invariant
            i <= oracles@.len(),
            forall|j: int| 0 <= j < i ==> names(oracles@)[j] != name@,
        decreases oracles.len() - i,
    {
        assert(names(oracles@)[i as int] == oracles@[i as int].0@);
        if same_text(&oracles[i].0, name) {
            return true;
        }
        i += 1;
    }
    false
}

fn wanted_oracles(oracles: &Vec<(String, OracleDefinition)>) -> (yes: bool)
    ensures
        yes == has_wanted_oracles(oracles@),
{
    if !has_name(oracles, "prometheus") || !has_name(oracles, "victoriametrics") || !has_name(
        oracles,
        "victorialogs",
    ) {
        return false;
    }
    let mut i: usize = 0;
    while i < oracles.len()
        invariant
            i <= oracles@.len(),
            forall|j: int| 0 <= j < i ==> is_wanted((#[trigger] oracles@[j]).0@),
        decreases oracles.len() - i,
    {
        let name = &oracles[i].0;
        if !same_text(name, "prometheus") && !same_text(name, "victoriametrics") && !same_text(
            name,
            "victorialogs",
        ) {
            assert(!is_wanted(oracles@[i as int].0@));
            return false;
        }
        i += 1;
    }
    true
}

/// The errors of a manifest, given the documentation and the fixtures that
/// exist.
pub fn validate_manifest(manifest: &OracleManifest, docs: &str, existing: &Vec<String>) -> (errors:
    Vec<String>)
    ensures
        text::texts(errors@) == manifest_errors(*manifest, docs@, existing@),
{
    let mut errors: Vec<String> = Vec::new();
    add_error(&mut errors, manifest.schema_version != 1, "", "manifest schema_version must be 1");
    let ghost first = text::texts(errors@);
    assert(first =~= error_if(
        manifest.schema_version != 1,
        ""@,
        "manifest schema_version must be 1"@,
    ));
    if !wanted_oracles(&manifest.oracles) {
        errors.push(
            copied("manifest must define exactly prometheus, victoriametrics, and victorialogs"),
        );
        assert(text::texts(errors@) =~= first.push(
            "manifest must define exactly prometheus, victoriametrics, and victorialogs"@,
        ));
        return errors;
    }
    let mut i: usize = 0;
    while i < manifest.oracles.len()
        invariant
            i <= manifest.oracles@.len(),
            text::texts(errors@) == all_oracle_errors(
                first,
                manifest.oracles@,
                i as int,
                docs@,
                existing@,
            ),
        decreases manifest.oracles.len() - i,
    {
        check_oracle(&mut errors, &manifest.oracles, i, docs, existing);
        i += 1;
    }
    errors
}

/// A manifest without errors pins every oracle: by a commit in full, by a digest,
/// and by an image that cannot move and that no other oracle has.
pub proof fn accepted_manifests_are_pinned(
    manifest: OracleManifest,
    docs: Seq<char>,
    existing: Seq<String>,
    i: int,
)
    requires
        manifest_errors(manifest, docs, existing).len() == 0,
        0 <= i < manifest.oracles@.len(),
    ensures
        is_pinned(manifest.oracles@[i].1.image@),
        !is_floating(manifest.oracles@[i].1.image@),
        is_commit(manifest.oracles@[i].1.source_commit@),
        is_digest(manifest.oracles@[i].1.linux_amd64_digest@),
        !images(manifest.oracles@.take(i)).contains(manifest.oracles@[i].1.image@),
{
    let first = error_if(manifest.schema_version != 1, ""@, "manifest schema_version must be 1"@);
    let n = manifest.oracles@.len() as int;
    assert(has_wanted_oracles(manifest.oracles@));
    errors_accumulate(first, manifest.oracles@, i + 1, n, docs, existing);
    let before = all_oracle_errors(first, manifest.oracles@, i, docs, existing);
    assert(with_oracle_errors(before, manifest.oracles@, i, docs, existing).len() == 0);
    let (name, oracle) = manifest.oracles@[i];
    let prefix = "oracle "@ + name@;
    all_parts_are_empty(
        before,
        error_if(
            !is_pinned(oracle.image@),
            prefix,
            ": image must use an immutable sha256 digest"@,
        ),
        error_if(
            is_floating(oracle.image@),
            prefix,
            ": floating image reference is forbidden"@,
        ),
        error_if(
            images(manifest.oracles@.take(i)).contains(oracle.image@),
            prefix,
            ": duplicate image pin"@,
        ),
        error_if(
            !is_commit(oracle.source_commit@),
            prefix,
            ": source_commit must be a 40-character lowercase SHA"@,
        ),
        error_if(
            !is_digest(oracle.linux_amd64_digest@),
            prefix,
            ": linux_amd64_digest must be sha256:<64 hex>"@,
        ),
        error_if(
            oracle.version_contains@.len() == 0,
            prefix,
            ": version_contains is required"@,
        ),
        docs_error(prefix, oracle.version@, docs),
        docs_error(prefix, oracle.source_commit@, docs),
        docs_error(prefix, oracle.image@, docs),
        docs_error(prefix, oracle.linux_amd64_digest@, docs),
        fixture_errors(prefix, oracle.fixtures@, existing),
    );
    no_error(
        !is_pinned(oracle.image@),
        prefix,
        ": image must use an immutable sha256 digest"@,
    );
    no_error(is_floating(oracle.image@), prefix, ": floating image reference is forbidden"@);
    no_error(
        images(manifest.oracles@.take(i)).contains(oracle.image@),
        prefix,
        ": duplicate image pin"@,
    );
    no_error(
        !is_commit(oracle.source_commit@),
        prefix,
        ": source_commit must be a 40-character lowercase SHA"@,
    );
    no_error(
        !is_digest(oracle.linux_amd64_digest@),
        prefix,
        ": linux_amd64_digest must be sha256:<64 hex>"@,
    );
}

proof fn no_error(wrong: bool, prefix: Seq<char>, tail: Seq<char>)
    ensures
        error_if(wrong, prefix, tail).len() == 0 ==> !wrong,
{
}

proof fn all_parts_are_empty(
    before: Seq<Seq<char>>,
    a: Seq<Seq<char>>,
    b: Seq<Seq<char>>,
    c: Seq<Seq<char>>,
    d: Seq<Seq<char>>,
    e: Seq<Seq<char>>,
    f: Seq<Seq<char>>,
    g: Seq<Seq<char>>,
    h: Seq<Seq<char>>,
    i: Seq<Seq<char>>,
    j: Seq<Seq<char>>,
    k: Seq<Seq<char>>,
)
    requires
        (before + a + b + c + d + e + f + g + h + i + j + k).len() == 0,
    ensures
        before.len() == 0,
        a.len() == 0,
        b.len() == 0,
        c.len() == 0,
        d.len() == 0,
        e.len() == 0,
{
}

proof fn errors_accumulate(
    before: Seq<Seq<char>>,
    oracles: Seq<(String, OracleDefinition)>,
    k: int,
    n: int,
    docs: Seq<char>,
    existing: Seq<String>,
)
    requires
        0 <= k <= n,
    ensures
        all_oracle_errors(before, oracles, k, docs, existing).len() <= all_oracle_errors(
            before,
            oracles,
            n,
            docs,
            existing,
        ).len(),
    decreases n - k,
{
    if k < n {
        errors_accumulate(before, oracles, k, n - 1, docs, existing);
    }
}

/// The arguments that run the image of an oracle once.
pub open spec fn container_words(oracle: OracleDefinition, extra: Seq<String>) -> Seq<Seq<char>> {
    seq!["run"@, "--rm"@, "--platform"@, "linux/amd64"@] + (if oracle.version_entrypoint@.len() == 0 {
        Seq::empty()
    } else {
        seq!["--entrypoint"@, oracle.version_entrypoint@]
    }) + seq![oracle.image@] + text::texts(extra)
}

/// The arguments that run the image of an oracle once.
pub fn container_args(oracle: &OracleDefinition, extra: &Vec<String>) -> (args: Vec<String>)
    ensures
        text::texts(args@) == container_words(*oracle, extra@),
{
    let mut args: Vec<String> = Vec::new();
    args.push(copied("run"));
    args.push(copied("--rm"));
    args.push(copied("--platform"));
    args.push(copied("linux/amd64"));
    assert(text::texts(args@) =~= seq!["run"@, "--rm"@, "--platform"@, "linux/amd64"@]);
    let entry = chars_of(&oracle.version_entrypoint);
    if entry.len() != 0 {
        args.push(copied("--entrypoint"));
        args.push(copied(&oracle.version_entrypoint));
    }
    args.push(copied(&oracle.image));
    let ghost head = text::texts(args@);
    assert(head =~= container_words(*oracle, Seq::empty()));
    let mut i: usize = 0;
    assert(text::texts(args@) =~= head + text::texts(extra@).take(0));
    while i < extra.len()
        invariant
            i <= extra@.len(),
            text::texts(args@) == head + text::texts(extra@).take(i as int),
        decreases extra.len() - i,
    {
        let ghost before = text::texts(args@);
        args.push(copied(&extra[i]));
        assert(text::texts(args@) =~= before.push(extra@[i as int]@));
        i += 1;
        assert(text::texts(args@) =~= head + text::texts(extra@).take(i as int));
    }
    assert(text::texts(extra@).take(i as int) =~= text::texts(extra@));
    assert(text::texts(args@) =~= container_words(*oracle, extra@));
    args
}

/// An oracle that serves an API.
#[derive(Clone, Copy, Debug, PartialEq, Eq, Structural)]
pub enum Engine {
    Prometheus,
    VictoriaMetrics,
    VictoriaLogs,
}

impl Engine {
    /// The name of the oracle in the manifest.
    pub fn oracle(self) -> (name: &'static str)
        ensures
            name == (match self {
                Engine::Prometheus => "prometheus",
                Engine::VictoriaMetrics => "victoriametrics",
                Engine::VictoriaLogs => "victorialogs",
            }),
    {
        match self {
            Engine::Prometheus => "prometheus",
            Engine::VictoriaMetrics => "victoriametrics",
            Engine::VictoriaLogs => "victorialogs",
        }
    }

    /// How the path of its fixture ends.
    pub fn fixture_suffix(self) -> (suffix: &'static str)
        ensures
            suffix == (match self {
                Engine::Prometheus => "api_cases.json",
                Engine::VictoriaMetrics => "victoriametrics/api_cases.json",
                Engine::VictoriaLogs => "victorialogs/api_cases.json",
            }),
    {
        match self {
            Engine::Prometheus => "api_cases.json",
            Engine::VictoriaMetrics => "victoriametrics/api_cases.json",
            Engine::VictoriaLogs => "victorialogs/api_cases.json",
        }
    }

    /// The path that answers once the engine is ready.
    pub fn ready_path(self) -> (path: &'static str)
        ensures
            path == (match self {
                Engine::Prometheus => "/-/ready",
                _ => "/health",
            }),
    {
        match self {
            Engine::Prometheus => "/-/ready",
            Engine::VictoriaMetrics | Engine::VictoriaLogs => "/health",
        }
    }

    /// The beginning of the name of its container.
    pub open spec fn stem(self) -> Seq<char> {
        match self {
            Engine::Prometheus => "timeless-promql-oracle-"@,
            Engine::VictoriaMetrics => "timeless-metricsql-oracle-"@,
            Engine::VictoriaLogs => "timeless-logsql-oracle-"@,
        }
    }

    /// The port inside the container.
    pub open spec fn inner_port(self) -> Seq<char> {
        match self {
            Engine::Prometheus => ":9090"@,
            Engine::VictoriaMetrics => ":8428"@,
            Engine::VictoriaLogs => ":9428"@,
        }
    }

    /// The options of the engine itself.
    pub open spec fn options(self) -> Seq<Seq<char>> {
        match self {
            Engine::Prometheus => seq![
                "--config.file=/etc/prometheus/prometheus.yml"@,
                "--storage.tsdb.path=/prometheus"@,
                "--web.listen-address=0.0.0.0:9090"@,
                "--web.enable-remote-write-receiver"@,
            ],
            Engine::VictoriaMetrics => seq![
                "-storageDataPath=/victoria-metrics-data"@,
                "-httpListenAddr=:8428"@,
                "-retentionPeriod=1d"@,
            ],
            Engine::VictoriaLogs => seq!["-retentionPeriod=1d"@],
        }
    }

    /// The arguments that start the engine in a container.
    pub open spec fn start_words(self, process: nat, port: nat, image: Seq<char>) -> Seq<Seq<char>> {
        seq![
            "run"@,
            "--rm"@,
            "-d"@,
            "--name"@,
            self.stem() + text::decimal(process),
            "--platform"@,
            "linux/amd64"@,
            "-p"@,
            "127.0.0.1:"@ + text::decimal(port) + self.inner_port(),
            image,
        ] + self.options()
    }

    /// The name of the container of a process.
    pub fn container_name(self, process: u32) -> (name: String)
        ensures
            name@ == self.stem() + text::decimal(process as nat),
    {
        let mut name = String::new();
        match self {
            Engine::Prometheus => name.append("timeless-promql-oracle-"),
            Engine::VictoriaMetrics => name.append("timeless-metricsql-oracle-"),
            Engine::VictoriaLogs => name.append("timeless-logsql-oracle-"),
        }
        push_decimal(&mut name, process as u64);
        assert(name@ =~= self.stem() + text::decimal(process as nat));
        name
    }

    /// The arguments that start the engine in a container.
    pub fn start_args(self, process: u32, port: u16, image: &str) -> (args: Vec<String>)
        ensures
            text::texts(args@) == self.start_words(process as nat, port as nat, image@),
    {
        let name = self.container_name(process);
        let mut publish = String::new();
        publish.append("127.0.0.1:");
        push_decimal(&mut publish, port as u64);
        match self {
            Engine::Prometheus => publish.append(":9090"),
            Engine::VictoriaMetrics => publish.append(":8428"),
            Engine::VictoriaLogs => publish.append(":9428"),
        }
        assert(publish@ =~= "127.0.0.1:"@ + text::decimal(port as nat) + self.inner_port());
        let mut args: Vec<String> = Vec::new();
        args.push(copied("run"));
        args.push(copied("--rm"));
        args.push(copied("-d"));
        args.push(copied("--name"));
        args.push(name);
        args.push(copied("--platform"));
        args.push(copied("linux/amd64"));
        args.push(copied("-p"));
        args.push(publish);
        args.push(copied(image));
        let ghost head = text::texts(args@);
        match self {
            Engine::Prometheus => {
                args.push(copied("--config.file=/etc/prometheus/prometheus.yml"));
                args.push(copied("--storage.tsdb.path=/prometheus"));
                args.push(copied("--web.listen-address=0.0.0.0:9090"));
                args.push(copied("--web.enable-remote-write-receiver"));
            },
            Engine::VictoriaMetrics => {
                args.push(copied("-storageDataPath=/victoria-metrics-data"));
                args.push(copied("-httpListenAddr=:8428"));
                args.push(copied("-retentionPeriod=1d"));
            },
            Engine::VictoriaLogs => {
                args.push(copied("-retentionPeriod=1d"));
            },
        }
        assert(text::texts(args@) =~= self.start_words(process as nat, port as nat, image@));
        args
    }
}

/// The arguments that run the smoke rules of Prometheus on a fixture file.
pub fn smoke_args(fixture: &str, image: &str) -> (args: Vec<String>)
    ensures
        text::texts(args@) == seq![
            "run"@,
            "--rm"@,
            "--platform"@,
            "linux/amd64"@,
            "--entrypoint"@,
            "/bin/promtool"@,
            "--mount"@,
            "type=bind,src="@ + fixture@ + ",dst=/work/promql_smoke.yml,readonly"@,
            image@,
            "test"@,
            "rules"@,
            "/work/promql_smoke.yml"@,
        ],
{
    let mut mount = String::new();
    mount.append("type=bind,src=");
    mount.append(fixture);
    mount.append(",dst=/work/promql_smoke.yml,readonly");
    assert(mount@ =~= "type=bind,src="@ + fixture@ + ",dst=/work/promql_smoke.yml,readonly"@);
    let mut args: Vec<String> = Vec::new();
    args.push(copied("run"));
    args.push(copied("--rm"));
    args.push(copied("--platform"));
    args.push(copied("linux/amd64"));
    args.push(copied("--entrypoint"));
    args.push(copied("/bin/promtool"));
    args.push(copied("--mount"));
    args.push(mount);
    args.push(copied(image));
    args.push(copied("test"));
    args.push(copied("rules"));
    args.push(copied("/work/promql_smoke.yml"));
    args
}

/// The first path with an ending.
pub fn find_fixture<'a>(fixtures: &'a Vec<String>, suffix: &str) -> (path: Option<&'a String>)
    ensures
        match path {
            Some(p) => exists|i: int|
                0 <= i < fixtures@.len() && fixtures@[i] == *p && text::ends_in(p@, suffix@)
                    && forall|j: int|
                    0 <= j < i ==> !text::ends_in((#[trigger] fixtures@[j])@, suffix@),
            None => forall|j: int|
                0 <= j < fixtures@.len() ==> !text::ends_in((#[trigger] fixtures@[j])@, suffix@),
        },
{
    let mut i: usize = 0;
    while i < fixtures.len()
        invariant
            i <= fixtures@.len(),
            forall|j: int| 0 <= j < i ==> !text::ends_in((#[trigger] fixtures@[j])@, suffix@),
        decreases fixtures.len() - i,
    {
        if ends_with(&fixtures[i], suffix) {
            assert(fixtures@[i as int] == fixtures[i as int]);
            return Some(&fixtures[i]);
        }
        i += 1;
    }
    None
}

/// Whether a probe of the version succeeded: the container did, and its output
/// names the version.
pub fn probe(success: bool, output: &str, version_contains: &str) -> (ok: bool)
    ensures
        ok == (success && text::occurs_in(output@, version_contains@)),
{
    success && contains_text(output, version_contains)
}

/// The first line that is not blank; empty where all are.
pub open spec fn first_line(lines: Seq<Seq<char>>) -> Seq<char>
    decreases lines.len(),
{
    if lines.len() == 0 {
        Seq::empty()
    } else if text::trim(lines[0]).len() > 0 {
        lines[0]
    } else {
        first_line(lines.drop_first())
    }
}

/// What a probe reports: the first line that is not blank.
pub fn probe_line(output: &str) -> (line: String)
    ensures
        line@ == first_line(text::lines(output@)),
{
    let list = lines_of(output);
    let ghost all = text::lines(output@);
    let mut i: usize = 0;
    assert(all.skip(0) =~= all);
    while i < list.len()
        invariant
            i <= list@.len(),
            all == text::lines(output@),
            text::texts(list@) == all,
            first_line(all) == first_line(all.skip(i as int)),
        decreases list.len() - i,
    {
        assert(all[i as int] == list@[i as int]@);
        assert(all.skip(i as int)[0] == list@[i as int]@);
        assert(all.skip(i as int).drop_first() =~= all.skip(i + 1));
        let rest = trim_text(&list[i]);
        let chars = chars_of(&rest);
        if chars.len() > 0 {
            return copied(&list[i]);
        }
        i += 1;
    }
    let none = String::new();
    assert(none@ =~= first_line(all));
    none
}

} // verus!
