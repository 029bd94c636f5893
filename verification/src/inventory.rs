//! The artifact inventory: what a release bundle holds, and for which targets.
use crate::json::copied;
use crate::text::same_text;
use vstd::prelude::*;
use vstd::string::*;

verus! {

/// A target that bundles are built for.
#[derive(Clone, Debug, PartialEq, Eq)]
pub struct Target {
    pub triple: String,
    pub extension_suffix: String,
    pub platform: String,
}

/// The artifact inventory.
#[derive(Clone, Debug)]
pub struct Inventory {
    pub schema: u64,
    pub binaries: Vec<String>,
    pub targets: Vec<Target>,
    pub fixed_files: Vec<String>,
}

/// What is wrong with an inventory, or with what is asked of it.
#[derive(Clone, Debug, PartialEq, Eq)]
pub enum InventoryError {
    /// The schema is not the one that is understood.
    Schema(u64),
    /// There are no binaries, no targets or no fixed files.
    EmptySection,
    /// A value of a kind is empty, or stands twice.
    Repeated(&'static str, String),
    /// A target has an extension suffix that no platform uses.
    Suffix(String, String),
    /// A target has an unknown platform.
    Platform(String, String),
    /// There is no such target; beside it, those that there are.
    Unsupported(String, String),
}

/// An error by its characters.
pub enum InventoryFault {
    Schema(u64),
    EmptySection,
    Repeated(&'static str, Seq<char>),
    Suffix(Seq<char>, Seq<char>),
    Platform(Seq<char>, Seq<char>),
    Unsupported(Seq<char>, Seq<char>),
}

/// An error by its characters.
pub open spec fn fault(error: InventoryError) -> InventoryFault {
    match error {
        InventoryError::Schema(n) => InventoryFault::Schema(n),
        InventoryError::EmptySection => InventoryFault::EmptySection,
        InventoryError::Repeated(kind, v) => InventoryFault::Repeated(kind, v@),
        InventoryError::Suffix(t, v) => InventoryFault::Suffix(t@, v@),
        InventoryError::Platform(t, v) => InventoryFault::Platform(t@, v@),
        InventoryError::Unsupported(t, v) => InventoryFault::Unsupported(t@, v@),
    }
}

/// A result without a value, its error by its characters.
pub open spec fn outcome(result: Result<(), InventoryError>) -> Result<(), InventoryFault> {
    match result {
        Ok(_) => Ok(()),
        Err(e) => Err(fault(e)),
    }
}

/// The value at `i` is empty or stands before `i` too.
pub open spec fn offends(values: Seq<Seq<char>>, i: int) -> bool {
    values[i].len() == 0 || exists|j: int| 0 <= j < i && values[j] == values[i]
}

/// The place of the first value from `i` on that is empty or stands before.
pub open spec fn first_offender(values: Seq<Seq<char>>, i: int) -> Option<int>
    decreases values.len() - i,
{
    if i < 0 || i >= values.len() {
        None
    } else if offends(values, i) {
        Some(i)
    } else {
        first_offender(values, i + 1)
    }
}

/// What becomes of the values of a kind.
pub open spec fn uniqueness(kind: &'static str, values: Seq<Seq<char>>) -> Result<
    (),
    InventoryFault,
> {
    match first_offender(values, 0) {
        None => Ok(()),
        Some(i) => Err(InventoryFault::Repeated(kind, values[i])),
    }
}

/// Lists without an offender are lists of different texts, none of them empty.
pub proof fn unique_values_differ(values: Seq<Seq<char>>)
    ensures
        first_offender(values, 0) is None <==> (forall|i: int|
            0 <= i < values.len() ==> (#[trigger] values[i]).len() > 0) && values.no_duplicates(),
{
    offender_is_first(values, 0);
    if first_offender(values, 0) is None {
        assert forall|i: int| 0 <= i < values.len() implies (#[trigger] values[i]).len() > 0 by {
            assert(!offends(values, i));
        }
        assert forall|i: int, j: int| 0 <= i < j < values.len() implies values[i] != values[j] by {
            assert(!offends(values, j));
        }
    } else {
        let i = first_offender(values, 0)->0;
        assert(offends(values, i));
    }
}

proof fn offender_is_first(values: Seq<Seq<char>>, from: int)
    requires
        0 <= from,
    ensures
        match first_offender(values, from) {
            None => forall|i: int| from <= i < values.len() ==> !#[trigger] offends(values, i),
            Some(k) => from <= k < values.len() && offends(values, k),
        },
    decreases values.len() - from,
{
    if from < values.len() && !offends(values, from) {
        offender_is_first(values, from + 1);
    }
}

/// The texts of a list of references.
pub open spec fn str_views(values: Seq<&str>) -> Seq<Seq<char>> {
    values.map_values(|v: &str| v@)
}

/// Checks that the values of a kind are not empty and that none stands twice.
pub fn ensure_unique(kind: &'static str, values: &[&str]) -> (result: Result<(), InventoryError>)
    ensures
        outcome(result) == uniqueness(kind, str_views(values@)),
{
    let ghost all = str_views(values@);
    let mut i: usize = 0;
    while i < values.len()
        invariant
            i <= values@.len(),
            all == str_views(values@),
            first_offender(all, 0) == first_offender(all, i as int),
        decreases values.len() - i,
    {
        let value = values[i];
        let mut bad = value.unicode_len() == 0;
        let mut j: usize = 0;
        while j < i
            invariant
                j <= i < values@.len(),
                all == str_views(values@),
                value@ == all[i as int],
                bad <==> value@.len() == 0 || exists|k: int| 0 <= k < j && all[k] == value@,
            decreases i - j,
        {
            assert(all[j as int] == values@[j as int]@);
            if same_text(values[j], value) {
                bad = true;
            }
            j += 1;
        }
        assert(bad == offends(all, i as int));
        if bad {
            return Err(InventoryError::Repeated(kind, copied(value)));
        }
        i += 1;
    }
    Ok(())
}

/// The triples of a list of targets.
pub open spec fn triples(targets: Seq<Target>) -> Seq<Seq<char>> {
    targets.map_values(|t: Target| t.triple@)
}

/// The extension suffix is one that a platform uses.
pub open spec fn known_suffix(suffix: Seq<char>) -> bool {
    suffix == "so"@ || suffix == "dylib"@
}

/// The platform is one that bundles are made for.
pub open spec fn known_platform(platform: Seq<char>) -> bool {
    platform == "linux"@ || platform == "macos"@
}

/// What becomes of the targets from `i` on.
pub open spec fn targets_outcome(targets: Seq<Target>, i: int) -> Result<(), InventoryFault>
    decreases targets.len() - i,
{
    if i < 0 || i >= targets.len() {
        Ok(())
    } else if !known_suffix(targets[i].extension_suffix@) {
        Err(InventoryFault::Suffix(targets[i].triple@, targets[i].extension_suffix@))
    } else if !known_platform(targets[i].platform@) {
        Err(InventoryFault::Platform(targets[i].triple@, targets[i].platform@))
    } else {
        targets_outcome(targets, i + 1)
    }
}

/// The texts joined by a comma and a space, up to the one at `n`.
pub open spec fn joined(list: Seq<Seq<char>>, n: int) -> Seq<char>
    decreases n,
{
    if n <= 0 {
        Seq::empty()
    } else if n == 1 {
        list[0]
    } else {
        joined(list, n - 1) + ", "@ + list[n - 1]
    }
}

/// The first of the targets from `i` on with a triple.
pub open spec fn found_target(targets: Seq<Target>, triple: Seq<char>, i: int) -> Option<int>
    decreases targets.len() - i,
{
    if i < 0 || i >= targets.len() {
        None
    } else if targets[i].triple@ == triple {
        Some(i)
    } else {
        found_target(targets, triple, i + 1)
    }
}

fn strs_of<'a>(list: &'a Vec<String>) -> (strs: Vec<&'a str>)
    ensures
        str_views(strs@) == crate::text::texts(list@),
{
    let mut strs: Vec<&'a str> = Vec::new();
    let mut i: usize = 0;
    while i < list.len()
        invariant
            i <= list@.len(),
            strs@.len() == i,
            forall|k: int| 0 <= k < i ==> (#[trigger] strs@[k])@ == list@[k]@,
        decreases list.len() - i,
    {
        strs.push(list[i].as_str());
        i += 1;
    }
    assert(str_views(strs@) =~= crate::text::texts(list@));
    strs
}

impl Inventory {
    /// What the checks of the inventory come to.
    pub open spec fn verdict(self) -> Result<(), InventoryFault> {
        if self.schema != 1 {
            Err(InventoryFault::Schema(self.schema))
        } else if self.binaries@.len() == 0 || self.targets@.len() == 0 || self.fixed_files@.len()
            == 0 {
            Err(InventoryFault::EmptySection)
        } else {
            match uniqueness("binary", crate::text::texts(self.binaries@)) {
                Err(e) => Err(e),
                Ok(_) => match uniqueness("target", triples(self.targets@)) {
                    Err(e) => Err(e),
                    Ok(_) => match uniqueness(
                        "fixed file",
                        crate::text::texts(self.fixed_files@),
                    ) {
                        Err(e) => Err(e),
                        Ok(_) => targets_outcome(self.targets@, 0),
                    },
                },
            }
        }
    }

    /// Checks the inventory: its schema, that no section is empty, that nothing in
    /// it stands twice, and the suffix and the platform of each target.
    pub fn validate(&self) -> (result: Result<(), InventoryError>)
        ensures
            outcome(result) == self.verdict(),
    {
        if self.schema != 1 {
            return Err(InventoryError::Schema(self.schema));
        }
        if self.binaries.len() == 0 || self.targets.len() == 0 || self.fixed_files.len() == 0 {
            return Err(InventoryError::EmptySection);
        }
        let binaries = strs_of(&self.binaries);
        match ensure_unique("binary", &binaries) {
            Err(e) => return Err(e),
            Ok(_) => {},
        }
        let mut names: Vec<&str> = Vec::new();
        let mut i: usize = 0;
        while i < self.targets.len()
            invariant
                i <= self.targets@.len(),
                names@.len() == i,
                forall|k: int| 0 <= k < i ==> (#[trigger] names@[k])@ == self.targets@[k].triple@,
            decreases self.targets.len() - i,
        {
            names.push(self.targets[i].triple.as_str());
            i += 1;
        }
        assert(str_views(names@) =~= triples(self.targets@));
        match ensure_unique("target", &names) {
            Err(e) => return Err(e),
            Ok(_) => {},
        }
        let files = strs_of(&self.fixed_files);
        match ensure_unique("fixed file", &files) {
            Err(e) => return Err(e),
            Ok(_) => {},
        }
        self.check_targets()
    }

    fn check_targets(&self) -> (result: Result<(), InventoryError>)
        ensures
            outcome(result) == targets_outcome(self.targets@, 0),
    {
        let mut i: usize = 0;
        while i < self.targets.len()
            invariant
                i <= self.targets@.len(),
                targets_outcome(self.targets@, 0) == targets_outcome(self.targets@, i as int),
            decreases self.targets.len() - i,
        {
            let target = &self.targets[i];
            if !same_text(&target.extension_suffix, "so") && !same_text(
                &target.extension_suffix,
                "dylib",
            ) {
                return Err(
                    InventoryError::Suffix(
                        copied(&target.triple),
                        copied(&target.extension_suffix),
                    ),
                );
            }
            if !same_text(&target.platform, "linux") && !same_text(&target.platform, "macos") {
                return Err(
                    InventoryError::Platform(copied(&target.triple), copied(&target.platform)),
                );
            }
            i += 1;
        }
        Ok(())
    }

    /// The target with a triple. Where there is none, the error names the triples
    /// that there are.
    pub fn target(&self, triple: &str) -> (result: Result<&Target, InventoryError>)
        ensures
            match (found_target(self.targets@, triple@, 0), result) {
                (Some(i), Ok(t)) => 0 <= i < self.targets@.len() && *t == self.targets@[i]
                    && t.triple@ == triple@,
                (None, Err(e)) => fault(e) == InventoryFault::Unsupported(
                    triple@,
                    joined(triples(self.targets@), self.targets@.len() as int),
                ) && forall|i: int|
                    0 <= i < self.targets@.len() ==> (#[trigger] self.targets@[i]).triple@
                        != triple@,
                _ => false,
            },
    {
        let mut i: usize = 0;
        while i < self.targets.len()
            invariant
                i <= self.targets@.len(),
                found_target(self.targets@, triple@, 0) == found_target(
                    self.targets@,
                    triple@,
                    i as int,
                ),
                forall|k: int|
                    0 <= k < i ==> (#[trigger] self.targets@[k]).triple@ != triple@,
            decreases self.targets.len() - i,
        {
            if same_text(&self.targets[i].triple, triple) {
                return Ok(&self.targets[i]);
            }
            i += 1;
        }
        let mut expected = String::new();
        let mut n: usize = 0;
        while n < self.targets.len()
            invariant
                n <= self.targets@.len(),
                expected@ == joined(triples(self.targets@), n as int),
            decreases self.targets.len() - n,
        {
            if n > 0 {
                expected.append(", ");
            }
            expected.append(self.targets[n].triple.as_str());
            n += 1;
            assert(triples(self.targets@)[n - 1] == self.targets@[n - 1].triple@);
            assert(expected@ =~= joined(triples(self.targets@), n as int));
        }
        Err(InventoryError::Unsupported(copied(triple), expected))
    }
}

/// In a valid inventory, a triple names at most one target, whose suffix and
/// platform are known.
pub proof fn valid_targets_are_distinct(inventory: Inventory, i: int, j: int)
    requires
        inventory.verdict() is Ok,
        0 <= i < inventory.targets@.len(),
        0 <= j < inventory.targets@.len(),
        inventory.targets@[i].triple@ == inventory.targets@[j].triple@,
    ensures
        i == j,
        known_suffix(inventory.targets@[i].extension_suffix@),
        known_platform(inventory.targets@[i].platform@),
{
    let names = triples(inventory.targets@);
    unique_values_differ(names);
    assert(names[i] == inventory.targets@[i].triple@);
    assert(names[j] == inventory.targets@[j].triple@);
    checked_target(inventory.targets@, 0, i);
}

proof fn checked_target(targets: Seq<Target>, from: int, i: int)
    requires
        targets_outcome(targets, from) is Ok,
        0 <= from <= i < targets.len(),
    ensures
        known_suffix(targets[i].extension_suffix@),
        known_platform(targets[i].platform@),
    decreases i - from,
{
    if from < i {
        checked_target(targets, from + 1, i);
    }
}

} // verus!
