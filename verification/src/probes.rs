//! What the probes of running servers see.
use crate::fixture_build;
use crate::fixture_build::{memory_value, MemoryValue};
use crate::gate;
use crate::gate::lower_text;
use crate::text;
use crate::text::{contains_text, lines_of};
use vstd::prelude::*;

verus! {

/// Whether a server that was given a taken address failed as it must: it did not
/// end well, and said that it could not bind.
pub fn conflict_fails_closed(ended_well: bool, output: &str) -> (yes: bool)
    ensures
        yes == (!ended_well && text::occurs_in(gate::lowered(output@), "bind"@)),
{
    let low = lower_text(output);
    !ended_well && contains_text(&low, "bind")
}

/// What the last line of a status that says how much says of a measure of memory.
pub open spec fn last_kib(lines: Seq<Seq<char>>, prefix: Seq<char>) -> Option<u64>
    decreases lines.len(),
{
    if lines.len() == 0 {
        None
    } else {
        match fixture_build::memory_at(lines.last(), prefix) {
            MemoryValue::Kib(n) => Some(n),
            _ => last_kib(lines.drop_last(), prefix),
        }
    }
}

fn measure(status: &str, prefix: &str) -> (kib: Option<u64>)
    ensures
        kib == last_kib(text::lines(status@), prefix@),
{
    let list = lines_of(status);
    let ghost all = text::lines(status@);
    let mut kib: Option<u64> = None;
    let mut i: usize = 0;
    assert(all.take(0) =~= Seq::empty());
    while i < list.len()
        invariant
            i <= list@.len(),
            text::texts(list@) == all,
            kib == last_kib(all.take(i as int), prefix@),
        decreases list.len() - i,
    {
        assert(all[i as int] == list@[i as int]@);
        assert(all.take(i + 1).drop_last() =~= all.take(i as int));
        assert(all.take(i + 1).last() == list@[i as int]@);
        match memory_value(&list[i], prefix) {
            MemoryValue::Kib(n) => {
                kib = Some(n);
            },
            _ => {},
        }
        i += 1;
    }
    assert(all.take(i as int) =~= all);
    kib
}

/// The memory of a process in KiB, from the text of its status: what is resident,
/// and the most that ever was. A line that cannot be read counts for nothing.
pub fn proc_memory(status: &str) -> (memory: (Option<u64>, Option<u64>))
    ensures
        memory.0 == last_kib(text::lines(status@), "VmRSS:"@),
        memory.1 == last_kib(text::lines(status@), "VmHWM:"@),
{
    (measure(status, "VmRSS:"), measure(status, "VmHWM:"))
}

} // verus!
