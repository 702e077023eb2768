//! Statistics of the jemalloc allocator.
use vstd::prelude::*;

use crate::snapshot::{ItemKind, ItemValue, Snapshot};
use crate::PutsSnapshot;

verus! {

/// What was read from the allocator; `None` where a read failed.
pub struct AllocatorReadings {
    pub epoch_advanced: bool,
    pub active: Option<usize>,
    pub allocated: Option<usize>,
    pub mapped: Option<usize>,
    pub metadata: Option<usize>,
    pub resident: Option<usize>,
    pub retained: Option<usize>,
    pub narenas: Option<u32>,
    pub max_background_threads: Option<usize>,
}

/// The entries written for the readings `r`.
///
/// Nothing is written where the statistics could not be refreshed or one of
/// them could not be read. Otherwise the statistics come under `stats`, and
/// then, where the number of arenas could be read, that number under
/// `arenas` and, where it could be read, the maximum number of background
/// threads.
pub open spec fn allocator_entries(r: AllocatorReadings) -> Seq<(Seq<char>, ItemValue)> {
    if !r.epoch_advanced || r.active is None || r.allocated is None || r.mapped is None
        || r.metadata is None || r.resident is None || r.retained is None {
        seq![]
    } else {
        let stats = seq![
            ("active"@, ItemValue::UInt(r.active->0 as u64)),
            ("allocated"@, ItemValue::UInt(r.allocated->0 as u64)),
            ("mapped"@, ItemValue::UInt(r.mapped->0 as u64)),
            ("metadata"@, ItemValue::UInt(r.metadata->0 as u64)),
            ("resident"@, ItemValue::UInt(r.resident->0 as u64)),
            ("retained"@, ItemValue::UInt(r.retained->0 as u64)),
        ];
        let first = seq![("stats"@, ItemValue::Group(stats))];
        match r.narenas {
            None => first,
            Some(n) => {
                let arenas = first.push(
                    ("arenas"@, ItemValue::Group(seq![("narenas"@, ItemValue::UInt(n as u64))])),
                );
                match r.max_background_threads {
                    Some(m) => arenas.push(("max_background_threads"@, ItemValue::UInt(m as u64))),
                    None => arenas,
                }
            },
        }
    }
}

/// Writes the entries for the readings `r` into `into`.
pub fn put_allocator_readings(r: &AllocatorReadings, into: &mut Snapshot)
    ensures
        final(into)@ == old(into)@ + allocator_entries(*r),
{
    proof {
        reveal_strlit("active");
        reveal_strlit("allocated");
        reveal_strlit("mapped");
        reveal_strlit("metadata");
        reveal_strlit("resident");
        reveal_strlit("retained");
        reveal_strlit("stats");
        reveal_strlit("arenas");
        reveal_strlit("narenas");
        reveal_strlit("max_background_threads");
    }
    if !r.epoch_advanced {
        assert(old(into)@ + allocator_entries(*r) =~= old(into)@);
        return;
    }
    let (active, allocated, mapped, metadata, resident, retained) = match (
        r.active,
        r.allocated,
        r.mapped,
        r.metadata,
        r.resident,
        r.retained,
    ) {
        (Some(a), Some(b), Some(c), Some(d), Some(e), Some(f)) => (a, b, c, d, e, f),
        _ => {
            assert(old(into)@ + allocator_entries(*r) =~= old(into)@);
            return;
        },
    };
    let mut stats = Snapshot::new();
    stats.push(String::from_str("active"), ItemKind::UInt(active as u64));
    stats.push(String::from_str("allocated"), ItemKind::UInt(allocated as u64));
    stats.push(String::from_str("mapped"), ItemKind::UInt(mapped as u64));
    stats.push(String::from_str("metadata"), ItemKind::UInt(metadata as u64));
    stats.push(String::from_str("resident"), ItemKind::UInt(resident as u64));
    stats.push(String::from_str("retained"), ItemKind::UInt(retained as u64));
    let ghost stats_entries = seq![
        ("active"@, ItemValue::UInt(active as u64)),
        ("allocated"@, ItemValue::UInt(allocated as u64)),
        ("mapped"@, ItemValue::UInt(mapped as u64)),
        ("metadata"@, ItemValue::UInt(metadata as u64)),
        ("resident"@, ItemValue::UInt(resident as u64)),
        ("retained"@, ItemValue::UInt(retained as u64)),
    ];
    assert(stats@ =~= stats_entries);
    let ghost before = into@;
    into.push(String::from_str("stats"), ItemKind::Snapshot(stats));
    assert(into@ == before.push(("stats"@, ItemValue::Group(stats_entries))));
    match r.narenas {
        None => {
            assert(into@ =~= before + allocator_entries(*r));
        },
        Some(n) => {
            let mut arenas = Snapshot::new();
            arenas.push(String::from_str("narenas"), ItemKind::UInt(n as u64));
            assert(arenas@ =~= seq![("narenas"@, ItemValue::UInt(n as u64))]);
            into.push(String::from_str("arenas"), ItemKind::Snapshot(arenas));
            match r.max_background_threads {
                Some(m) => {
                    into.push(String::from_str("max_background_threads"), ItemKind::UInt(m as u64));
                },
                None => {},
            }
            assert(into@ =~= before + allocator_entries(*r));
        },
    }
}

/// Advances jemalloc's statistics epoch through
/// `jemalloc_ctl::epoch::advance`, which refreshes the cached statistics.
/// Whether it worked depends on the allocator: nothing is stated.
#[verifier::external_body]
fn advance_allocator_epoch() -> bool {
    jemalloc_ctl::epoch::advance().is_ok()
}

/// Reads `stats.active` through `jemalloc_ctl::stats::active::read`; the
/// value depends on the process's memory: nothing is stated.
#[verifier::external_body]
fn read_active() -> Option<usize> {
    jemalloc_ctl::stats::active::read().ok()
}

/// Reads `stats.allocated` through `jemalloc_ctl::stats::allocated::read`;
/// nothing is stated of the value.
#[verifier::external_body]
fn read_allocated() -> Option<usize> {
    jemalloc_ctl::stats::allocated::read().ok()
}

/// Reads `stats.mapped` through `jemalloc_ctl::stats::mapped::read`;
/// nothing is stated of the value.
#[verifier::external_body]
fn read_mapped() -> Option<usize> {
    jemalloc_ctl::stats::mapped::read().ok()
}

/// Reads `stats.metadata` through `jemalloc_ctl::stats::metadata::read`;
/// nothing is stated of the value.
#[verifier::external_body]
fn read_metadata() -> Option<usize> {
    jemalloc_ctl::stats::metadata::read().ok()
}

/// Reads `stats.resident` through `jemalloc_ctl::stats::resident::read`;
/// nothing is stated of the value.
#[verifier::external_body]
fn read_resident() -> Option<usize> {
    jemalloc_ctl::stats::resident::read().ok()
}

/// Reads `stats.retained` through `jemalloc_ctl::stats::retained::read`;
/// nothing is stated of the value.
#[verifier::external_body]
fn read_retained() -> Option<usize> {
    jemalloc_ctl::stats::retained::read().ok()
}

/// Reads `arenas.narenas` through `jemalloc_ctl::arenas::narenas::read`;
/// nothing is stated of the value.
#[verifier::external_body]
fn read_narenas() -> Option<u32> {
    jemalloc_ctl::arenas::narenas::read().ok()
}

/// Reads `max_background_threads` through
/// `jemalloc_ctl::max_background_threads::read`; nothing is stated of the
/// value.
#[verifier::external_body]
fn read_max_background_threads() -> Option<usize> {
    jemalloc_ctl::max_background_threads::read().ok()
}

/// Writes statistics of the jemalloc allocator into snapshots.
pub struct JemallocStats;

impl JemallocStats {
    /// Reads the allocator's statistics, in the order in which they are
    /// written, stopping at the first read that fails.
    pub fn read() -> (r: AllocatorReadings)
        ensures
            !r.epoch_advanced ==> r.active is None,
            r.active is None ==> r.allocated is None,
            r.allocated is None ==> r.mapped is None,
            r.mapped is None ==> r.metadata is None,
            r.metadata is None ==> r.resident is None,
            r.resident is None ==> r.retained is None,
            r.retained is None ==> r.narenas is None,
            r.narenas is None ==> r.max_background_threads is None,
    {
        let mut r = AllocatorReadings {
            epoch_advanced: false,
            active: None,
            allocated: None,
            mapped: None,
            metadata: None,
            resident: None,
            retained: None,
            narenas: None,
            max_background_threads: None,
        };
        r.epoch_advanced = advance_allocator_epoch();
        if !r.epoch_advanced {
            return r;
        }
        r.active = read_active();
        if r.active.is_none() {
            return r;
        }
        r.allocated = read_allocated();
        if r.allocated.is_none() {
            return r;
        }
        r.mapped = read_mapped();
        if r.mapped.is_none() {
            return r;
        }
        r.metadata = read_metadata();
        if r.metadata.is_none() {
            return r;
        }
        r.resident = read_resident();
        if r.resident.is_none() {
            return r;
        }
        r.retained = read_retained();
        if r.retained.is_none() {
            return r;
        }
        r.narenas = read_narenas();
        if r.narenas.is_none() {
            return r;
        }
        r.max_background_threads = read_max_background_threads();
        r
    }
}

impl PutsSnapshot for JemallocStats {
    /// Writes what the allocator gave, as `allocator_entries` says.
    fn put_snapshot(&mut self, into: &mut Snapshot, _descriptive: bool)
        ensures
            exists|r: AllocatorReadings| final(into)@ == old(into)@ + #[trigger] allocator_entries(r),
    {
        let r = Self::read();
        put_allocator_readings(&r, into);
    }
}

} // verus!
