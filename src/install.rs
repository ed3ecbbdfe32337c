//! The installer's decisions: when a directory already holds a valid
//! installation, and the steps that install a release otherwise.
use vstd::prelude::*;

verus! {

/// A concrete release: its version, the platform it is built for and the
/// checksum of its archive.
#[derive(Clone, Debug)]
pub struct ReleaseDescriptor {
    pub version: String,
    pub platform: String,
    pub checksum: String,
}

/// The marker that a directory holds a complete, verified installation.
#[derive(Clone, Debug)]
pub struct InstallationRecord {
    pub version: String,
    pub checksum: String,
}

/// One step of an installation, in the order in which they run.
#[derive(Clone, Copy, Debug, PartialEq, Eq, Structural)]
pub enum InstallStep {
    AcquireLock,
    Download,
    VerifyChecksum,
    ExtractToTemporary,
    RenameIntoPlace,
    WriteRecord,
    ReleaseLock,
}

/// A record proves an installation of `release` when its checksum is the
/// release's.
pub open spec fn record_matches(record: Option<InstallationRecord>, release: ReleaseDescriptor) -> bool {
    match record {
        Some(r) => r.checksum@ == release.checksum@,
        None => false,
    }
}

/// The full sequence of steps for a directory without a valid installation.
pub open spec fn full_install() -> Seq<InstallStep> {
    seq![
        InstallStep::AcquireLock,
        InstallStep::Download,
        InstallStep::VerifyChecksum,
        InstallStep::ExtractToTemporary,
        InstallStep::RenameIntoPlace,
        InstallStep::WriteRecord,
        InstallStep::ReleaseLock,
    ]
}

/// The steps an install runs: none on a cache hit, all of them otherwise.
pub open spec fn install_steps(record: Option<InstallationRecord>, release: ReleaseDescriptor) -> Seq<InstallStep> {
    if record_matches(record, release) {
        Seq::empty()
    } else {
        full_install()
    }
}

/// What a directory holds: its record, and whether its contents were
/// extracted completely.
pub struct Directory {
    pub record: Option<InstallationRecord>,
    pub complete: bool,
}

/// The directory after `step` ran for `release`.
pub open spec fn after_step(dir: Directory, step: InstallStep, release: ReleaseDescriptor) -> Directory {
    match step {
        InstallStep::RenameIntoPlace => Directory { record: dir.record, complete: true },
        InstallStep::WriteRecord => Directory {
            record: Some(InstallationRecord { version: release.version, checksum: release.checksum }),
            complete: dir.complete,
        },
        _ => dir,
    }
}

/// The directory after `steps` ran in order.
pub open spec fn after_steps(dir: Directory, steps: Seq<InstallStep>, release: ReleaseDescriptor) -> Directory
    decreases steps.len(),
{
    if steps.len() == 0 {
        dir
    } else {
        after_step(after_steps(dir, steps.drop_last(), release), steps.last(), release)
    }
}

/// Whether `record` proves an installation of `release`: the cache-hit
/// test.
pub fn is_cache_hit(record: &Option<InstallationRecord>, release: &ReleaseDescriptor) -> (r: bool)
    ensures
        r == record_matches(*record, *release),
{
    match record {
        Some(rec) => rec.checksum == release.checksum,
        None => false,
    }
}

/// The steps that installing `release` into a directory holding `record`
/// takes.
pub fn plan_install(record: &Option<InstallationRecord>, release: &ReleaseDescriptor) -> (r: Vec<InstallStep>)
    ensures
        r@ == install_steps(*record, *release),
{
    if is_cache_hit(record, release) {
        Vec::new()
    } else {
        let r = vec![
            InstallStep::AcquireLock,
            InstallStep::Download,
            InstallStep::VerifyChecksum,
            InstallStep::ExtractToTemporary,
            InstallStep::RenameIntoPlace,
            InstallStep::WriteRecord,
            InstallStep::ReleaseLock,
        ];
        assert(r@ =~= full_install());
        r
    }
}

/// Installing the same release twice downloads and extracts once: after a
/// full install the directory's record matches the release, and a second
/// install runs no step at all.
pub proof fn lemma_second_install_is_cache_hit(dir: Directory, release: ReleaseDescriptor)
    ensures
        ({
            let first = install_steps(dir.record, release);
            let after = after_steps(dir, first, release);
            &&& record_matches(after.record, release)
            &&& after.complete || record_matches(dir.record, release)
            &&& install_steps(after.record, release) == Seq::<InstallStep>::empty()
        }),
{
    let first = install_steps(dir.record, release);
    if !record_matches(dir.record, release) {
        lemma_steps_unfold(dir, release);
    }
}

proof fn lemma_steps_unfold(dir: Directory, release: ReleaseDescriptor)
    ensures
        after_steps(dir, full_install(), release).complete,
        record_matches(after_steps(dir, full_install(), release).record, release),
{
    let s = full_install();
    reveal_with_fuel(after_steps, 8);
    assert(s.drop_last() =~= s.take(6));
    assert(s.take(6).drop_last() =~= s.take(5));
    assert(s.take(5).drop_last() =~= s.take(4));
    assert(s.take(4).drop_last() =~= s.take(3));
    assert(s.take(3).drop_last() =~= s.take(2));
    assert(s.take(2).drop_last() =~= s.take(1));
    assert(s.take(1).drop_last() =~= s.take(0));
}

/// An install cut short at any step leaves a directory that passes the
/// cache-hit test only if it is complete: the record is written after the
/// contents are in place.
pub proof fn lemma_interrupted_install_never_falsely_cached(dir: Directory, release: ReleaseDescriptor, k: int)
    requires
        !dir.record.is_some(),
        0 <= k <= full_install().len(),
    ensures
        ({
            let cut = after_steps(dir, full_install().take(k), release);
            record_matches(cut.record, release) ==> cut.complete
        }),
{
    lemma_prefix_state(dir, release, k);
}

proof fn lemma_prefix_state(dir: Directory, release: ReleaseDescriptor, k: int)
    requires
        !dir.record.is_some(),
        0 <= k <= full_install().len(),
    ensures
        ({
            let cut = after_steps(dir, full_install().take(k), release);
            &&& k <= 5 ==> cut.record is None
            &&& k >= 5 ==> cut.complete
        }),
    decreases k,
{
    let s = full_install();
    if k > 0 {
        lemma_prefix_state(dir, release, k - 1);
        assert(s.take(k).drop_last() =~= s.take(k - 1));
        assert(s.take(k).last() == s[k - 1]);
    }
}

} // verus!
