//! Free space on the filesystem that hosts the recordings, sampled rarely.

use crate::storage::error::Error;
use std::path::Path;
use std::time::{Duration, SystemTime, UNIX_EPOCH};
use sysinfo::Disks;
use vstd::prelude::*;
use vstd::string::*;

verus! {

/// Whether `base` is a prefix of `path` made of whole path components, as
/// `std::path::Path::starts_with` decides it.
pub uninterp spec fn is_path_prefix(path: Seq<char>, base: Seq<char>) -> bool;

/// `Path::new(path).starts_with(base)`: the standard library's component-wise
/// prefix test. Its answer is a function of the two texts alone and is taken
/// as the meaning of [`is_path_prefix`]; nothing else is claimed of it.
#[verifier::external_body]
fn path_starts_with(path: &str, base: &str) -> (covered: bool)
    ensures
        covered == is_path_prefix(path@, base@),
{
    Path::new(path).starts_with(Path::new(base))
}

/// A point on the system clock.
#[verifier::external_type_specification]
#[verifier::external_body]
pub struct ExSystemTime(SystemTime);

/// `SystemTime::now()`: the system clock's present reading. Nothing is
/// claimed of it.
#[verifier::external_body]
fn system_time_now() -> SystemTime {
    SystemTime::now()
}

/// `SystemTime::duration_since(UNIX_EPOCH)`: the span from the Unix epoch to
/// `moment`, or nothing when `moment` lies before the epoch. Nothing is
/// claimed of the span.
#[verifier::external_body]
fn since_unix_epoch(moment: &SystemTime) -> Option<Duration> {
    match moment.duration_since(UNIX_EPOCH) {
        Ok(span) => Some(span),
        Err(_) => None,
    }
}

/// `Duration::as_secs()`: the whole seconds in `span`. Nothing is claimed of
/// the number.
#[verifier::external_body]
fn whole_seconds(span: &Duration) -> u64 {
    span.as_secs()
}

/// `sysinfo::Disks::new_with_refreshed_list()`, with `Disk::mount_point()` and
/// `Disk::available_space()` read off each listed disk; a mount path that
/// is not valid UTF-8 is handed on as missing. The call takes no input: the
/// list is whatever the operating system reports at the moment of the call,
/// and the crate reads it off the machine's mount table and device links,
/// so nothing is claimed of it.
#[verifier::external_body]
fn mounted_filesystems() -> Vec<Listed> {
    Disks::new_with_refreshed_list().list().iter().map(
        |disk| Listed {
            mount_point: disk.mount_point().to_str().map(str::to_owned),
            available_space: disk.available_space() as usize,
        },
    ).collect()
}

/// Seconds since the Unix epoch on the system clock. A clock set before the
/// epoch reads as zero, and a reading too large for `usize` as its maximum.
pub fn timestamp() -> usize {
    let moment = system_time_now();
    let reading = match since_unix_epoch(&moment) {
        Some(span) => Some(whole_seconds(&span)),
        None => None,
    };
    clock_seconds(reading)
}

/// The seconds that a reading of the clock stands for: the whole seconds
/// since the Unix epoch, held at the largest `usize` where they do not fit,
/// and zero for a clock that stands before the epoch.
pub open spec fn reading_seconds(reading: Option<u64>) -> nat {
    match reading {
        Some(seconds) => if seconds > usize::MAX {
            usize::MAX as nat
        } else {
            seconds as nat
        },
        None => 0,
    }
}

/// Turns a reading of the clock into the seconds that [`timestamp`] reports:
/// `reading` holds the whole seconds since the Unix epoch, or nothing where
/// the clock stands before the epoch.
pub fn clock_seconds(reading: Option<u64>) -> (seconds: usize)
    ensures
        seconds == reading_seconds(reading),
{
    match reading {
        Some(seconds) => {
            if seconds > usize::MAX as u64 {
                usize::MAX
            } else {
                seconds as usize
            }
        },
        None => 0,
    }
}

/// What is known of one mounted filesystem when choosing among them.
#[derive(Debug, Clone, Copy, PartialEq, Eq)]
pub struct Candidate {
    /// The mount path is a prefix of the directory in question.
    pub covers: bool,
    /// Length of the mount path, in characters.
    pub depth: usize,
}

/// `i` is the filesystem that owns the directory: it covers it, no covering
/// mount path is longer, and among equally long ones it comes first.
pub open spec fn is_deepest(candidates: Seq<Candidate>, i: int) -> bool {
    &&& 0 <= i < candidates.len()
    &&& candidates[i].covers
    &&& forall|j: int|
        0 <= j < candidates.len() && candidates[j].covers ==> {
            ||| candidates[j].depth < candidates[i].depth
            ||| candidates[j].depth == candidates[i].depth && i <= j
        }
}

/// Picks the covering candidate with the longest mount path, the first of
/// them where several are equally long.
pub fn deepest(candidates: &Vec<Candidate>) -> (owner: Option<usize>)
    ensures
        match owner {
            Some(i) => is_deepest(candidates@, i as int),
            None => forall|j: int| 0 <= j < candidates.len() ==> !candidates[j].covers,
        },
{
    let mut best: Option<usize> = None;
    let mut k: usize = 0;
    while k < candidates.len()
        invariant
            k <= candidates.len(),
            match best {
                Some(i) => is_deepest(candidates@.take(k as int), i as int),
                None => forall|j: int| 0 <= j < k ==> !candidates[j].covers,
            },
        decreases candidates.len() - k,
    {
        let candidate = candidates[k];
        let ghost before = candidates@.take(k as int);
        let ghost after = candidates@.take(k as int + 1);
        if candidate.covers {
            let better = match best {
                Some(i) => candidates[i].depth < candidate.depth,
                None => true,
            };
            if better {
                best = Some(k);
            }
        }
        k = k + 1;
        proof {
            assert(forall|j: int| 0 <= j < before.len() ==> before[j] == after[j]);
        }
    }
    proof {
        assert(candidates@.take(k as int) == candidates@);
    }
    best
}

/// One mounted filesystem, as the operating system lists it.
#[derive(Debug, PartialEq, Eq)]
pub struct Mount {
    /// Where the filesystem is mounted.
    pub mount_point: String,
    /// Bytes free on it for this process, at the time of listing.
    pub available_space: usize,
}

/// The mathematical content of a [`Mount`].
pub struct MountView {
    pub mount_point: Seq<char>,
    pub available_space: nat,
}

impl View for Mount {
    type V = MountView;

    open spec fn view(&self) -> MountView {
        MountView {
            mount_point: self.mount_point@,
            available_space: self.available_space as nat,
        }
    }
}

/// The listing that a vector of mounts stands for.
pub open spec fn listing(mounts: Seq<Mount>) -> Seq<MountView> {
    mounts.map_values(|mount: Mount| mount@)
}

/// One entry of the operating system's list of mounts: the mount path,
/// where it can be written as text, and the bytes free there.
#[derive(Debug, PartialEq, Eq)]
pub struct Listed {
    /// Where the filesystem is mounted; missing where the path is not valid
    /// UTF-8.
    pub mount_point: Option<String>,
    /// Bytes free on it for this process, at the time of listing.
    pub available_space: usize,
}

/// The mathematical content of a [`Listed`].
pub struct ListedView {
    pub mount_point: Option<Seq<char>>,
    pub available_space: nat,
}

impl View for Listed {
    type V = ListedView;

    open spec fn view(&self) -> ListedView {
        ListedView {
            mount_point: match self.mount_point {
                Some(text) => Some(text@),
                None => None,
            },
            available_space: self.available_space as nat,
        }
    }
}

/// The mounts among `entries` whose path can be written as text, in their
/// order. The others cannot be compared with a directory given as text and
/// are left out.
pub open spec fn named(entries: Seq<ListedView>) -> Seq<MountView>
    decreases entries.len(),
{
    if entries.len() == 0 {
        Seq::empty()
    } else {
        match entries.last().mount_point {
            Some(mount_point) => named(entries.drop_last()).push(
                MountView { mount_point, available_space: entries.last().available_space },
            ),
            None => named(entries.drop_last()),
        }
    }
}

/// Keeps the mounts whose path can be written as text.
pub fn named_mounts(entries: &Vec<Listed>) -> (mounts: Vec<Mount>)
    ensures
        listing(mounts@) == named(entries@.map_values(|entry: Listed| entry@)),
{
    let ghost views = entries@.map_values(|entry: Listed| entry@);
    let mut mounts: Vec<Mount> = Vec::new();
    let mut k: usize = 0;
    while k < entries.len()
        invariant
            k <= entries.len(),
            views == entries@.map_values(|entry: Listed| entry@),
            listing(mounts@) == named(views.take(k as int)),
        decreases entries.len() - k,
    {
        let ghost before = listing(mounts@);
        proof {
            assert(views.take(k as int + 1).drop_last() == views.take(k as int));
            assert(views.take(k as int + 1).last() == entries[k as int]@);
        }
        match &entries[k].mount_point {
            Some(text) => {
                mounts.push(
                    Mount { mount_point: text.clone(), available_space: entries[k].available_space },
                );
                proof {
                    assert(listing(mounts@) == before.push(mounts[mounts.len() - 1]@));
                }
            },
            None => {},
        }
        k = k + 1;
    }
    proof {
        assert(views.take(k as int) == views);
    }
    mounts
}

/// Mount `i` of the listing covers `path`.
pub open spec fn covers(mounts: Seq<MountView>, path: Seq<char>, i: int) -> bool {
    0 <= i < mounts.len() && is_path_prefix(path, mounts[i].mount_point)
}

/// Mount `i` owns `path`: its mount path is the longest prefix of `path`
/// among all mounts, and the first such in the listing.
pub open spec fn owns(mounts: Seq<MountView>, path: Seq<char>, i: int) -> bool {
    &&& covers(mounts, path, i)
    &&& forall|j: int| #[trigger]
        covers(mounts, path, j) ==> {
            ||| mounts[j].mount_point.len() < mounts[i].mount_point.len()
            ||| mounts[j].mount_point.len() == mounts[i].mount_point.len() && i <= j
        }
}

/// Finds the mount that owns `absolute_path`, if any mount covers it.
pub fn active_disk(mounts: &Vec<Mount>, absolute_path: &str) -> (owner: Option<usize>)
    ensures
        match owner {
            Some(i) => owns(listing(mounts@), absolute_path@, i as int),
            None => forall|j: int| !covers(listing(mounts@), absolute_path@, j),
        },
{
    let mut candidates: Vec<Candidate> = Vec::new();
    let mut k: usize = 0;
    while k < mounts.len()
        invariant
            k <= mounts.len(),
            candidates.len() == k,
            forall|j: int|
                0 <= j < k ==> {
                    &&& (#[trigger] candidates[j]).covers == is_path_prefix(
                        absolute_path@,
                        mounts[j].mount_point@,
                    )
                    &&& candidates[j].depth == mounts[j].mount_point@.len()
                },
        decreases mounts.len() - k,
    {
        let mount_point = mounts[k].mount_point.as_str();
        candidates.push(
            Candidate {
                covers: path_starts_with(absolute_path, mount_point),
                depth: mount_point.unicode_len(),
            },
        );
        k = k + 1;
    }
    let owner = deepest(&candidates);
    proof {
        let list = listing(mounts@);
        assert forall|j: int| covers(list, absolute_path@, j) == (0 <= j < candidates.len()
            && candidates[j].covers) by {}
        match owner {
            Some(i) => {
                assert(covers(list, absolute_path@, i as int));
                assert forall|j: int| #[trigger]
                    covers(list, absolute_path@, j) implies {
                    ||| list[j].mount_point.len() < list[i as int].mount_point.len()
                    ||| list[j].mount_point.len() == list[i as int].mount_point.len() && i <= j
                } by {
                    assert(candidates[j].covers);
                }
            },
            None => {},
        }
    }
    owner
}

/// Seconds a sample of the free space stays in use before the disks are
/// asked again.
pub const REFRESH_PERIOD_DURATION: usize = 60;

/// The cached reading: which mount is watched, the free space last seen on
/// it, and when that was seen (seconds since the Unix epoch).
pub struct DiskSnapshot {
    pub mount_point: Seq<char>,
    pub available_bytes: nat,
    pub sampled_at: nat,
}

impl DiskSnapshot {
    /// The sample is older than the refresh period at time `now`.
    pub open spec fn stale(self, now: nat) -> bool {
        now - self.sampled_at > REFRESH_PERIOD_DURATION
    }

    /// The free space that `mounts` reports for the watched mount: that of
    /// the first entry mounted at the same path.
    pub open spec fn reading(self, mounts: Seq<MountView>) -> Option<nat> {
        match mounts.map_values(|mount: MountView| mount.mount_point).index_of_first(
            self.mount_point,
        ) {
            Some(i) => Some(mounts[i].available_space),
            None => None,
        }
    }

    /// The snapshot after a fresh look at `mounts` at time `now`. A watched
    /// mount that is no longer listed keeps its last reading.
    pub open spec fn refreshed(self, mounts: Seq<MountView>, now: nat) -> DiskSnapshot {
        DiskSnapshot {
            mount_point: self.mount_point,
            available_bytes: match self.reading(mounts) {
                Some(bytes) => bytes,
                None => self.available_bytes,
            },
            sampled_at: now,
        }
    }

    /// The snapshot after a query at time `now`, when a fresh look would
    /// show `mounts`: refreshed if stale, untouched otherwise.
    pub open spec fn observed(self, mounts: Seq<MountView>, now: nat) -> DiskSnapshot {
        if self.stale(now) {
            self.refreshed(mounts, now)
        } else {
            self
        }
    }
}

/// Reports the free space of the filesystem that hosts one directory,
/// asking the operating system at most once per refresh period.
#[derive(Debug, PartialEq, Eq)]
pub struct DiskInspector {
    mount_point: String,
    available_bytes: usize,
    last_refresh_timestamp: usize,
}

impl View for DiskInspector {
    type V = DiskSnapshot;

    closed spec fn view(&self) -> DiskSnapshot {
        DiskSnapshot {
            mount_point: self.mount_point@,
            available_bytes: self.available_bytes as nat,
            sampled_at: self.last_refresh_timestamp as nat,
        }
    }
}

impl DiskInspector {
    /// Starts watching `mount`, whose reading was taken at `now`.
    pub fn new(mount: Mount, now: usize) -> (inspector: DiskInspector)
        ensures
            inspector@ == (DiskSnapshot {
                mount_point: mount@.mount_point,
                available_bytes: mount@.available_space,
                sampled_at: now as nat,
            }),
    {
        DiskInspector {
            mount_point: mount.mount_point,
            available_bytes: mount.available_space,
            last_refresh_timestamp: now,
        }
    }

    /// Resolves the mount that owns `absolute_path` among `mounts`, listed at
    /// time `now`, and starts watching it. Fails exactly when no mount path
    /// is a prefix of `absolute_path`.
    pub fn detect(mounts: &Vec<Mount>, absolute_path: &str, now: usize) -> (outcome: Result<
        DiskInspector,
        Error,
    >)
        ensures
            match outcome {
                Ok(inspector) => exists|i: int|
                    {
                        &&& #[trigger] owns(listing(mounts@), absolute_path@, i)
                        &&& inspector@ == (DiskSnapshot {
                            mount_point: mounts[i]@.mount_point,
                            available_bytes: mounts[i]@.available_space,
                            sampled_at: now as nat,
                        })
                    },
                Err(error) => {
                    &&& error == Error::ActiveDiskDetectionFailed
                    &&& forall|j: int| !covers(listing(mounts@), absolute_path@, j)
                },
            },
    {
        match active_disk(mounts, absolute_path) {
            Some(i) => {
                let mount = Mount {
                    mount_point: mounts[i].mount_point.clone(),
                    available_space: mounts[i].available_space,
                };
                Ok(DiskInspector::new(mount, now))
            },
            None => Err(Error::ActiveDiskDetectionFailed),
        }
    }

    /// The free space last seen, without looking again.
    pub fn cached(&self) -> (bytes: usize)
        ensures
            bytes == self@.available_bytes,
    {
        self.available_bytes
    }

    /// Whether the sample is older than the refresh period at time `now`.
    pub fn refresh_required(&self, now: usize) -> (required: bool)
        ensures
            required == self@.stale(now as nat),
    {
        now > self.last_refresh_timestamp && now - self.last_refresh_timestamp
            > REFRESH_PERIOD_DURATION
    }

    /// Takes a new sample from `mounts`, listed at time `now`.
    pub fn refresh(&mut self, mounts: &Vec<Mount>, now: usize)
        ensures
            final(self)@ == old(self)@.refreshed(listing(mounts@), now as nat),
    {
        let ghost points = listing(mounts@).map_values(|mount: MountView| mount.mount_point);
        let mut k: usize = 0;
        let mut found: Option<usize> = None;
        while k < mounts.len()
            invariant_except_break
                found is None,
                forall|j: int| 0 <= j < k ==> points[j] != self.mount_point@,
            invariant
                k <= mounts.len(),
                points == listing(mounts@).map_values(|mount: MountView| mount.mount_point),
            ensures
                match found {
                    Some(i) => i < mounts.len() && points[i as int] == self.mount_point@
                        && forall|j: int| 0 <= j < i ==> points[j] != self.mount_point@,
                    None => forall|j: int| 0 <= j < mounts.len() ==> points[j]
                        != self.mount_point@,
                },
            decreases mounts.len() - k,
        {
            if mounts[k].mount_point == self.mount_point {
                found = Some(k);
                break ;
            }
            k = k + 1;
        }
        proof {
            points.index_of_first_ensures(self.mount_point@);
        }
        match found {
            Some(i) => {
                self.available_bytes = mounts[i].available_space;
            },
            None => {},
        }
        self.last_refresh_timestamp = now;
    }

    /// Takes a new sample from the operating system if the present one is
    /// stale at time `now`, and leaves the inspector alone otherwise.
    pub fn ensure_refreshed(&mut self, now: usize)
        ensures
            exists|mounts: Seq<MountView>| final(self)@ == old(self)@.observed(mounts, now as nat),
    {
        if self.refresh_required(now) {
            let mounts = named_mounts(&mounted_filesystems());
            self.refresh(&mounts, now);
            assert(self@ == old(self)@.observed(listing(mounts@), now as nat));
        } else {
            assert(self@ == old(self)@.observed(Seq::empty(), now as nat));
        }
    }

    /// Bytes free on the watched filesystem: the cached sample while it is
    /// fresh on the system clock, a new one from the operating system once
    /// it is stale.
    pub fn bytes_available(&mut self) -> (bytes: usize)
        ensures
            exists|mounts: Seq<MountView>, now: nat| final(self)@ == old(self)@.observed(mounts, now),
            bytes == final(self)@.available_bytes,
    {
        let now = timestamp();
        self.ensure_refreshed(now);
        self.available_bytes
    }
}

/// Lists the mounted filesystems, reads the clock, and starts watching the
/// mount that owns `absolute_path`. Fails when the operating system lists no
/// mount whose path is a prefix of `absolute_path`.
pub fn build(absolute_path: &str) -> (outcome: Result<DiskInspector, Error>)
    ensures
        match outcome {
            Ok(inspector) => is_path_prefix(absolute_path@, inspector@.mount_point),
            Err(error) => error == Error::ActiveDiskDetectionFailed,
        },
{
    let mounts = named_mounts(&mounted_filesystems());
    let now = timestamp();
    DiskInspector::detect(&mounts, absolute_path, now)
}

/// A query within the refresh period of the sample is answered from the
/// sample, whatever the disks would report.
pub proof fn law_fresh_sample_is_served(snapshot: DiskSnapshot, mounts: Seq<MountView>, now: nat)
    requires
        now <= snapshot.sampled_at + REFRESH_PERIOD_DURATION,
    ensures
        snapshot.observed(mounts, now) == snapshot,
{
}

/// A query later than the refresh period after the sample takes a new one:
/// the reading of the watched mount as listed then, stamped with the time of
/// the query.
pub proof fn law_stale_sample_is_replaced(snapshot: DiskSnapshot, mounts: Seq<MountView>, now: nat)
    requires
        now > snapshot.sampled_at + REFRESH_PERIOD_DURATION,
    ensures
        snapshot.observed(mounts, now).sampled_at == now,
        snapshot.observed(mounts, now).mount_point == snapshot.mount_point,
        match snapshot.reading(mounts) {
            Some(bytes) => snapshot.observed(mounts, now).available_bytes == bytes,
            None => snapshot.observed(mounts, now).available_bytes == snapshot.available_bytes,
        },
{
}

/// Two queries no more than the refresh period apart report the same free
/// space, whatever the disks report at either, provided the sample on hand
/// does not turn stale between the two: it was already stale at the first
/// query (which then replaced it), or is still fresh at the second, or the
/// disks happen to report its value again.
pub proof fn law_queries_within_period_agree(
    snapshot: DiskSnapshot,
    at_first: Seq<MountView>,
    at_second: Seq<MountView>,
    first: nat,
    second: nat,
)
    requires
        first <= second <= first + REFRESH_PERIOD_DURATION,
        snapshot.stale(first) || !snapshot.stale(second) || snapshot.refreshed(
            at_second,
            second,
        ).available_bytes == snapshot.available_bytes,
    ensures
        snapshot.observed(at_first, first).observed(at_second, second).available_bytes
            == snapshot.observed(at_first, first).available_bytes,
{
}

} // verus!
