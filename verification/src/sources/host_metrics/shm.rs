//! Who owns the SysV shared memory that a process uses.

use std::collections::HashSet;

use vstd::prelude::*;
use vstd::std_specs::hash::*;

verus! {

broadcast use group_hash_axioms;

/// The SysV shared memory segments of the host: key and creator PID of each.
#[derive(Debug)]
pub struct ShmInfo {
    /// (key, creator_pid) pairs for all active segments.
    segments: Vec<(i32, i32)>,
    /// Set of PIDs that created at least one SHM segment.
    creator_pids: HashSet<i32>,
}

/// What a mapping of a process maps.
#[derive(Clone, Copy, Debug, PartialEq, Eq, Structural)]
pub enum MapPath {
    /// The SysV shared memory segment with this key.
    Vsys(i32),
    /// Anything else.
    Other,
}

/// Whether `pid` created one of the segments.
pub open spec fn creates_segment(segments: Seq<(i32, i32)>, pid: i32) -> bool {
    exists|i: int| 0 <= i < segments.len() && (#[trigger] segments[i]).1 == pid
}

/// The creator of the first segment with this key.
pub open spec fn creator_of_key(segments: Seq<(i32, i32)>, key: i32) -> Option<i32>
    decreases segments.len(),
{
    if segments.len() == 0 {
        None
    } else if segments[0].0 == key {
        Some(segments[0].1)
    } else {
        creator_of_key(segments.drop_first(), key)
    }
}

/// The creator of the first mapped segment that has one.
pub open spec fn mapped_creator(segments: Seq<(i32, i32)>, maps: Seq<MapPath>) -> Option<i32>
    decreases maps.len(),
{
    if maps.len() == 0 {
        None
    } else {
        match maps[0] {
            MapPath::Vsys(key) if creator_of_key(segments, key) is Some => creator_of_key(
                segments,
                key,
            ),
            _ => mapped_creator(segments, maps.drop_first()),
        }
    }
}

/// Whether the resident shared memory of a process is known to be more than none.
pub open spec fn uses_shm(rssshmem: Option<u64>) -> bool {
    rssshmem matches Some(size) && size > 0
}

/// The owner that the mappings of a process show, where they could be read.
pub open spec fn owner_by_maps(segments: Seq<(i32, i32)>, maps: Option<Seq<MapPath>>) -> Option<
    i32,
> {
    match maps {
        Some(maps) => mapped_creator(segments, maps),
        None => None,
    }
}

/// The mappings, as contracts speak of them.
pub open spec fn maps_view(maps: Option<Vec<MapPath>>) -> Option<Seq<MapPath>> {
    match maps {
        Some(maps) => Some(maps@),
        None => None,
    }
}

/// The owner of the shared memory that process `pid` uses, where `maps` is what can be read of
/// its mappings.
pub open spec fn shm_owner(
    segments: Seq<(i32, i32)>,
    pid: i32,
    rssshmem: Option<u64>,
    maps: Option<Seq<MapPath>>,
) -> Option<i32> {
    if creates_segment(segments, pid) {
        Some(pid)
    } else if !uses_shm(rssshmem) {
        None
    } else {
        owner_by_maps(segments, maps)
    }
}

/// What is known of an owner before the mappings of the process are read.
#[derive(Clone, Copy, Debug, PartialEq, Eq, Structural)]
pub enum ShmOwner {
    /// The owner, or that there is none. The mappings are not needed.
    Known(Option<i32>),
    /// The mappings have to be read.
    InMaps,
}

impl View for ShmInfo {
    type V = Seq<(i32, i32)>;

    closed spec fn view(&self) -> Seq<(i32, i32)> {
        self.segments@
    }
}

impl ShmInfo {
    #[verifier::type_invariant]
    spec fn well_formed(self) -> bool {
        forall|pid: i32| #[trigger]
            self.creator_pids@.contains(pid) <==> creates_segment(self.segments@, pid)
    }

    /// The segments that were read, none where they could not be read.
    pub fn from_segments(read: Option<Vec<(i32, i32)>>) -> (info: ShmInfo)
        ensures
            info@ == match read {
                Some(segments) => segments@,
                None => Seq::empty(),
            },
    {
        let segments: Vec<(i32, i32)> = match read {
            Some(segments) => segments,
            None => Vec::new(),
        };
        let mut creator_pids: HashSet<i32> = HashSet::new();
        let mut i: usize = 0;
        while i < segments.len()
            invariant
                i <= segments@.len(),
                forall|pid: i32| #[trigger]
                    creator_pids@.contains(pid) <==> exists|j: int|
                        0 <= j < i && (#[trigger] segments@[j]).1 == pid,
            decreases segments@.len() - i,
        {
            let ghost before = creator_pids@;
            creator_pids.insert(segments[i].1);
            assert forall|pid: i32| #[trigger] creator_pids@.contains(pid) implies exists|j: int|
                0 <= j < i + 1 && (#[trigger] segments@[j]).1 == pid by {
                if pid == segments@[i as int].1 {
                } else {
                    assert(before.contains(pid));
                }
            }
            assert forall|j: int| 0 <= j < i + 1 implies creator_pids@.contains(
                (#[trigger] segments@[j]).1,
            ) by {
                if j < i {
                    assert(before.contains(segments@[j].1));
                }
            }
            i = i + 1;
        }
        ShmInfo { segments, creator_pids }
    }

    /// The creator of the first segment with this key.
    fn find_creator(&self, key: i32) -> (creator: Option<i32>)
        ensures
            creator == creator_of_key(self@, key),
    {
        let mut i: usize = 0;
        assert(self.segments@.skip(0) =~= self.segments@);
        while i < self.segments.len()
            invariant
                i <= self.segments@.len(),
                creator_of_key(self.segments@, key) == creator_of_key(
                    self.segments@.skip(i as int),
                    key,
                ),
            decreases self.segments@.len() - i,
        {
            let segment: (i32, i32) = self.segments[i];
            assert(self.segments@.skip(i as int).drop_first() =~= self.segments@.skip(i + 1));
            if segment.0 == key {
                return Some(segment.1);
            }
            i = i + 1;
        }
        None
    }
}

/// Find the creator PID of a SysV shared memory segment used by a process, as far as it can be
/// told without the mappings of the process.
///
/// Strategy (cheapest first):
/// 1. If this process's PID is itself a SHM creator, it is its own owner.
/// 2. If its resident shared memory is more than none, its mappings tell which segment is
///    mapped: [`owner_in_maps`] finds that segment's creator PID.
/// 3. Otherwise there is none, and no mappings need to be read.
pub fn resolve_shm_owner(pid: i32, rssshmem: Option<u64>, shm_info: &ShmInfo) -> (owner: ShmOwner)
    ensures
        owner == ShmOwner::InMaps <==> !creates_segment(shm_info@, pid) && uses_shm(rssshmem),
        match owner {
            ShmOwner::Known(known) => forall|maps: Option<Seq<MapPath>>| #[trigger]
                shm_owner(shm_info@, pid, rssshmem, maps) == known,
            ShmOwner::InMaps => forall|maps: Option<Seq<MapPath>>| #[trigger]
                shm_owner(shm_info@, pid, rssshmem, maps) == owner_by_maps(shm_info@, maps),
        },
{
    proof {
        use_type_invariant(shm_info);
    }
    // Fast path: this process created a SHM segment
    if shm_info.creator_pids.contains(&pid) {
        return ShmOwner::Known(Some(pid));
    }
    // Only read maps if the process actually uses shared memory
    match rssshmem {
        Some(size) if size > 0 => ShmOwner::InMaps,
        _ => ShmOwner::Known(None),
    }
}

/// Finds the owner in the mappings of the process, where they could be read.
pub fn owner_in_maps(maps: &Option<Vec<MapPath>>, shm_info: &ShmInfo) -> (owner: Option<i32>)
    ensures
        owner == owner_by_maps(shm_info@, maps_view(*maps)),
{
    let list: &Vec<MapPath> = match maps {
        Some(list) => list,
        None => {
            return None;
        },
    };
    let mut i: usize = 0;
    assert(list@.skip(0) =~= list@);
    while i < list.len()
        invariant
            i <= list@.len(),
            maps_view(*maps) == Some(list@),
            mapped_creator(shm_info@, list@) == mapped_creator(shm_info@, list@.skip(i as int)),
        decreases list@.len() - i,
    {
        assert(list@.skip(i as int).drop_first() =~= list@.skip(i + 1));
        if let MapPath::Vsys(key) = list[i] {
            let creator: Option<i32> = shm_info.find_creator(key);
            if creator.is_some() {
                return creator;
            }
        }
        i = i + 1;
    }
    None
}

/// A process that created a segment is taken as the owner itself, whatever it maps.
pub proof fn creators_own(
    segments: Seq<(i32, i32)>,
    pid: i32,
    rssshmem: Option<u64>,
    maps: Option<Seq<MapPath>>,
)
    requires
        creates_segment(segments, pid),
    ensures
        shm_owner(segments, pid, rssshmem, maps) == Some(pid),
{
}

/// Every owner that is found has created a segment.
pub proof fn owners_created_a_segment(
    segments: Seq<(i32, i32)>,
    pid: i32,
    rssshmem: Option<u64>,
    maps: Option<Seq<MapPath>>,
)
    ensures
        shm_owner(segments, pid, rssshmem, maps) matches Some(owner) ==> creates_segment(
            segments,
            owner,
        ),
{
    if let Some(maps) = maps {
        mapped_creator_created(segments, maps);
    }
}

proof fn key_creator_created(segments: Seq<(i32, i32)>, key: i32)
    ensures
        creator_of_key(segments, key) matches Some(owner) ==> creates_segment(segments, owner),
    decreases segments.len(),
{
    if segments.len() > 0 {
        let rest = segments.drop_first();
        key_creator_created(rest, key);
        if segments[0].0 != key {
            if let Some(owner) = creator_of_key(rest, key) {
                let i = choose|i: int| 0 <= i < rest.len() && (#[trigger] rest[i]).1 == owner;
                assert(segments[i + 1].1 == owner);
            }
        }
    }
}

proof fn mapped_creator_created(segments: Seq<(i32, i32)>, maps: Seq<MapPath>)
    ensures
        mapped_creator(segments, maps) matches Some(owner) ==> creates_segment(segments, owner),
    decreases maps.len(),
{
    if maps.len() > 0 {
        mapped_creator_created(segments, maps.drop_first());
        if let MapPath::Vsys(key) = maps[0] {
            key_creator_created(segments, key);
        }
    }
}

/// The creator for a key is that of the first segment that has the key, wherever in the list it
/// stands, and there is none exactly where no segment has the key.
pub proof fn first_segment_of_a_key_counts(segments: Seq<(i32, i32)>, key: i32, creator: i32)
    ensures
        creator_of_key(segments, key) == Some(creator) <==> exists|b: int|
            {
                &&& 0 <= b < segments.len()
                &&& #[trigger] segments[b] == (key, creator)
                &&& forall|c: int| 0 <= c < b ==> (#[trigger] segments[c]).0 != key
            },
        creator_of_key(segments, key) is None <==> forall|b: int|
            0 <= b < segments.len() ==> (#[trigger] segments[b]).0 != key,
    decreases segments.len(),
{
    if segments.len() > 0 {
        let rest = segments.drop_first();
        first_segment_of_a_key_counts(rest, key, creator);
        assert forall|b: int| 0 <= b < rest.len() implies #[trigger] rest[b] == segments[b + 1] by {
        }
        if segments[0].0 == key {
            if creator_of_key(segments, key) == Some(creator) {
                assert(segments[0] == (key, creator));
            }
        } else {
            if creator_of_key(segments, key) == Some(creator) {
                let b = choose|b: int|
                    {
                        &&& 0 <= b < rest.len()
                        &&& #[trigger] rest[b] == (key, creator)
                        &&& forall|c: int| 0 <= c < b ==> (#[trigger] rest[c]).0 != key
                    };
                assert(segments[b + 1] == (key, creator));
                assert forall|c: int| 0 <= c < b + 1 implies (#[trigger] segments[c]).0 != key by {
                    if c > 0 {
                        assert(rest[c - 1].0 != key);
                    }
                }
            }
            if exists|b: int|
                {
                    &&& 0 <= b < segments.len()
                    &&& #[trigger] segments[b] == (key, creator)
                    &&& forall|c: int| 0 <= c < b ==> (#[trigger] segments[c]).0 != key
                } {
                let b = choose|b: int|
                    {
                        &&& 0 <= b < segments.len()
                        &&& #[trigger] segments[b] == (key, creator)
                        &&& forall|c: int| 0 <= c < b ==> (#[trigger] segments[c]).0 != key
                    };
                assert(rest[b - 1] == (key, creator));
                assert forall|c: int| 0 <= c < b - 1 implies (#[trigger] rest[c]).0 != key by {
                    assert(segments[c + 1].0 != key);
                }
            }
            if forall|b: int| 0 <= b < segments.len() ==> (#[trigger] segments[b]).0 != key {
                assert forall|b: int| 0 <= b < rest.len() implies (#[trigger] rest[b]).0 != key by {
                    assert(segments[b + 1].0 != key);
                }
            }
            if forall|b: int| 0 <= b < rest.len() ==> (#[trigger] rest[b]).0 != key {
                assert forall|b: int| 0 <= b < segments.len() implies (#[trigger] segments[b]).0
                    != key by {
                    if b > 0 {
                        assert(rest[b - 1].0 != key);
                    }
                }
            }
        }
    }
}

/// Whether the mapping at place `a` is one of a segment of the host.
pub open spec fn maps_a_segment(segments: Seq<(i32, i32)>, maps: Seq<MapPath>, a: int) -> bool {
    exists|b: int|
        0 <= b < segments.len() && maps[a] == MapPath::Vsys((#[trigger] segments[b]).0)
}

proof fn lemma_maps_a_segment(segments: Seq<(i32, i32)>, maps: Seq<MapPath>, a: int)
    ensures
        maps_a_segment(segments, maps, a) <==> (maps[a] matches MapPath::Vsys(key)
            && creator_of_key(segments, key) is Some),
{
    if let MapPath::Vsys(key) = maps[a] {
        first_segment_of_a_key_counts(segments, key, 0);
    }
}

/// The owner that mappings show is the creator of the first segment that has the key of the first
/// mapping of a segment, wherever in their lists they stand. There is none exactly where no
/// mapping is one of a segment.
pub proof fn first_mapped_segment_counts(
    segments: Seq<(i32, i32)>,
    maps: Seq<MapPath>,
    a: int,
    b: int,
)
    requires
        0 <= a < maps.len(),
        0 <= b < segments.len(),
        maps[a] == MapPath::Vsys(segments[b].0),
        forall|c: int| 0 <= c < a ==> !maps_a_segment(segments, maps, c),
        forall|c: int| 0 <= c < b ==> (#[trigger] segments[c]).0 != segments[b].0,
    ensures
        mapped_creator(segments, maps) == Some(segments[b].1),
    decreases a,
{
    first_segment_of_a_key_counts(segments, segments[b].0, segments[b].1);
    assert(segments[b] == (segments[b].0, segments[b].1));
    if a > 0 {
        let rest = maps.drop_first();
        lemma_maps_a_segment(segments, maps, 0);
        assert forall|c: int| 0 <= c < a - 1 implies !maps_a_segment(segments, rest, c) by {
            assert(rest[c] == maps[c + 1]);
            assert(!maps_a_segment(segments, maps, c + 1));
        }
        first_mapped_segment_counts(segments, rest, a - 1, b);
    }
}

/// Mappings of which none is one of a segment show no owner.
pub proof fn unmapped_segments_do_not_count(segments: Seq<(i32, i32)>, maps: Seq<MapPath>)
    requires
        forall|a: int| 0 <= a < maps.len() ==> !maps_a_segment(segments, maps, a),
    ensures
        mapped_creator(segments, maps) is None,
    decreases maps.len(),
{
    if maps.len() > 0 {
        let rest = maps.drop_first();
        lemma_maps_a_segment(segments, maps, 0);
        assert forall|a: int| 0 <= a < rest.len() implies !maps_a_segment(segments, rest, a) by {
            assert(rest[a] == maps[a + 1]);
            assert(!maps_a_segment(segments, maps, a + 1));
        }
        unmapped_segments_do_not_count(segments, rest);
    }
}

/// The owner of the shared memory that a process uses: the process itself, if it created any of
/// the segments; else, if it uses shared memory and its mappings can be read, whatever these show;
/// else none.
pub proof fn owner_by_the_lists(
    segments: Seq<(i32, i32)>,
    pid: i32,
    rssshmem: Option<u64>,
    maps: Option<Seq<MapPath>>,
)
    ensures
        ({
            let creator = exists|i: int|
                0 <= i < segments.len() && (#[trigger] segments[i]).1 == pid;
            let owner = shm_owner(segments, pid, rssshmem, maps);
            &&& creator ==> owner == Some(pid)
            &&& !creator && (rssshmem is None || rssshmem == Some(0u64)) ==> owner is None
            &&& !creator && maps is None ==> owner is None
            &&& (!creator && rssshmem is Some && rssshmem != Some(0u64) && maps is Some) ==> {
                &&& owner == mapped_creator(segments, maps->0)
                &&& owner == owner_by_maps(segments, maps)
            }
        }),
{
}

/// Mappings that cannot be read show no owner, and others what they show.
pub proof fn unread_maps_show_nothing(segments: Seq<(i32, i32)>, maps: Option<Vec<MapPath>>)
    ensures
        maps is None ==> owner_by_maps(segments, maps_view(maps)) is None,
        maps matches Some(list) ==> owner_by_maps(segments, maps_view(maps)) == mapped_creator(
            segments,
            list@,
        ),
{
}

/// The segments of the host are seen in full.
proof fn lemma_view_is_whole(info: ShmInfo)
    ensures
        info@ == info.segments@,
{
}

/// The owner that was found in mappings is the creator of the first segment that has the key of
/// the first mapping of a segment, wherever in their lists they stand.
pub proof fn found_owners_created_what_is_mapped(
    maps: Vec<MapPath>,
    shm_info: ShmInfo,
    a: int,
    b: int,
    owner: Option<i32>,
)
    requires
        call_ensures(owner_in_maps, (&Some(maps), &shm_info), owner),
        0 <= a < maps@.len(),
        0 <= b < shm_info@.len(),
        maps@[a] == MapPath::Vsys(shm_info@[b].0),
        forall|c: int| 0 <= c < a ==> !maps_a_segment(shm_info@, maps@, c),
        forall|c: int| 0 <= c < b ==> (#[trigger] shm_info@[c]).0 != shm_info@[b].0,
    ensures
        owner == Some(shm_info@[b].1),
{
    first_mapped_segment_counts(shm_info@, maps@, a, b);
}

/// The mappings of a process have to be read exactly where it created none of the segments and
/// uses shared memory. Else the process itself is the owner, or nothing is.
pub proof fn creators_own_without_mappings(
    pid: i32,
    rssshmem: Option<u64>,
    shm_info: ShmInfo,
    owner: ShmOwner,
)
    requires
        call_ensures(resolve_shm_owner, (pid, rssshmem, &shm_info), owner),
    ensures
        ({
            let creator = exists|i: int|
                0 <= i < shm_info@.len() && (#[trigger] shm_info@[i]).1 == pid;
            let unused = rssshmem is None || rssshmem == Some(0u64);
            &&& creator ==> owner == ShmOwner::Known(Some(pid))
            &&& !creator && unused ==> owner == ShmOwner::Known(None)
            &&& !creator && !unused ==> owner == ShmOwner::InMaps
        }),
{
    owner_by_the_lists(shm_info@, pid, rssshmem, None);
    if let ShmOwner::Known(known) = owner {
        assert(shm_owner(shm_info@, pid, rssshmem, None) == known);
    }
}

}
