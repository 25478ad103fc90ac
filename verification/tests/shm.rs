use vector_agent::sources::host_metrics::shm::{
    owner_in_maps, resolve_shm_owner, MapPath, ShmInfo, ShmOwner,
};

fn info() -> ShmInfo {
    ShmInfo::from_segments(Some(vec![(1, 10), (2, 20), (2, 30), (3, 10)]))
}

#[test]
fn creator_owns_without_reading_maps() {
    assert_eq!(resolve_shm_owner(10, Some(5), &info()), ShmOwner::Known(Some(10)));
    assert_eq!(resolve_shm_owner(30, None, &info()), ShmOwner::Known(Some(30)));
}

#[test]
fn maps_are_read_only_for_shared_memory() {
    assert_eq!(resolve_shm_owner(11, None, &info()), ShmOwner::Known(None));
    assert_eq!(resolve_shm_owner(11, Some(0), &info()), ShmOwner::Known(None));
    assert_eq!(resolve_shm_owner(11, Some(1), &info()), ShmOwner::InMaps);
}

#[test]
fn first_mapped_segment_tells_the_owner() {
    let maps = Some(vec![
        MapPath::Other,
        MapPath::Vsys(9),
        MapPath::Vsys(2),
        MapPath::Vsys(1),
    ]);
    assert_eq!(owner_in_maps(&maps, &info()), Some(20));
    assert_eq!(owner_in_maps(&Some(vec![MapPath::Other, MapPath::Vsys(9)]), &info()), None);
    assert_eq!(owner_in_maps(&Some(vec![]), &info()), None);
    assert_eq!(owner_in_maps(&None, &info()), None);
}

#[test]
fn unreadable_segments_are_none() {
    let none = ShmInfo::from_segments(None);
    assert_eq!(resolve_shm_owner(10, Some(1), &none), ShmOwner::InMaps);
    assert_eq!(owner_in_maps(&Some(vec![MapPath::Vsys(1)]), &none), None);
}
