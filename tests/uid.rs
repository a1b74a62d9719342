use ensnare_synth::uid::{
    ArrangementUidFactory, IsUid, PathUidFactory, TrackUid, Uid, UidFactory, FIRST_ENTITY_UID,
};

#[test]
fn uid_factory() {
    let mut f = UidFactory::<Uid>::default();

    let uid_1 = f.mint_next();
    let uid_2 = f.mint_next();
    assert_ne!(uid_1, uid_2, "Minted Uids should not repeat");

    let uid_3 = Uid(uid_2.0 + 1);
    let uid_3_expected_duplicate = f.mint_next();
    assert_eq!(
        uid_3, uid_3_expected_duplicate,
        "Minted Uids will repeat if factory doesn't know about them all"
    );
}

#[test]
fn uid_factory_with_notify_works() {
    let mut f = UidFactory::<Uid>::default();

    let uid_1 = f.mint_next();
    let uid_2 = f.mint_next();
    assert_ne!(uid_1, uid_2, "Minted Uids should not repeat");

    let uid_3 = Uid(uid_2.0 + 1);
    f.notify_externally_minted_uid(uid_3);
    let uid_4 = f.mint_next();
    assert_ne!(
        uid_3, uid_4,
        "Notifying factory should cause it to skip past."
    );

    f.notify_externally_minted_uid(uid_3);
    let uid_5 = f.mint_next();
    assert_eq!(
        uid_5.0,
        uid_4.0 + 1,
        "Notifying factory about value below next should be no-op."
    );
}

#[test]
fn default_entity_factory_starts_at_1024() {
    let mut f = UidFactory::<Uid>::default();
    assert_eq!(f.mint_next(), Uid(FIRST_ENTITY_UID));
    assert_eq!(f.mint_next(), Uid(1025));
}

#[test]
fn track_factory_starts_at_one() {
    let mut f = UidFactory::<TrackUid>::default();
    assert_eq!(f.mint_next(), TrackUid(1));
    assert_eq!(TrackUid::default(), TrackUid(1));
}

#[test]
fn custom_first_uid_and_notify_above() {
    let mut f = UidFactory::<Uid>::new(5);
    f.notify_externally_minted_uid(Uid(100));
    assert_eq!(f.mint_next().as_usize(), 101);
}

#[test]
fn path_and_arrangement_factories() {
    let mut p = PathUidFactory::default();
    assert_eq!(p.mint_next().0, 1024);
    assert_eq!(p.mint_next().0, 1025);
    let mut a = ArrangementUidFactory::default();
    assert_eq!(a.mint_next().0, 262144);
}

#[test]
fn uid_round_trips_through_usize() {
    assert_eq!(Uid::from_usize(77).as_usize(), 77);
    assert_eq!(TrackUid::from_usize(3), TrackUid(3));
}
