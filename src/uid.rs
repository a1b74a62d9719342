//! Identifiers for entities, tracks, paths and arrangements, and the factory
//! that mints them.

use vstd::prelude::*;

verus! {

/// A value that is identified by a single `usize`.
pub trait IsUid: Sized {
    /// The number that identifies this value.
    spec fn id(&self) -> usize;

    fn as_usize(&self) -> (r: usize)
        ensures
            r == self.id(),
    ;

    fn from_usize(value: usize) -> (r: Self)
        ensures
            r.id() == value,
    ;
}

/// Identifies an entity, unique within the current project.
#[derive(Clone, Copy, Debug, Default, PartialEq, Eq, Hash, PartialOrd, Ord, Structural)]
pub struct Uid(pub usize);

impl IsUid for Uid {
    open spec fn id(&self) -> usize {
        self.0
    }

    fn as_usize(&self) -> (r: usize) {
        self.0
    }

    fn from_usize(value: usize) -> (r: Self) {
        Uid(value)
    }
}

/// The first value that a default factory of [Uid]s mints.
pub const FIRST_ENTITY_UID: usize = 1024;

/// Generates unique identifiers of type `U`, counting up from a first value.
#[derive(Debug)]
pub struct UidFactory<U: IsUid> {
    next_uid_value: usize,
    _phantom: core::marker::PhantomData<U>,
}

impl<U: IsUid> UidFactory<U> {
    /// The value that the next call of `mint_next` hands out.
    pub closed spec fn next_value(&self) -> usize {
        self.next_uid_value
    }

    /// Creates a factory whose first identifier is `first_uid`.
    pub fn new(first_uid: usize) -> (r: Self)
        ensures
            r.next_value() == first_uid,
    {
        UidFactory { next_uid_value: first_uid, _phantom: core::marker::PhantomData }
    }

    /// Hands out the next identifier and moves past it.
    pub fn mint_next(&mut self) -> (r: U)
        requires
            old(self).next_value() < usize::MAX,
        ensures
            r.id() == old(self).next_value(),
            final(self).next_value() == old(self).next_value() + 1,
    {
        let value = self.next_uid_value;
        self.next_uid_value = value + 1;
        U::from_usize(value)
    }

    /// Records that `uid` exists although this factory did not mint it, so
    /// that the factory never hands it out.
    pub fn notify_externally_minted_uid(&mut self, uid: U)
        requires
            uid.id() < usize::MAX,
        ensures
            final(self).next_value() == if uid.id() >= old(self).next_value() {
                (uid.id() + 1) as usize
            } else {
                old(self).next_value()
            },
    {
        let value = uid.as_usize();
        if value >= self.next_uid_value {
            self.next_uid_value = value + 1;
        }
    }
}

impl Default for UidFactory<Uid> {
    fn default() -> (r: Self)
        ensures
            r.next_value() == FIRST_ENTITY_UID,
    {
        UidFactory::new(FIRST_ENTITY_UID)
    }
}

/// Identifies a track.
#[derive(Clone, Copy, Debug, PartialEq, Eq, Hash, PartialOrd, Ord, Structural)]
pub struct TrackUid(pub usize);

impl Default for TrackUid {
    fn default() -> (r: Self)
        ensures
            r.0 == 1,
    {
        TrackUid(1)
    }
}

impl IsUid for TrackUid {
    open spec fn id(&self) -> usize {
        self.0
    }

    fn as_usize(&self) -> (r: usize) {
        self.0
    }

    fn from_usize(value: usize) -> (r: Self) {
        TrackUid(value)
    }
}

/// The first value that a default factory of [TrackUid]s mints.
pub const FIRST_TRACK_UID: usize = 1;

impl Default for UidFactory<TrackUid> {
    fn default() -> (r: Self)
        ensures
            r.next_value() == FIRST_TRACK_UID,
    {
        UidFactory::new(FIRST_TRACK_UID)
    }
}

/// Identifies a signal path.
#[derive(Clone, Copy, Debug, Default, PartialEq, Eq, Hash, PartialOrd, Ord, Structural)]
pub struct PathUid(pub usize);

impl IsUid for PathUid {
    open spec fn id(&self) -> usize {
        self.0
    }

    fn as_usize(&self) -> (r: usize) {
        self.0
    }

    fn from_usize(value: usize) -> (r: Self) {
        PathUid(value)
    }
}

/// The first value that a default [PathUidFactory] mints.
pub const FIRST_PATH_UID: usize = 1024;

/// Mints [PathUid]s.
#[derive(Debug)]
pub struct PathUidFactory(pub UidFactory<PathUid>);

impl Default for PathUidFactory {
    fn default() -> (r: Self)
        ensures
            r.0.next_value() == FIRST_PATH_UID,
    {
        PathUidFactory(UidFactory::new(FIRST_PATH_UID))
    }
}

impl PathUidFactory {
    pub fn mint_next(&mut self) -> (r: PathUid)
        requires
            old(self).0.next_value() < usize::MAX,
        ensures
            r.0 == old(self).0.next_value(),
            final(self).0.next_value() == old(self).0.next_value() + 1,
    {
        self.0.mint_next()
    }
}

/// Identifies an arrangement of a pattern on a track.
#[derive(Clone, Copy, Debug, Default, PartialEq, Eq, Hash, Structural)]
pub struct ArrangementUid(pub usize);

impl IsUid for ArrangementUid {
    open spec fn id(&self) -> usize {
        self.0
    }

    fn as_usize(&self) -> (r: usize) {
        self.0
    }

    fn from_usize(value: usize) -> (r: Self) {
        ArrangementUid(value)
    }
}

/// The first value that a default [ArrangementUidFactory] mints.
pub const FIRST_ARRANGEMENT_UID: usize = 262144;

/// Mints [ArrangementUid]s.
#[derive(Debug)]
pub struct ArrangementUidFactory(pub UidFactory<ArrangementUid>);

impl Default for ArrangementUidFactory {
    fn default() -> (r: Self)
        ensures
            r.0.next_value() == FIRST_ARRANGEMENT_UID,
    {
        ArrangementUidFactory(UidFactory::new(FIRST_ARRANGEMENT_UID))
    }
}

impl ArrangementUidFactory {
    pub fn mint_next(&mut self) -> (r: ArrangementUid)
        requires
            old(self).0.next_value() < usize::MAX,
        ensures
            r.0 == old(self).0.next_value(),
            final(self).0.next_value() == old(self).0.next_value() + 1,
    {
        self.0.mint_next()
    }
}

} // verus!
