//! The entities that are stored, and the forms in which clients see them.

pub mod checkin;
pub mod user;

use crate::errors::Error;
use crate::models::checkin::Checkin;
use crate::models::user::User;
use crate::utils::models::{Collection, IndexView, ModelExt};
use vstd::prelude::*;

verus! {

/// Everything the service keeps: one collection for each kind of entity.
pub struct Store {
    pub users: Collection<User>,
    pub checkins: Collection<Checkin>,
}

impl Store {
    /// Whether every collection is in order.
    pub open spec fn wf(&self) -> bool {
        self.users.wf() && self.checkins.wf()
    }

    /// A store that holds nothing.
    pub fn new() -> (store: Self)
        ensures
            store.wf(),
            store.users@.len() == 0,
            store.checkins@.len() == 0,
            store.users.declared() == Seq::<IndexView>::empty(),
            store.checkins.declared() == Seq::<IndexView>::empty(),
    {
        Store { users: Collection::new(), checkins: Collection::new() }
    }
}

/// Declares the indexes of every kind of entity: afterwards each collection
/// has exactly the indexes that its kind asks for, whatever was declared
/// before, and holds the entities it held. To be called once when the
/// service starts; calling it again changes nothing.
pub fn sync_indexes(store: &mut Store) -> (r: Result<(), Error>)
    ensures
        r is Ok,
        final(store).users@ == old(store).users@,
        final(store).checkins@ == old(store).checkins@,
        final(store).users.declared() == User::index_specs(),
        final(store).checkins.declared() == Checkin::index_specs(),
{
    match store.users.sync_indexes() {
        Ok(()) => {},
        Err(error) => {
            return Err(error);
        },
    }
    store.checkins.sync_indexes()
}

} // verus!
