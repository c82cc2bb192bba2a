//! The allow-list of bootstrappers: accounts that may help a new marketplace
//! get started. An account is added once.

use crate::types::AccountId;
use std::collections::HashMap;
use vstd::prelude::*;

verus! {

broadcast use vstd::std_specs::hash::group_hash_axioms;

#[derive(Clone, Copy, PartialEq, Eq, Structural, Debug)]
pub enum Error {
    /// The bootstrapper already exists.
    BootstrapperAlreadyRegistered,
}

#[derive(Clone, Copy, PartialEq, Eq, Structural, Debug)]
pub enum Event {
    /// A bootstrapper was added.
    BootstrapperAdded { who: AccountId },
}

/// What the allow-list holds.
#[verifier::ext_equal]
pub struct Bootstrappers {
    /// The registered bootstrappers, each marked `true`.
    pub registered: Map<AccountId, bool>,
    /// Every report so far, oldest first.
    pub events: Seq<Event>,
}

impl Bootstrappers {
    /// Every account on record is marked as registered.
    pub open spec fn consistent(self) -> bool {
        forall|who: AccountId| #[trigger] self.registered.contains_key(who) ==> self.registered[who]
    }

    pub open spec fn register_outcome(self, who: AccountId) -> Result<(), Error> {
        if self.registered.contains_key(who) {
            Err(Error::BootstrapperAlreadyRegistered)
        } else {
            Ok(())
        }
    }

    pub open spec fn register(self, who: AccountId) -> Bootstrappers {
        Bootstrappers {
            registered: self.registered.insert(who, true),
            events: self.events.push(Event::BootstrapperAdded { who }),
        }
    }
}

/// The allow-list of bootstrappers.
pub struct Pallet {
    bootstrappers: HashMap<AccountId, bool>,
    events: Vec<Event>,
}

impl View for Pallet {
    type V = Bootstrappers;

    closed spec fn view(&self) -> Bootstrappers {
        Bootstrappers { registered: self.bootstrappers@, events: self.events@ }
    }
}

impl Pallet {
    pub closed spec fn wf(&self) -> bool {
        self@.consistent()
    }

    /// An allow-list without bootstrappers.
    pub fn new() -> (pallet: Pallet)
        ensures
            pallet.wf(),
            pallet@.registered == Map::<AccountId, bool>::empty(),
            pallet@.events == Seq::<Event>::empty(),
    {
        Pallet { bootstrappers: HashMap::new(), events: Vec::new() }
    }

    /// Adds `bootstrapper` to the allow-list.
    ///
    /// Refused with `BootstrapperAlreadyRegistered` if it is on the list.
    pub fn register_bootstrapper(&mut self, bootstrapper: AccountId) -> (outcome: Result<(), Error>)
        requires
            old(self).wf(),
        ensures
            final(self).wf(),
            outcome == old(self)@.register_outcome(bootstrapper),
            final(self)@ == (if outcome.is_ok() {
                old(self)@.register(bootstrapper)
            } else {
                old(self)@
            }),
    {
        if self.bootstrappers.contains_key(&bootstrapper) {
            return Err(Error::BootstrapperAlreadyRegistered);
        }
        self.bootstrappers.insert(bootstrapper, true);
        self.events.push(Event::BootstrapperAdded { who: bootstrapper });
        assert(self@ =~= old(self)@.register(bootstrapper));
        Ok(())
    }

    /// The mark under which `who` is on the list, if it is.
    pub fn get(&self, who: AccountId) -> (found: Option<bool>)
        ensures
            found == (if self@.registered.contains_key(who) {
                Some(self@.registered[who])
            } else {
                None
            }),
    {
        match self.bootstrappers.get(&who) {
            Some(mark) => Some(*mark),
            None => None,
        }
    }

    /// Every report so far, oldest first.
    pub fn events(&self) -> (events: &Vec<Event>)
        ensures
            events@ == self@.events,
    {
        &self.events
    }
}

/// An account on the list stays on it, and cannot be added again.
pub proof fn lemma_registered_bootstrapper_is_refused(list: Bootstrappers, who: AccountId)
    requires
        list.register_outcome(who).is_ok(),
    ensures
        list.register(who).registered.contains_key(who),
        list.register(who).registered[who],
        list.register(who).register_outcome(who) == Err::<(), Error>(
            Error::BootstrapperAlreadyRegistered,
        ),
{
}

} // verus!
