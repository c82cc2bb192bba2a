//! The allow-list of providers: accounts that may offer resources on the
//! marketplace. An account is added once.

use crate::types::AccountId;
use std::collections::HashMap;
use vstd::prelude::*;

verus! {

broadcast use vstd::std_specs::hash::group_hash_axioms;

#[derive(Clone, Copy, PartialEq, Eq, Structural, Debug)]
pub enum Error {
    /// The address is already registered.
    ProviderAlreadyRegisered,
}

#[derive(Clone, Copy, PartialEq, Eq, Structural, Debug)]
pub enum Event {
    /// A provider is registered.
    ProviderRegistered { who: AccountId },
}

/// What the allow-list holds.
#[verifier::ext_equal]
pub struct Providers {
    /// The registered providers, each marked `true`.
    pub registered: Map<AccountId, bool>,
    /// Every report so far, oldest first.
    pub events: Seq<Event>,
}

impl Providers {
    /// Every account on record is marked as registered.
    pub open spec fn consistent(self) -> bool {
        forall|who: AccountId| #[trigger] self.registered.contains_key(who) ==> self.registered[who]
    }

    pub open spec fn register_outcome(self, who: AccountId) -> Result<(), Error> {
        if self.registered.contains_key(who) {
            Err(Error::ProviderAlreadyRegisered)
        } else {
            Ok(())
        }
    }

    pub open spec fn register(self, who: AccountId) -> Providers {
        Providers {
            registered: self.registered.insert(who, true),
            events: self.events.push(Event::ProviderRegistered { who }),
        }
    }
}

/// The allow-list of providers.
pub struct Pallet {
    providers: HashMap<AccountId, bool>,
    events: Vec<Event>,
}

impl View for Pallet {
    type V = Providers;

    closed spec fn view(&self) -> Providers {
        Providers { registered: self.providers@, events: self.events@ }
    }
}

impl Pallet {
    pub closed spec fn wf(&self) -> bool {
        self@.consistent()
    }

    /// An allow-list without providers.
    pub fn new() -> (pallet: Pallet)
        ensures
            pallet.wf(),
            pallet@.registered == Map::<AccountId, bool>::empty(),
            pallet@.events == Seq::<Event>::empty(),
    {
        Pallet { providers: HashMap::new(), events: Vec::new() }
    }

    /// Adds `who` to the allow-list.
    ///
    /// Refused with `ProviderAlreadyRegisered` if it is on the list.
    pub fn register_provider(&mut self, who: AccountId) -> (outcome: Result<(), Error>)
        requires
            old(self).wf(),
        ensures
            final(self).wf(),
            outcome == old(self)@.register_outcome(who),
            final(self)@ == (if outcome.is_ok() {
                old(self)@.register(who)
            } else {
                old(self)@
            }),
    {
        if self.providers.contains_key(&who) {
            return Err(Error::ProviderAlreadyRegisered);
        }
        self.providers.insert(who, true);
        self.events.push(Event::ProviderRegistered { who });
        assert(self@ =~= old(self)@.register(who));
        Ok(())
    }

    /// The mark under which `who` is on the list, if it is.
    pub fn get(&self, who: AccountId) -> (found: Option<bool>)
        ensures
            found == (if self@.registered.contains_key(who) {
                Some(self@.registered[who])
            } else {
                None
            }),
    {
        match self.providers.get(&who) {
            Some(mark) => Some(*mark),
            None => None,
        }
    }

    /// Every report so far, oldest first.
    pub fn events(&self) -> (events: &Vec<Event>)
        ensures
            events@ == self@.events,
    {
        &self.events
    }
}

/// An account on the list stays on it, and cannot be added again.
pub proof fn lemma_listed_provider_is_refused(list: Providers, who: AccountId)
    requires
        list.register_outcome(who).is_ok(),
    ensures
        list.register(who).registered.contains_key(who),
        list.register(who).registered[who],
        list.register(who).register_outcome(who) == Err::<(), Error>(
            Error::ProviderAlreadyRegisered,
        ),
{
}

} // verus!
