//! The marketplace itself: providers, their resources, the rentals of those
//! resources and the deposits held for them, kept in memory.
//!
//! Every command either does all of what it is for, or is refused and changes
//! nothing.

use crate::billing::{
    blocks_used, claim_due, deposit_amount, period_length, refund_amount, truncate_block,
};
use crate::bounded::{bounded_as_vec, bounded_bytes};
use crate::counters::{count_in, ResourceCounters};
use crate::escrow::{EscrowAccount, Ledger};
use crate::market::{
    lemma_at_block_consistent, lemma_cancel_consistent, lemma_claim_consistent,
    lemma_initial_consistent, lemma_register_provider_consistent,
    lemma_register_resource_consistent, lemma_rent_consistent,
    lemma_update_provider_status_consistent, lemma_with_balance_consistent,
    provider_fields_outcome, Config, Error, Event, MarketState, MAX_NAME_LENGTH,
    MAX_WEBSITE_LENGTH,
};
use crate::types::{
    AccountId, Balance, BillingPeriod, ProviderInfo, ProviderName, ProviderStatus, Region, Rental,
    Resource, ResourceCategory, ResourceId, Website,
};
use std::collections::HashMap;
use vstd::prelude::*;

verus! {

broadcast use vstd::std_specs::hash::group_hash_axioms;

/// A length as a mathematical integer, if there is one.
pub open spec fn length_of(length: Option<usize>) -> Option<int> {
    match length {
        Some(l) => Some(l as int),
        None => None,
    }
}

/// Whether a provider's name and website are short enough, given their
/// lengths in bytes.
pub fn check_provider_fields(name_length: usize, website_length: Option<usize>) -> (outcome: Result<
    (),
    Error,
>)
    ensures
        outcome == provider_fields_outcome(name_length as int, length_of(website_length)),
{
    if name_length > MAX_NAME_LENGTH {
        return Err(Error::ProviderNameTooLong);
    }
    match website_length {
        Some(length) => {
            if length > MAX_WEBSITE_LENGTH {
                return Err(Error::ProviderWebsiteTooLong);
            }
        },
        None => {},
    }
    Ok(())
}

/// The marketplace.
pub struct Pallet {
    config: Config,
    block_number: u64,
    providers: HashMap<AccountId, ProviderInfo>,
    resources: HashMap<ResourceId, Resource>,
    next_resource_id: ResourceId,
    rentals: HashMap<ResourceId, Rental>,
    deposits: HashMap<ResourceId, Balance>,
    resource_count: ResourceCounters,
    ledger: Ledger,
    escrow: EscrowAccount,
    events: Vec<Event>,
}

impl View for Pallet {
    type V = MarketState;

    closed spec fn view(&self) -> MarketState {
        MarketState {
            config: self.config,
            block_number: self.block_number,
            providers: self.providers@,
            resources: self.resources@,
            next_resource_id: self.next_resource_id,
            rentals: self.rentals@,
            deposits: self.deposits@,
            resource_count: self.resource_count@,
            ledger: self.ledger@,
            escrow: self.escrow.id(),
            events: self.events@,
        }
    }
}

impl Pallet {
    /// The marketplace is consistent, and so is the way it is kept.
    pub closed spec fn wf(&self) -> bool {
        self@.consistent() && self.resource_count.wf()
    }

    /// A well-formed marketplace is a consistent one.
    pub proof fn lemma_wf_is_consistent(&self)
        requires
            self.wf(),
        ensures
            self@.consistent(),
    {
    }

    /// A marketplace in which nothing has happened yet, using the currency
    /// `ledger`. A week must have at least one block: there is no
    /// marketplace for a configuration in which it has none.
    pub fn new(config: Config, ledger: Ledger) -> (pallet: Option<Pallet>)
        ensures
            config.blocks_per_week == 0 ==> pallet.is_none(),
            config.blocks_per_week > 0 ==> pallet.is_some() && pallet.unwrap().wf()
                && pallet.unwrap()@ == MarketState::initial(config, ledger@),
    {
        if config.blocks_per_week == 0 {
            return None;
        }
        let escrow = EscrowAccount::new(&config.pallet_id);
        let pallet = Pallet {
            config,
            block_number: 0,
            providers: HashMap::new(),
            resources: HashMap::new(),
            next_resource_id: 0,
            rentals: HashMap::new(),
            deposits: HashMap::new(),
            resource_count: ResourceCounters::new(),
            ledger,
            escrow,
            events: Vec::new(),
        };
        proof {
            lemma_initial_consistent(config, ledger@);
            assert(pallet@ =~= MarketState::initial(config, ledger@));
        }
        Some(pallet)
    }

    pub fn config(&self) -> (config: Config)
        ensures
            config == self@.config,
    {
        self.config
    }

    pub fn block_number(&self) -> (block: u64)
        ensures
            block == self@.block_number,
    {
        self.block_number
    }

    /// Takes the current block from the environment. The clock only moves
    /// forward: an earlier block is not taken, and `false` is returned.
    pub fn set_block_number(&mut self, block: u64) -> (taken: bool)
        requires
            old(self).wf(),
        ensures
            final(self).wf(),
            taken == (block >= old(self)@.block_number),
            final(self)@ == old(self)@.at_block(block),
    {
        proof {
            lemma_at_block_consistent(self@, block);
        }
        if block >= self.block_number {
            self.block_number = block;
            assert(self@ =~= old(self)@.at_block(block));
            true
        } else {
            false
        }
    }

    /// Sets the balance of an account, as the environment that issues the
    /// currency would.
    pub fn set_balance(&mut self, who: AccountId, amount: Balance)
        requires
            old(self).wf(),
        ensures
            final(self).wf(),
            final(self)@ == old(self)@.with_balance(who, amount),
    {
        proof {
            lemma_with_balance_consistent(self@, who, amount);
        }
        self.ledger.set_balance(who, amount);
        assert(self@ =~= old(self)@.with_balance(who, amount));
    }

    pub fn free_balance(&self, who: AccountId) -> (balance: Balance)
        ensures
            balance == self@.ledger.balance_of(who),
    {
        self.ledger.free_balance(who)
    }

    /// The account that holds the deposits.
    pub fn escrow_account(&self) -> (account: AccountId)
        ensures
            account == self@.escrow,
    {
        self.escrow.account()
    }

    pub fn provider(&self, who: AccountId) -> (found: Option<&ProviderInfo>)
        ensures
            match found {
                Some(info) => self@.providers.contains_key(who) && *info == self@.providers[who],
                None => !self@.providers.contains_key(who),
            },
    {
        self.providers.get(&who)
    }

    pub fn resource(&self, resource_id: ResourceId) -> (found: Option<&Resource>)
        ensures
            match found {
                Some(resource) => self@.resources.contains_key(resource_id) && *resource
                    == self@.resources[resource_id],
                None => !self@.resources.contains_key(resource_id),
            },
    {
        self.resources.get(&resource_id)
    }

    pub fn rental(&self, resource_id: ResourceId) -> (found: Option<Rental>)
        ensures
            match found {
                Some(rental) => self@.rentals.contains_key(resource_id) && rental
                    == self@.rentals[resource_id],
                None => !self@.rentals.contains_key(resource_id),
            },
    {
        match self.rentals.get(&resource_id) {
            Some(rental) => Some(*rental),
            None => None,
        }
    }

    pub fn deposit(&self, resource_id: ResourceId) -> (found: Option<Balance>)
        ensures
            match found {
                Some(amount) => self@.deposits.contains_key(resource_id) && amount
                    == self@.deposits[resource_id],
                None => !self@.deposits.contains_key(resource_id),
            },
    {
        match self.deposits.get(&resource_id) {
            Some(amount) => Some(*amount),
            None => None,
        }
    }

    /// The identifier that the next registered resource gets.
    pub fn next_resource_id(&self) -> (next: ResourceId)
        ensures
            next == self@.next_resource_id,
    {
        self.next_resource_id
    }

    /// How many resources `provider` has registered in `category`.
    pub fn resource_count(&self, provider: AccountId, category: &ResourceCategory) -> (count: u32)
        requires
            self.wf(),
        ensures
            count == count_in(self@.resource_count, provider, category@),
    {
        self.resource_count.get(provider, category)
    }

    /// Every report so far, oldest first.
    pub fn events(&self) -> (events: &Vec<Event>)
        ensures
            events@ == self@.events,
    {
        &self.events
    }

    /// Registers the caller `who` as a provider.
    ///
    /// Refused with `ProviderAlreadyRegistered` if `who` is registered, then
    /// with `ProviderNameTooLong` or `ProviderWebsiteTooLong` if the name has
    /// more than 50 bytes or the website more than 100, then with
    /// `BlockNumberOverflow` if the current block does not fit in 32 bits.
    pub fn register_provider(
        &mut self,
        who: AccountId,
        name: ProviderName,
        website: Option<Website>,
    ) -> (outcome: Result<(), Error>)
        requires
            old(self).wf(),
        ensures
            final(self).wf(),
            outcome == old(self)@.register_provider_outcome(who, name, website),
            final(self)@ == (if outcome.is_ok() {
                old(self)@.register_provider(who, name, website)
            } else {
                old(self)@
            }),
    {
        if self.providers.contains_key(&who) {
            return Err(Error::ProviderAlreadyRegistered);
        }
        let name_length: usize = bounded_as_vec(&name).len();
        let website_length: Option<usize> = match &website {
            Some(site) => Some(bounded_as_vec(site).len()),
            None => None,
        };
        match check_provider_fields(name_length, website_length) {
            Err(refusal) => {
                return Err(refusal);
            },
            Ok(()) => {},
        }
        let current_block: u32 = match truncate_block(self.block_number) {
            Some(block) => block,
            None => {
                return Err(Error::BlockNumberOverflow);
            },
        };
        proof {
            lemma_register_provider_consistent(self@, who, name, website);
        }
        let provider_info = ProviderInfo {
            account: who,
            name,
            website,
            total_resources: 0,
            reputation_score: 0,
            registration_block: current_block,
            last_updated: current_block,
            status: ProviderStatus::Active,
        };
        self.providers.insert(who, provider_info);
        self.events.push(Event::ProviderRegistered { who });
        assert(self@ =~= old(self)@.register_provider(who, name, website));
        Ok(())
    }

    /// Sets the status of the provider `who`.
    ///
    /// Refused with `ProviderNotRegistered` if `who` is not registered, then
    /// with `BlockNumberOverflow` if the current block does not fit in 32
    /// bits.
    pub fn update_provider_status(&mut self, who: AccountId, status: ProviderStatus) -> (outcome:
        Result<(), Error>)
        requires
            old(self).wf(),
        ensures
            final(self).wf(),
            outcome == old(self)@.update_provider_status_outcome(who),
            final(self)@ == (if outcome.is_ok() {
                old(self)@.update_provider_status(who, status)
            } else {
                old(self)@
            }),
    {
        if !self.providers.contains_key(&who) {
            return Err(Error::ProviderNotRegistered);
        }
        let current_block: u32 = match truncate_block(self.block_number) {
            Some(block) => block,
            None => {
                return Err(Error::BlockNumberOverflow);
            },
        };
        proof {
            lemma_update_provider_status_consistent(self@, who, status);
        }
        match self.providers.remove(&who) {
            Some(mut provider) => {
                provider.status = status;
                provider.last_updated = current_block;
                self.providers.insert(who, provider);
            },
            None => {},
        }
        self.events.push(Event::ProviderStatusChanged { who, status });
        assert(self@ =~= old(self)@.update_provider_status(who, status));
        Ok(())
    }

    /// Registers a resource of the provider `provider`. The resource gets the
    /// next identifier, starts out available, and is counted under its
    /// provider and category.
    ///
    /// Refused with `ProviderNotRegistered` if `provider` is not registered.
    pub fn register_resource(
        &mut self,
        provider: AccountId,
        category: ResourceCategory,
        location: Region,
        uptime_guarantee: u8,
    ) -> (outcome: Result<(), Error>)
        requires
            old(self).wf(),
            old(self)@.next_resource_id < u32::MAX,
        ensures
            final(self).wf(),
            outcome == old(self)@.register_resource_outcome(provider),
            final(self)@ == (if outcome.is_ok() {
                old(self)@.register_resource(provider, category, location, uptime_guarantee)
            } else {
                old(self)@
            }),
    {
        if !self.providers.contains_key(&provider) {
            return Err(Error::ProviderNotRegistered);
        }
        proof {
            lemma_register_resource_consistent(
                self@,
                provider,
                category,
                location,
                uptime_guarantee,
            );
        }
        let resource_id: ResourceId = self.next_resource_id;
        self.resource_count.increment(provider, &category);
        self.resources.insert(
            resource_id,
            Resource {
                id: resource_id,
                provider,
                category,
                location,
                is_available: true,
                uptime_guarantee,
            },
        );
        self.next_resource_id = resource_id + 1;
        self.events.push(Event::ResourceRegistered { resource_id, provider });
        assert(self@ =~= old(self)@.register_resource(
            provider,
            category,
            location,
            uptime_guarantee,
        ));
        Ok(())
    }

    /// Opens a rental of `resource_id` for `renter`: twice the price of one
    /// billing period moves from the renter into escrow and is recorded as
    /// the deposit, the resource becomes unavailable, and the rental starts
    /// at the current block, paid up to it.
    ///
    /// Refused with `ResourceNotFound` if there is no such resource, then
    /// with `ResourceNotAvailable` if it is rented, then with
    /// `InsufficientDeposit` if the deposit is below the configured minimum,
    /// then with `Transfer` if the currency cannot move the deposit, then
    /// with `BlockNumberOverflow` if the current block does not fit in 32
    /// bits.
    pub fn rent_resource(
        &mut self,
        renter: AccountId,
        resource_id: u32,
        billing_period: BillingPeriod,
    ) -> (outcome: Result<(), Error>)
        requires
            old(self).wf(),
        ensures
            final(self).wf(),
            outcome == old(self)@.rent_outcome(renter, resource_id, billing_period),
            final(self)@ == (if outcome.is_ok() {
                old(self)@.rent(renter, resource_id, billing_period)
            } else {
                old(self)@
            }),
    {
        let period_cost: Balance = match self.resources.get(&resource_id) {
            None => {
                return Err(Error::ResourceNotFound);
            },
            Some(resource) => {
                if !resource.is_available {
                    return Err(Error::ResourceNotAvailable);
                }
                resource.category.price(&billing_period)
            },
        };
        let deposit: Balance = deposit_amount(period_cost);
        if deposit < self.config.minimum_deposit {
            return Err(Error::InsufficientDeposit);
        }
        match self.ledger.can_transfer(renter, self.escrow.account(), deposit) {
            Err(refusal) => {
                return Err(Error::Transfer(refusal));
            },
            Ok(()) => {},
        }
        let current_block: u32 = match truncate_block(self.block_number) {
            Some(block) => block,
            None => {
                return Err(Error::BlockNumberOverflow);
            },
        };
        proof {
            lemma_rent_consistent(self@, renter, resource_id, billing_period);
        }
        let held = self.escrow.hold(&mut self.ledger, renter, deposit);
        assert(held.is_ok());
        self.deposits.insert(resource_id, deposit);
        match self.resources.remove(&resource_id) {
            Some(mut resource) => {
                resource.is_available = false;
                self.resources.insert(resource_id, resource);
            },
            None => {},
        }
        self.rentals.insert(
            resource_id,
            Rental {
                resource_id,
                renter,
                start_block: current_block,
                billing_period,
                last_paid_block: current_block,
                is_active: true,
            },
        );
        self.events.push(Event::ResourceRented { resource_id, renter });
        assert(self@ =~= old(self)@.rent(renter, resource_id, billing_period));
        Ok(())
    }

    /// Ends the rental of `resource_id` at the request of its renter: the
    /// cost of the unused part of the running period, rounded down, goes back
    /// from escrow to the renter, the resource becomes available again, and
    /// the rental and the record of its deposit are removed. What remains of
    /// the deposit stays in the pooled escrow account.
    ///
    /// Refused with `RentalNotFound` if the resource is not rented, then with
    /// `NotRenter` if `caller` is not the renter, then with
    /// `BlockNumberOverflow` if the current block does not fit in 32 bits,
    /// then with `Transfer` if the currency cannot move the refund.
    pub fn cancel_rental(&mut self, caller: AccountId, resource_id: u32) -> (outcome: Result<
        (),
        Error,
    >)
        requires
            old(self).wf(),
        ensures
            final(self).wf(),
            outcome == old(self)@.cancel_outcome(caller, resource_id),
            final(self)@ == (if outcome.is_ok() {
                old(self)@.cancel(caller, resource_id)
            } else {
                old(self)@
            }),
    {
        let rental: Rental = match self.rentals.get(&resource_id) {
            None => {
                return Err(Error::RentalNotFound);
            },
            Some(rental) => *rental,
        };
        if rental.renter != caller {
            return Err(Error::NotRenter);
        }
        let current_block: u32 = match truncate_block(self.block_number) {
            Some(block) => block,
            None => {
                return Err(Error::BlockNumberOverflow);
            },
        };
        let period_cost: Balance = match self.resources.get(&resource_id) {
            None => {
                return Err(Error::ResourceNotFound);
            },
            Some(resource) => resource.category.price(&rental.billing_period),
        };
        let length: u64 = period_length(&rental.billing_period, self.config.blocks_per_week);
        let used: u32 = blocks_used(rental.last_paid_block, current_block);
        let refund: Balance = refund_amount(period_cost, used, length);
        match self.escrow.release(&mut self.ledger, caller, refund) {
            Err(refusal) => {
                return Err(Error::Transfer(refusal));
            },
            Ok(()) => {},
        }
        proof {
            lemma_cancel_consistent(old(self)@, caller, resource_id);
        }
        match self.resources.remove(&resource_id) {
            Some(mut resource) => {
                resource.is_available = true;
                self.resources.insert(resource_id, resource);
            },
            None => {},
        }
        self.rentals.remove(&resource_id);
        self.deposits.remove(&resource_id);
        self.events.push(Event::RentalCancelled { resource_id, renter: caller });
        assert(self@ =~= old(self)@.cancel(caller, resource_id));
        Ok(())
    }

    /// Pays the provider `caller` for the whole billing periods that have
    /// passed on the rental of `resource_id` since it was last paid: the
    /// price of those periods goes from escrow to the provider, and the
    /// rental counts as paid up to the end of the last of them. A period that
    /// has only begun is not paid.
    ///
    /// Refused with `ResourceNotFound` if there is no such resource, then
    /// with `NotResourceOwner` if `caller` does not own it, then with
    /// `RentalNotFound` if it is not rented, then with `BlockNumberOverflow`
    /// if the current block does not fit in 32 bits, then with `NoPaymentDue`
    /// if no whole period has passed, then with `Transfer` if the currency
    /// cannot move the payment.
    pub fn claim_payment(&mut self, caller: AccountId, resource_id: u32) -> (outcome: Result<
        (),
        Error,
    >)
        requires
            old(self).wf(),
        ensures
            final(self).wf(),
            outcome == old(self)@.claim_outcome(caller, resource_id),
            final(self)@ == (if outcome.is_ok() {
                old(self)@.claim(caller, resource_id)
            } else {
                old(self)@
            }),
    {
        match self.resources.get(&resource_id) {
            None => {
                return Err(Error::ResourceNotFound);
            },
            Some(resource) => {
                if resource.provider != caller {
                    return Err(Error::NotResourceOwner);
                }
            },
        }
        let rental: Rental = match self.rentals.get(&resource_id) {
            None => {
                return Err(Error::RentalNotFound);
            },
            Some(rental) => *rental,
        };
        if !rental.is_active {
            return Err(Error::RentalNotFound);
        }
        let current_block: u32 = match truncate_block(self.block_number) {
            Some(block) => block,
            None => {
                return Err(Error::BlockNumberOverflow);
            },
        };
        let length: u64 = period_length(&rental.billing_period, self.config.blocks_per_week);
        let period_cost: Balance = match self.resources.get(&resource_id) {
            None => {
                return Err(Error::ResourceNotFound);
            },
            Some(resource) => resource.category.price(&rental.billing_period),
        };
        let claim = match claim_due(period_cost, rental.last_paid_block, current_block, length) {
            None => {
                return Err(Error::NoPaymentDue);
            },
            Some(claim) => claim,
        };
        match self.escrow.release(&mut self.ledger, caller, claim.payment) {
            Err(refusal) => {
                return Err(Error::Transfer(refusal));
            },
            Ok(()) => {},
        }
        proof {
            lemma_claim_consistent(old(self)@, caller, resource_id);
        }
        self.rentals.insert(
            resource_id,
            Rental {
                resource_id: rental.resource_id,
                renter: rental.renter,
                start_block: rental.start_block,
                billing_period: rental.billing_period,
                last_paid_block: claim.last_paid_block,
                is_active: rental.is_active,
            },
        );
        self.events.push(
            Event::PaymentClaimed { resource_id, provider: caller, amount: claim.payment },
        );
        assert(self@ =~= old(self)@.claim(caller, resource_id));
        Ok(())
    }
}

} // verus!
