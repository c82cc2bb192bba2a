//! The marketplace as a state machine: what it holds, what must always be
//! true of it, and what each command does to it or why it is refused.
//!
//! A refused command changes nothing. The executable marketplace follows
//! these transitions step for step.

use crate::billing::{
    blocks_since, claim_of, deposit_of, lemma_claim_at_catalog_price,
    lemma_claim_pays_whole_periods, lemma_deposit_is_two_periods, lemma_refund_within_deposit,
    payment_is_due, period_blocks, refund_of, Claim,
};
use crate::bounded::{bounded_bytes, pallet_account_of};
use crate::counters::counted;
use crate::escrow::{LedgerView, TransferError};
use crate::types::{
    price_of, AccountId, Balance, BillingPeriod, CategoryView, ProviderInfo, ProviderName,
    ProviderStatus, Region, Rental, Resource, ResourceCategory, ResourceId, Website,
};
use vstd::prelude::*;

verus! {

/// Longest provider name, in bytes.
pub const MAX_NAME_LENGTH: usize = 50;

/// Longest provider website, in bytes.
pub const MAX_WEBSITE_LENGTH: usize = 100;

/// The constants that a marketplace is set up with.
#[derive(Clone, Copy, PartialEq, Eq, Debug)]
pub struct Config {
    /// Blocks in one billing week.
    pub blocks_per_week: u32,
    /// The identifier from which the escrow account follows.
    pub pallet_id: [u8; 8],
    /// The least deposit that opens a rental.
    pub minimum_deposit: Balance,
}

/// What the marketplace reports when a command succeeds.
#[derive(Clone, Copy, PartialEq, Eq, Structural, Debug)]
pub enum Event {
    ProviderRegistered { who: AccountId },
    ProviderStatusChanged { who: AccountId, status: ProviderStatus },
    ResourceRegistered { resource_id: u32, provider: AccountId },
    ResourceRented { resource_id: u32, renter: AccountId },
    RentalCancelled { resource_id: u32, renter: AccountId },
    PaymentClaimed { resource_id: u32, provider: AccountId, amount: Balance },
}

/// Why the marketplace refuses a command.
#[derive(Clone, Copy, PartialEq, Eq, Structural, Debug)]
pub enum Error {
    ProviderNameTooLong,
    ProviderWebsiteTooLong,
    ProviderAlreadyRegistered,
    ProviderNotRegistered,
    ResourceNotFound,
    ResourceNotAvailable,
    NotResourceOwner,
    BlockNumberOverflow,
    NotRenter,
    RentalNotFound,
    NoPaymentDue,
    InsufficientDeposit,
    ConversionError,
    /// The currency refused to move the funds.
    Transfer(TransferError),
}

/// Everything the marketplace holds.
#[verifier::ext_equal]
pub struct MarketState {
    pub config: Config,
    /// The current block, as the environment last reported it.
    pub block_number: u64,
    pub providers: Map<AccountId, ProviderInfo>,
    pub resources: Map<ResourceId, Resource>,
    /// The identifier that the next registered resource gets.
    pub next_resource_id: ResourceId,
    pub rentals: Map<ResourceId, Rental>,
    pub deposits: Map<ResourceId, Balance>,
    pub resource_count: Map<(AccountId, CategoryView), u32>,
    pub ledger: LedgerView,
    /// The account that holds the deposits.
    pub escrow: AccountId,
    /// Every report so far, oldest first.
    pub events: Seq<Event>,
}

/// Whether a name and a website of these lengths are accepted: a name has at
/// most 50 bytes, a website at most 100.
pub open spec fn provider_fields_outcome(name_length: int, website_length: Option<int>) -> Result<
    (),
    Error,
> {
    if name_length > MAX_NAME_LENGTH {
        Err(Error::ProviderNameTooLong)
    } else if website_length is Some && website_length->0 > MAX_WEBSITE_LENGTH {
        Err(Error::ProviderWebsiteTooLong)
    } else {
        Ok(())
    }
}

/// The length of a website, if there is one.
pub open spec fn website_length(website: Option<Website>) -> Option<int> {
    match website {
        Some(site) => Some(bounded_bytes(site).len() as int),
        None => None,
    }
}

/// What a refused transfer is reported as, if it is refused.
pub open spec fn transfer_refusal(outcome: Result<(), TransferError>) -> Result<(), Error> {
    match outcome {
        Ok(()) => Ok(()),
        Err(refusal) => Err(Error::Transfer(refusal)),
    }
}

impl MarketState {
    /// A marketplace in which nothing has happened yet.
    pub open spec fn initial(config: Config, ledger: LedgerView) -> MarketState {
        MarketState {
            config,
            block_number: 0,
            providers: Map::empty(),
            resources: Map::empty(),
            next_resource_id: 0,
            rentals: Map::empty(),
            deposits: Map::empty(),
            resource_count: Map::empty(),
            ledger,
            escrow: pallet_account_of(config.pallet_id@) as AccountId,
            events: Seq::empty(),
        }
    }

    /// What must hold of a registered resource: it carries its own
    /// identifier, its provider is registered, and it is unavailable exactly
    /// while a rental of it exists.
    pub open spec fn resource_ok(self, id: ResourceId) -> bool {
        &&& self.resources[id].id == id
        &&& self.providers.contains_key(self.resources[id].provider)
        &&& self.resources[id].is_available == !self.rentals.contains_key(id)
    }

    /// What must hold of a rental: it is an active rental of a registered
    /// resource, it is paid up to a block that has come, and its deposit is
    /// on record as two periods' cost.
    pub open spec fn rental_ok(self, id: ResourceId) -> bool {
        &&& self.resources.contains_key(id)
        &&& self.rentals[id].resource_id == id
        &&& self.rentals[id].is_active
        &&& self.rentals[id].start_block <= self.rentals[id].last_paid_block <= self.block_number
        &&& self.deposits.contains_key(id)
        &&& self.deposits[id] == 2 * price_of(self.rentals[id].billing_period)
    }

    /// What holds of the marketplace between any two commands.
    pub open spec fn consistent(self) -> bool {
        &&& self.config.blocks_per_week > 0
        &&& self.escrow == pallet_account_of(self.config.pallet_id@)
        &&& forall|id: ResourceId| #[trigger]
            self.resources.contains_key(id) <==> id < self.next_resource_id
        &&& forall|id: ResourceId| #[trigger] self.resources.contains_key(id) ==> self.resource_ok(id)
        &&& forall|id: ResourceId| #[trigger] self.rentals.contains_key(id) ==> self.rental_ok(id)
        &&& forall|id: ResourceId| #[trigger]
            self.deposits.contains_key(id) ==> self.rentals.contains_key(id)
        &&& forall|who: AccountId| #[trigger]
            self.providers.contains_key(who) ==> self.providers[who].account == who
    }

    /// The state after the environment reports a block: the clock moves
    /// forward to it and never back.
    pub open spec fn at_block(self, block: u64) -> MarketState {
        if block >= self.block_number {
            MarketState { block_number: block, ..self }
        } else {
            self
        }
    }

    /// The state after the environment has set the balance of an account.
    pub open spec fn with_balance(self, who: AccountId, amount: Balance) -> MarketState {
        MarketState {
            ledger: LedgerView {
                balances: self.ledger.balances.insert(who, amount),
                reserve: self.ledger.reserve,
            },
            ..self
        }
    }

    // Providers

    pub open spec fn register_provider_outcome(
        self,
        who: AccountId,
        name: ProviderName,
        website: Option<Website>,
    ) -> Result<(), Error> {
        if self.providers.contains_key(who) {
            Err(Error::ProviderAlreadyRegistered)
        } else if provider_fields_outcome(
            bounded_bytes(name).len() as int,
            website_length(website),
        ).is_err() {
            provider_fields_outcome(bounded_bytes(name).len() as int, website_length(website))
        } else if self.block_number > u32::MAX {
            Err(Error::BlockNumberOverflow)
        } else {
            Ok(())
        }
    }

    /// The record of a provider that registers now.
    pub open spec fn new_provider(
        self,
        who: AccountId,
        name: ProviderName,
        website: Option<Website>,
    ) -> ProviderInfo {
        ProviderInfo {
            account: who,
            name,
            website,
            total_resources: 0,
            reputation_score: 0,
            registration_block: self.block_number as u32,
            last_updated: self.block_number as u32,
            status: ProviderStatus::Active,
        }
    }

    pub open spec fn register_provider(
        self,
        who: AccountId,
        name: ProviderName,
        website: Option<Website>,
    ) -> MarketState {
        MarketState {
            providers: self.providers.insert(who, self.new_provider(who, name, website)),
            events: self.events.push(Event::ProviderRegistered { who }),
            ..self
        }
    }

    pub open spec fn update_provider_status_outcome(self, who: AccountId) -> Result<(), Error> {
        if !self.providers.contains_key(who) {
            Err(Error::ProviderNotRegistered)
        } else if self.block_number > u32::MAX {
            Err(Error::BlockNumberOverflow)
        } else {
            Ok(())
        }
    }

    pub open spec fn update_provider_status(
        self,
        who: AccountId,
        status: ProviderStatus,
    ) -> MarketState {
        MarketState {
            providers: self.providers.insert(
                who,
                ProviderInfo {
                    status,
                    last_updated: self.block_number as u32,
                    ..self.providers[who]
                },
            ),
            events: self.events.push(Event::ProviderStatusChanged { who, status }),
            ..self
        }
    }

    // Resources

    pub open spec fn register_resource_outcome(self, provider: AccountId) -> Result<(), Error> {
        if !self.providers.contains_key(provider) {
            Err(Error::ProviderNotRegistered)
        } else {
            Ok(())
        }
    }

    /// The record of a resource that `provider` registers now: it gets the
    /// next identifier and starts out available.
    pub open spec fn new_resource(
        self,
        provider: AccountId,
        category: ResourceCategory,
        location: Region,
        uptime_guarantee: u8,
    ) -> Resource {
        Resource {
            id: self.next_resource_id,
            provider,
            category,
            location,
            is_available: true,
            uptime_guarantee,
        }
    }

    pub open spec fn register_resource(
        self,
        provider: AccountId,
        category: ResourceCategory,
        location: Region,
        uptime_guarantee: u8,
    ) -> MarketState {
        MarketState {
            resources: self.resources.insert(
                self.next_resource_id,
                self.new_resource(provider, category, location, uptime_guarantee),
            ),
            next_resource_id: (self.next_resource_id + 1) as ResourceId,
            resource_count: counted(self.resource_count, provider, category@),
            events: self.events.push(
                Event::ResourceRegistered { resource_id: self.next_resource_id, provider },
            ),
            ..self
        }
    }

    // Rentals

    /// Blocks in one billing period of this marketplace.
    pub open spec fn period_length(self, period: BillingPeriod) -> int {
        period_blocks(period, self.config.blocks_per_week)
    }

    /// What is withheld from a renter who opens a rental with this billing
    /// period.
    pub open spec fn rent_deposit(self, period: BillingPeriod) -> Balance {
        deposit_of(price_of(period)) as Balance
    }

    pub open spec fn rent_outcome(
        self,
        renter: AccountId,
        resource_id: ResourceId,
        period: BillingPeriod,
    ) -> Result<(), Error> {
        if !self.resources.contains_key(resource_id) {
            Err(Error::ResourceNotFound)
        } else if !self.resources[resource_id].is_available {
            Err(Error::ResourceNotAvailable)
        } else if self.rent_deposit(period) < self.config.minimum_deposit {
            Err(Error::InsufficientDeposit)
        } else if self.ledger.transfer_outcome(
            renter,
            self.escrow,
            self.rent_deposit(period),
        ).is_err() {
            transfer_refusal(
                self.ledger.transfer_outcome(renter, self.escrow, self.rent_deposit(period)),
            )
        } else if self.block_number > u32::MAX {
            Err(Error::BlockNumberOverflow)
        } else {
            Ok(())
        }
    }

    /// The rental that `renter` opens now.
    pub open spec fn new_rental(
        self,
        renter: AccountId,
        resource_id: ResourceId,
        period: BillingPeriod,
    ) -> Rental {
        Rental {
            resource_id,
            renter,
            start_block: self.block_number as u32,
            billing_period: period,
            last_paid_block: self.block_number as u32,
            is_active: true,
        }
    }

    pub open spec fn rent(
        self,
        renter: AccountId,
        resource_id: ResourceId,
        period: BillingPeriod,
    ) -> MarketState {
        MarketState {
            ledger: self.ledger.transfer(renter, self.escrow, self.rent_deposit(period)),
            deposits: self.deposits.insert(resource_id, self.rent_deposit(period)),
            resources: self.resources.insert(
                resource_id,
                Resource { is_available: false, ..self.resources[resource_id] },
            ),
            rentals: self.rentals.insert(resource_id, self.new_rental(renter, resource_id, period)),
            events: self.events.push(Event::ResourceRented { resource_id, renter }),
            ..self
        }
    }

    /// What the renter of `resource_id` gets back on cancelling now: the cost
    /// of the unused part of the period that is running, rounded down.
    pub open spec fn cancel_refund(self, resource_id: ResourceId) -> Balance {
        let rental = self.rentals[resource_id];
        refund_of(
            price_of(rental.billing_period),
            blocks_since(rental.last_paid_block as int, self.block_number as int),
            self.period_length(rental.billing_period),
        ) as Balance
    }

    pub open spec fn cancel_outcome(self, caller: AccountId, resource_id: ResourceId) -> Result<
        (),
        Error,
    > {
        if !self.rentals.contains_key(resource_id) {
            Err(Error::RentalNotFound)
        } else if self.rentals[resource_id].renter != caller {
            Err(Error::NotRenter)
        } else if self.block_number > u32::MAX {
            Err(Error::BlockNumberOverflow)
        } else if !self.resources.contains_key(resource_id) {
            Err(Error::ResourceNotFound)
        } else {
            transfer_refusal(
                self.ledger.transfer_outcome(self.escrow, caller, self.cancel_refund(resource_id)),
            )
        }
    }

    pub open spec fn cancel(self, caller: AccountId, resource_id: ResourceId) -> MarketState {
        MarketState {
            ledger: self.ledger.transfer(self.escrow, caller, self.cancel_refund(resource_id)),
            resources: self.resources.insert(
                resource_id,
                Resource { is_available: true, ..self.resources[resource_id] },
            ),
            rentals: self.rentals.remove(resource_id),
            deposits: self.deposits.remove(resource_id),
            events: self.events.push(Event::RentalCancelled { resource_id, renter: caller }),
            ..self
        }
    }

    /// The claim that is due now on the rental of `resource_id`.
    pub open spec fn claim_now(self, resource_id: ResourceId) -> Claim {
        let rental = self.rentals[resource_id];
        claim_of(
            price_of(rental.billing_period),
            rental.last_paid_block as int,
            self.block_number as int,
            self.period_length(rental.billing_period),
        )
    }

    pub open spec fn claim_outcome(self, caller: AccountId, resource_id: ResourceId) -> Result<
        (),
        Error,
    > {
        if !self.resources.contains_key(resource_id) {
            Err(Error::ResourceNotFound)
        } else if self.resources[resource_id].provider != caller {
            Err(Error::NotResourceOwner)
        } else if !self.rentals.contains_key(resource_id) || !self.rentals[resource_id].is_active {
            Err(Error::RentalNotFound)
        } else if self.block_number > u32::MAX {
            Err(Error::BlockNumberOverflow)
        } else if !payment_is_due(
            self.rentals[resource_id].last_paid_block as int,
            self.block_number as int,
            self.period_length(self.rentals[resource_id].billing_period),
        ) {
            Err(Error::NoPaymentDue)
        } else {
            transfer_refusal(
                self.ledger.transfer_outcome(
                    self.escrow,
                    caller,
                    self.claim_now(resource_id).payment,
                ),
            )
        }
    }

    pub open spec fn claim(self, caller: AccountId, resource_id: ResourceId) -> MarketState {
        MarketState {
            ledger: self.ledger.transfer(self.escrow, caller, self.claim_now(resource_id).payment),
            rentals: self.rentals.insert(
                resource_id,
                Rental {
                    last_paid_block: self.claim_now(resource_id).last_paid_block,
                    ..self.rentals[resource_id]
                },
            ),
            events: self.events.push(
                Event::PaymentClaimed {
                    resource_id,
                    provider: caller,
                    amount: self.claim_now(resource_id).payment,
                },
            ),
            ..self
        }
    }
}

/// A new marketplace with a week of at least one block is consistent.
pub proof fn lemma_initial_consistent(config: Config, ledger: LedgerView)
    requires
        config.blocks_per_week > 0,
    ensures
        MarketState::initial(config, ledger).consistent(),
{
}

/// Moving the clock keeps the marketplace consistent.
pub proof fn lemma_at_block_consistent(state: MarketState, block: u64)
    requires
        state.consistent(),
    ensures
        state.at_block(block).consistent(),
{
    let next = state.at_block(block);
    assert forall|id: ResourceId| #[trigger] next.rentals.contains_key(id) implies next.rental_ok(
        id,
    ) by {
        assert(state.rental_ok(id));
    }
    assert forall|id: ResourceId| #[trigger] next.resources.contains_key(id) implies next.resource_ok(
        id,
    ) by {
        assert(state.resource_ok(id));
    }
}

/// Setting a balance keeps the marketplace consistent.
pub proof fn lemma_with_balance_consistent(state: MarketState, who: AccountId, amount: Balance)
    requires
        state.consistent(),
    ensures
        state.with_balance(who, amount).consistent(),
{
    let next = state.with_balance(who, amount);
    assert forall|id: ResourceId| #[trigger] next.rentals.contains_key(id) implies next.rental_ok(
        id,
    ) by {
        assert(state.rental_ok(id));
    }
    assert forall|id: ResourceId| #[trigger] next.resources.contains_key(id) implies next.resource_ok(
        id,
    ) by {
        assert(state.resource_ok(id));
    }
}

/// Registering a provider keeps the marketplace consistent.
pub proof fn lemma_register_provider_consistent(
    state: MarketState,
    who: AccountId,
    name: ProviderName,
    website: Option<Website>,
)
    requires
        state.consistent(),
        state.register_provider_outcome(who, name, website).is_ok(),
    ensures
        state.register_provider(who, name, website).consistent(),
{
    let next = state.register_provider(who, name, website);
    assert forall|id: ResourceId| #[trigger] next.rentals.contains_key(id) implies next.rental_ok(
        id,
    ) by {
        assert(state.rental_ok(id));
    }
    assert forall|id: ResourceId| #[trigger] next.resources.contains_key(id) implies next.resource_ok(
        id,
    ) by {
        assert(state.resource_ok(id));
    }
}

/// Changing a provider's status keeps the marketplace consistent.
pub proof fn lemma_update_provider_status_consistent(
    state: MarketState,
    who: AccountId,
    status: ProviderStatus,
)
    requires
        state.consistent(),
        state.update_provider_status_outcome(who).is_ok(),
    ensures
        state.update_provider_status(who, status).consistent(),
{
    let next = state.update_provider_status(who, status);
    assert forall|id: ResourceId| #[trigger] next.rentals.contains_key(id) implies next.rental_ok(
        id,
    ) by {
        assert(state.rental_ok(id));
    }
    assert forall|id: ResourceId| #[trigger] next.resources.contains_key(id) implies next.resource_ok(
        id,
    ) by {
        assert(state.resource_ok(id));
    }
}

/// Registering a resource keeps the marketplace consistent, as long as identifiers are
/// left. The new resource gets an identifier that no resource had before.
pub proof fn lemma_register_resource_consistent(
    state: MarketState,
    provider: AccountId,
    category: ResourceCategory,
    location: Region,
    uptime_guarantee: u8,
)
    requires
        state.consistent(),
        state.next_resource_id < u32::MAX,
        state.register_resource_outcome(provider).is_ok(),
    ensures
        state.register_resource(provider, category, location, uptime_guarantee).consistent(),
        !state.resources.contains_key(state.next_resource_id),
{
    let next = state.register_resource(provider, category, location, uptime_guarantee);
    assert forall|id: ResourceId| #[trigger] next.rentals.contains_key(id) implies next.rental_ok(
        id,
    ) by {
        assert(state.rental_ok(id));
    }
    assert forall|id: ResourceId| #[trigger] next.resources.contains_key(id) implies next.resource_ok(
        id,
    ) by {
        if id != state.next_resource_id {
            assert(state.resource_ok(id));
        } else {
            assert(!state.resources.contains_key(id));
            if state.rentals.contains_key(id) {
                assert(state.rental_ok(id));
            }
        }
    }
}

/// Opening a rental keeps the marketplace consistent.
pub proof fn lemma_rent_consistent(
    state: MarketState,
    renter: AccountId,
    resource_id: ResourceId,
    period: BillingPeriod,
)
    requires
        state.consistent(),
        state.rent_outcome(renter, resource_id, period).is_ok(),
    ensures
        state.rent(renter, resource_id, period).consistent(),
{
    let next = state.rent(renter, resource_id, period);
    lemma_deposit_is_two_periods(period);
    assert(state.resource_ok(resource_id));
    assert forall|id: ResourceId| #[trigger] next.rentals.contains_key(id) implies next.rental_ok(
        id,
    ) by {
        if id != resource_id {
            assert(state.rental_ok(id));
        }
    }
    assert forall|id: ResourceId| #[trigger] next.resources.contains_key(id) implies next.resource_ok(
        id,
    ) by {
        assert(state.resources.contains_key(id));
        assert(state.resource_ok(id));
    }
}

/// Cancelling a rental keeps the marketplace consistent.
pub proof fn lemma_cancel_consistent(state: MarketState, caller: AccountId, resource_id: ResourceId)
    requires
        state.consistent(),
        state.cancel_outcome(caller, resource_id).is_ok(),
    ensures
        state.cancel(caller, resource_id).consistent(),
{
    let next = state.cancel(caller, resource_id);
    assert(state.rental_ok(resource_id));
    assert(state.resource_ok(resource_id));
    assert forall|id: ResourceId| #[trigger] next.rentals.contains_key(id) implies next.rental_ok(
        id,
    ) by {
        assert(state.rental_ok(id));
    }
    assert forall|id: ResourceId| #[trigger] next.resources.contains_key(id) implies next.resource_ok(
        id,
    ) by {
        assert(state.resources.contains_key(id));
        assert(state.resource_ok(id));
    }
    assert forall|id: ResourceId| #[trigger] next.deposits.contains_key(id) implies next.rentals.contains_key(
        id,
    ) by {
        assert(state.deposits.contains_key(id));
    }
}

/// Claiming a payment keeps the marketplace consistent: the rental stays paid up to a
/// block that has come.
pub proof fn lemma_claim_consistent(state: MarketState, caller: AccountId, resource_id: ResourceId)
    requires
        state.consistent(),
        state.claim_outcome(caller, resource_id).is_ok(),
    ensures
        state.claim(caller, resource_id).consistent(),
{
    let next = state.claim(caller, resource_id);
    let rental = state.rentals[resource_id];
    assert(state.rental_ok(resource_id));
    lemma_claim_pays_whole_periods(
        price_of(rental.billing_period) as Balance,
        rental.last_paid_block,
        state.block_number as u32,
        state.period_length(rental.billing_period),
    );
    assert forall|id: ResourceId| #[trigger] next.rentals.contains_key(id) implies next.rental_ok(
        id,
    ) by {
        assert(state.rentals.contains_key(id));
        assert(state.rental_ok(id));
    }
    assert forall|id: ResourceId| #[trigger] next.resources.contains_key(id) implies next.resource_ok(
        id,
    ) by {
        assert(state.resource_ok(id));
    }
}

/// Between commands a resource is unavailable exactly when an active rental
/// of it exists, and a deposit is on record exactly for the rented resources.
pub proof fn lemma_unavailable_iff_rented(state: MarketState, resource_id: ResourceId)
    requires
        state.consistent(),
        state.resources.contains_key(resource_id),
    ensures
        !state.resources[resource_id].is_available <==> (state.rentals.contains_key(resource_id)
            && state.rentals[resource_id].is_active),
        state.deposits.contains_key(resource_id) <==> state.rentals.contains_key(resource_id),
{
    assert(state.resource_ok(resource_id));
    if state.rentals.contains_key(resource_id) {
        assert(state.rental_ok(resource_id));
    }
}

/// The deposit recorded when a rental opens is exactly twice the price of
/// one period, and that is what leaves the renter's balance for escrow.
pub proof fn lemma_rent_withholds_two_periods(
    state: MarketState,
    renter: AccountId,
    resource_id: ResourceId,
    period: BillingPeriod,
)
    requires
        state.rent_outcome(renter, resource_id, period).is_ok(),
    ensures
        state.rent_deposit(period) == 2 * price_of(period),
        state.rent(renter, resource_id, period).deposits[resource_id] == 2 * price_of(period),
        renter != state.escrow ==> state.rent(renter, resource_id, period).ledger.balance_of(renter)
            == state.ledger.balance_of(renter) - 2 * price_of(period),
        renter != state.escrow ==> state.rent(renter, resource_id, period).ledger.balance_of(
            state.escrow,
        ) == state.ledger.balance_of(state.escrow) + 2 * price_of(period),
{
    lemma_deposit_is_two_periods(period);
}

/// What a cancelling renter gets back never exceeds the deposit on record,
/// and it is nothing once a whole period has passed since the last payment.
pub proof fn lemma_cancel_refund_within_deposit(state: MarketState, resource_id: ResourceId)
    requires
        state.consistent(),
        state.rentals.contains_key(resource_id),
    ensures
        state.cancel_refund(resource_id) <= state.deposits[resource_id],
        state.cancel_refund(resource_id) <= price_of(state.rentals[resource_id].billing_period),
        blocks_since(
            state.rentals[resource_id].last_paid_block as int,
            state.block_number as int,
        ) >= state.period_length(state.rentals[resource_id].billing_period)
            ==> state.cancel_refund(resource_id) == 0,
{
    let rental = state.rentals[resource_id];
    assert(state.rental_ok(resource_id));
    lemma_deposit_is_two_periods(rental.billing_period);
    lemma_refund_within_deposit(
        price_of(rental.billing_period),
        blocks_since(rental.last_paid_block as int, state.block_number as int),
        state.period_length(rental.billing_period),
    );
}

/// A claim pays a whole number of periods, at least one: the payment is that
/// number times the price of a period, and the rental is paid up to that
/// number of periods past the block it was paid up to before.
pub proof fn lemma_claim_is_whole_periods(
    state: MarketState,
    caller: AccountId,
    resource_id: ResourceId,
)
    requires
        state.consistent(),
        state.claim_outcome(caller, resource_id).is_ok(),
    ensures
        ({
            let rental = state.rentals[resource_id];
            let periods = state.claim_now(resource_id).periods;
            &&& periods >= 1
            &&& state.claim_now(resource_id).payment == periods * price_of(rental.billing_period)
            &&& state.claim(caller, resource_id).rentals[resource_id].last_paid_block
                == rental.last_paid_block + periods * state.period_length(rental.billing_period)
            &&& state.claim(caller, resource_id).rentals[resource_id].last_paid_block
                <= state.block_number
        }),
{
    let rental = state.rentals[resource_id];
    assert(state.rental_ok(resource_id));
    lemma_claim_pays_whole_periods(
        price_of(rental.billing_period) as Balance,
        rental.last_paid_block,
        state.block_number as u32,
        state.period_length(rental.billing_period),
    );
    lemma_claim_at_catalog_price(
        rental.billing_period,
        rental.last_paid_block,
        state.block_number as u32,
        state.period_length(rental.billing_period),
    );
    assert(price_of(rental.billing_period) * state.claim_now(resource_id).periods
        == state.claim_now(resource_id).periods * price_of(rental.billing_period))
        by (nonlinear_arith);
}

/// Right after a claim nothing more is due: a second claim at the same block
/// is refused.
pub proof fn lemma_claim_leaves_nothing_due(
    state: MarketState,
    caller: AccountId,
    resource_id: ResourceId,
)
    requires
        state.consistent(),
        state.claim_outcome(caller, resource_id).is_ok(),
    ensures
        state.claim(caller, resource_id).claim_outcome(caller, resource_id) == Err::<(), Error>(
            Error::NoPaymentDue,
        ),
{
    let rental = state.rentals[resource_id];
    let length = state.period_length(rental.billing_period);
    let elapsed = blocks_since(rental.last_paid_block as int, state.block_number as int);
    assert(state.rental_ok(resource_id));
    lemma_claim_pays_whole_periods(
        price_of(rental.billing_period) as Balance,
        rental.last_paid_block,
        state.block_number as u32,
        length,
    );
    assert(elapsed - (elapsed / length) * length < length) by (nonlinear_arith)
        requires
            0 <= elapsed,
            0 < length,
    ;
}

/// A provider cannot register twice: once registered, another registration
/// of the same account is refused, whatever name and website it gives.
pub proof fn lemma_registered_provider_is_refused(
    state: MarketState,
    who: AccountId,
    name: ProviderName,
    website: Option<Website>,
    other_name: ProviderName,
    other_website: Option<Website>,
)
    requires
        state.register_provider_outcome(who, name, website).is_ok(),
    ensures
        state.register_provider(who, name, website).register_provider_outcome(
            who,
            other_name,
            other_website,
        ) == Err::<(), Error>(Error::ProviderAlreadyRegistered),
{
}

} // verus!
