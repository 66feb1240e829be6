//! The creature registry: creatures are created against a reserved deposit,
//! bred from two parents, moved between owners, listed and sold.
use vstd::prelude::*;
use crate::{AccountId, Balance, KittyIndex};
use crate::dna::{combine_genome, mix_genome};
use crate::ledger::{Ledger, LedgerError, LedgerHandle, LedgerRequest};
use crate::random::{random_value, random_value_of, Entropy};

verus! {

/// The largest value the id counter can hold.
pub const MAX_KITTY_INDEX: KittyIndex = 0xffff_ffff;

/// A creature's genome.
#[derive(Clone, Copy, Debug, PartialEq, Eq)]
pub struct Kitty(pub [u8; 16]);

/// Parameters of the registry.
#[derive(Clone, Copy, Debug, PartialEq, Eq)]
pub struct Config {
    /// The deposit reserved from an actor's funds for each creature it creates.
    pub kitty_reserve: Balance,
}

/// What a successful operation reports.
#[derive(Clone, Copy, Debug, PartialEq, Eq)]
pub enum Event {
    /// A creature was created or bred: owner, id, genome.
    KittyCreated(AccountId, KittyIndex, Kitty),
    /// A creature changed hands: from, to, id.
    KittyTransferred(AccountId, AccountId, KittyIndex),
    /// A listing was set or cleared: owner, id, price.
    KittyPriceUpdated(AccountId, KittyIndex, Option<Balance>),
    /// A creature was sold: buyer, seller, id, price.
    KittySold(AccountId, AccountId, KittyIndex, Balance),
}

/// Why an operation was rejected.
#[derive(Clone, Copy, Debug, PartialEq, Eq)]
pub enum Error {
    /// Every id has been handed out.
    KittiesCountOverFlow,
    /// The creature does not exist under the expected owner.
    InvalidKittyId,
    /// Both parents are the same creature.
    SameParentIndex,
    /// The actor does not own the creature.
    NotOwner,
    /// The buyer's limit is below the asking price.
    PriceTooLow,
    /// The buyer already owns the creature.
    BuyFromSelf,
    /// The creature is not listed.
    NotForSale,
    /// The deposit could not be reserved.
    MoneyNotEnough,
    /// The ledger refused the payment.
    Ledger(LedgerError),
}

/// One creature as the registry holds it: its owner, its genome and its
/// listing.
#[derive(Clone, Copy, Debug, PartialEq, Eq)]
pub struct KittyRecord {
    pub owner: AccountId,
    pub kitty: Kitty,
    pub price: Option<Balance>,
}

/// Issues creature ids: zero first, then each one more than the last,
/// until the counter is full.
pub struct IdAllocator {
    next: KittyIndex,
}

impl IdAllocator {
    /// The id that the next allocation hands out.
    pub closed spec fn next_id(&self) -> KittyIndex {
        self.next
    }

    pub fn new() -> (r: Self)
        ensures
            r.next_id() == 0,
    {
        IdAllocator { next: 0 }
    }

    /// The id that the next allocation hands out.
    pub fn peek(&self) -> (r: KittyIndex)
        ensures
            r == self.next_id(),
    {
        self.next
    }

    /// Hands out the next id and advances the counter; fails, leaving the
    /// counter as it was, when the counter is full.
    pub fn allocate(&mut self) -> (r: Result<KittyIndex, Error>)
        ensures
            old(self).next_id() == MAX_KITTY_INDEX ==> r == Err::<KittyIndex, Error>(
                Error::KittiesCountOverFlow,
            ) && final(self).next_id() == old(self).next_id(),
            old(self).next_id() < MAX_KITTY_INDEX ==> r == Ok::<KittyIndex, Error>(
                old(self).next_id(),
            ) && final(self).next_id() == old(self).next_id() + 1,
    {
        let current = self.next;
        match current.checked_add(1) {
            Some(n) => {
                self.next = n;
                Ok(current)
            },
            None => Err(Error::KittiesCountOverFlow),
        }
    }
}

/// Ids handed out one after another strictly increase and never repeat.
/// Each successful creation or breeding takes the registry's length before
/// the call as its id and grows the registry by one, and no operation
/// shrinks the registry; so where `lens[k]` is the length before the `k`-th
/// successful creation, each at least one more than the one before, the ids
/// are strictly increasing.
pub proof fn lemma_ids_strictly_increase(lens: Seq<nat>, ids: Seq<KittyIndex>)
    requires
        lens.len() == ids.len(),
        forall|k: int| 0 <= k < ids.len() ==> #[trigger] ids[k] as nat == lens[k],
        forall|k: int| 0 < k < ids.len() ==> lens[k - 1] + 1 <= #[trigger] lens[k],
    ensures
        forall|i: int, j: int| 0 <= i < j < ids.len() ==> #[trigger] ids[i] < #[trigger] ids[j],
    decreases ids.len(),
{
    if ids.len() > 1 {
        let n = ids.len() - 1;
        lemma_ids_strictly_increase(lens.take(n), ids.take(n));
        assert forall|i: int| 0 <= i < n implies #[trigger] ids[i] < ids[n] by {
            assert(ids.take(n)[i] == ids[i]);
            if i < n - 1 {
                assert(ids.take(n)[i] < ids.take(n)[n - 1]);
            }
            assert(lens[n - 1] + 1 <= lens[n]);
        }
        assert forall|i: int, j: int| 0 <= i < j < ids.len() implies #[trigger] ids[i]
            < #[trigger] ids[j] by {
            if j < n {
                assert(ids.take(n)[i] < ids.take(n)[j]);
            }
        }
    }
}

/// Breeding is deterministic: children bred from parents with the same
/// genomes under the same selector bytes have the same genome.
pub proof fn lemma_breed_deterministic(
    child_1: Kitty,
    child_2: Kitty,
    dna_1: Seq<u8>,
    dna_2: Seq<u8>,
    selector: Seq<u8>,
)
    requires
        child_1.0@ == mix_genome(dna_1, dna_2, selector),
        child_2.0@ == mix_genome(dna_1, dna_2, selector),
    ensures
        child_1 == child_2,
{
    assert(child_1.0 =~= child_2.0);
}

/// The registry. Creature `i` is the `i`-th record: ids are handed out in
/// order and a creature is never removed, so the record of an id holds its
/// one owner and its listing.
pub struct Pallet {
    ids: IdAllocator,
    kitties: Vec<KittyRecord>,
    config: Config,
}

impl View for Pallet {
    type V = Seq<KittyRecord>;

    closed spec fn view(&self) -> Seq<KittyRecord> {
        self.kitties@
    }
}

impl Pallet {
    /// The counter stands at the number of creatures.
    pub closed spec fn wf(&self) -> bool {
        self.ids.next_id() as int == self.kitties@.len()
    }

    pub closed spec fn spec_config(&self) -> Config {
        self.config
    }

    /// Whether creature `id` exists and belongs to `who`.
    pub open spec fn owns(&self, who: AccountId, id: KittyIndex) -> bool {
        (id as int) < self@.len() && self@[id as int].owner == who
    }

    /// The record that a successful creation by `who` of a creature with
    /// genome `kitty` appends.
    pub open spec fn new_record(who: AccountId, kitty: Kitty) -> KittyRecord {
        KittyRecord { owner: who, kitty, price: None }
    }

    /// `post` is `pre` with a new creature of genome `genome` appended for
    /// `who`, and `r` reports its creation under the next id.
    pub open spec fn created(
        pre: Seq<KittyRecord>,
        post: Seq<KittyRecord>,
        who: AccountId,
        genome: Seq<u8>,
        r: Result<Event, Error>,
    ) -> bool {
        &&& pre.len() < MAX_KITTY_INDEX
        &&& post == pre.push(Pallet::new_record(who, post.last().kitty))
        &&& post.last().kitty.0@ == genome
        &&& r == Ok::<Event, Error>(
            Event::KittyCreated(who, pre.len() as KittyIndex, post.last().kitty),
        )
    }

    /// What a creation for `who` does once the ledger has answered the
    /// request to reserve the deposit with `reserved`.
    pub open spec fn create_reserved_outcome(
        pre: Seq<KittyRecord>,
        post: Seq<KittyRecord>,
        reserved: Result<(), LedgerError>,
        who: AccountId,
        entropy: Entropy,
        r: Result<Event, Error>,
    ) -> bool {
        match reserved {
            Err(_) => r == Err::<Event, Error>(Error::MoneyNotEnough) && post == pre,
            Ok(()) => if pre.len() >= MAX_KITTY_INDEX {
                r == Err::<Event, Error>(Error::KittiesCountOverFlow) && post == pre
            } else {
                Pallet::created(pre, post, who, random_value_of(entropy, who), r)
            },
        }
    }

    /// The price `sender` pays to buy creature `id` from `owner` with limit
    /// `max_price`, or the error the sale stops with before any payment.
    pub open spec fn sale_terms_of(
        records: Seq<KittyRecord>,
        sender: AccountId,
        owner: AccountId,
        id: KittyIndex,
        max_price: Balance,
    ) -> Result<Balance, Error> {
        if sender == owner {
            Err(Error::BuyFromSelf)
        } else if !((id as int) < records.len() && records[id as int].owner == owner) {
            Err(Error::InvalidKittyId)
        } else {
            match records[id as int].price {
                None => Err(Error::NotForSale),
                Some(price) => if max_price < price {
                    Err(Error::PriceTooLow)
                } else {
                    Ok(price)
                },
            }
        }
    }

    /// What a sale of creature `id` from `owner` to `sender` at `price` does
    /// once the ledger has answered the payment with `paid`.
    pub open spec fn settle_outcome(
        pre: Seq<KittyRecord>,
        post: Seq<KittyRecord>,
        paid: Result<(), LedgerError>,
        sender: AccountId,
        owner: AccountId,
        id: KittyIndex,
        price: Balance,
        r: Result<Event, Error>,
    ) -> bool {
        match paid {
            Err(e) => r == Err::<Event, Error>(Error::Ledger(e)) && post == pre,
            Ok(()) => {
                &&& r == Ok::<Event, Error>(Event::KittySold(sender, owner, id, price))
                &&& post == pre.update(
                    id as int,
                    KittyRecord { owner: sender, kitty: pre[id as int].kitty, price: None },
                )
            },
        }
    }

    pub fn new(config: Config) -> (r: Self)
        ensures
            r.wf(),
            r@ == Seq::<KittyRecord>::empty(),
            r.spec_config() == config,
    {
        Pallet { ids: IdAllocator::new(), kitties: Vec::new(), config }
    }

    /// Creates a creature for `sender`: asks the ledger to reserve the
    /// configured deposit and acts on its answer. When no id is left, the
    /// deposit is released again.
    pub fn create<L: Ledger>(
        &mut self,
        ledger: &mut LedgerHandle<L>,
        sender: AccountId,
        entropy: &Entropy,
    ) -> (r: Result<Event, Error>)
        requires
            old(self).wf(),
        ensures
            final(self).wf(),
            final(self).spec_config() == old(self).spec_config(),
            ({
                let n = old(ledger).journal().len() as int;
                let deposit = old(self).spec_config().kitty_reserve;
                let answer = final(ledger).journal()[n].answer();
                let asked = old(ledger).journal().push(
                    (LedgerRequest::Reserve { who: sender, amount: deposit, answer }),
                );
                &&& final(ledger).journal().len() > n
                &&& Pallet::create_reserved_outcome(
                    old(self)@,
                    final(self)@,
                    answer,
                    sender,
                    *entropy,
                    r,
                )
                &&& if answer is Ok && old(self)@.len() >= MAX_KITTY_INDEX {
                    final(ledger).journal() == asked.push(
                        (LedgerRequest::Unreserve { who: sender, amount: deposit }),
                    )
                } else {
                    final(ledger).journal() == asked
                }
            }),
    {
        let deposit = self.config.kitty_reserve;
        let reserved = ledger.reserve(sender, deposit);
        let r = self.create_reserved(reserved, sender, entropy);
        match r {
            Err(Error::KittiesCountOverFlow) => {
                ledger.unreserve(sender, deposit);
            },
            _ => {},
        }
        r
    }

    /// Finishes a creation for `sender` once the ledger has answered the
    /// request to reserve the deposit with `reserved`: takes the next id and
    /// draws the genome from `entropy`.
    pub fn create_reserved(
        &mut self,
        reserved: Result<(), LedgerError>,
        sender: AccountId,
        entropy: &Entropy,
    ) -> (r: Result<Event, Error>)
        requires
            old(self).wf(),
        ensures
            final(self).wf(),
            final(self).spec_config() == old(self).spec_config(),
            Pallet::create_reserved_outcome(old(self)@, final(self)@, reserved, sender, *entropy, r),
    {
        if reserved.is_err() {
            return Err(Error::MoneyNotEnough);
        }
        let kitty_id = self.ids.allocate()?;
        let kitty = Kitty(random_value(entropy, sender));
        self.kitties.push(KittyRecord { owner: sender, kitty, price: None });
        Ok(Event::KittyCreated(sender, kitty_id, kitty))
    }

    /// Moves creature `kitty_id` from `sender` to `to`. Handing a creature
    /// to its own owner succeeds and changes nothing.
    pub fn transfer(&mut self, sender: AccountId, to: AccountId, kitty_id: KittyIndex) -> (r: Result<
        Option<Event>,
        Error,
    >)
        requires
            old(self).wf(),
        ensures
            final(self).wf(),
            final(self).spec_config() == old(self).spec_config(),
            !old(self).owns(sender, kitty_id) ==> r == Err::<Option<Event>, Error>(
                Error::InvalidKittyId,
            ) && final(self)@ == old(self)@,
            old(self).owns(sender, kitty_id) && sender == to ==> r == Ok::<Option<Event>, Error>(
                None,
            ) && final(self)@ == old(self)@,
            old(self).owns(sender, kitty_id) && sender != to ==> r == Ok::<Option<Event>, Error>(
                Some(Event::KittyTransferred(sender, to, kitty_id)),
            ) && final(self)@ == old(self)@.update(
                kitty_id as int,
                (KittyRecord {
                    owner: to,
                    kitty: old(self)@[kitty_id as int].kitty,
                    price: old(self)@[kitty_id as int].price,
                }),
            ),
    {
        let i = kitty_id as usize;
        if i >= self.kitties.len() || self.kitties[i].owner != sender {
            return Err(Error::InvalidKittyId);
        }
        if sender == to {
            return Ok(None);
        }
        let record = self.kitties[i];
        self.kitties.set(i, KittyRecord { owner: to, kitty: record.kitty, price: record.price });
        Ok(Some(Event::KittyTransferred(sender, to, kitty_id)))
    }
    /// Breeds a new creature for `sender` from two distinct creatures it
    /// owns: each genome byte is mixed from the parents' bytes under bytes
    /// drawn from `entropy`.
    pub fn breed(
        &mut self,
        sender: AccountId,
        kitty_id_1: KittyIndex,
        kitty_id_2: KittyIndex,
        entropy: &Entropy,
    ) -> (r: Result<Event, Error>)
        requires
            old(self).wf(),
        ensures
            final(self).wf(),
            final(self).spec_config() == old(self).spec_config(),
            r is Err ==> final(self)@ == old(self)@,
            kitty_id_1 == kitty_id_2 ==> r == Err::<Event, Error>(Error::SameParentIndex),
            kitty_id_1 != kitty_id_2 && !(old(self).owns(sender, kitty_id_1) && old(self).owns(
                sender,
                kitty_id_2,
            )) ==> r == Err::<Event, Error>(Error::InvalidKittyId),
            kitty_id_1 != kitty_id_2 && old(self).owns(sender, kitty_id_1) && old(self).owns(
                sender,
                kitty_id_2,
            ) && old(self)@.len() >= MAX_KITTY_INDEX ==> r == Err::<Event, Error>(
                Error::KittiesCountOverFlow,
            ),
            kitty_id_1 != kitty_id_2 && old(self).owns(sender, kitty_id_1) && old(self).owns(
                sender,
                kitty_id_2,
            ) && old(self)@.len() < MAX_KITTY_INDEX ==> Pallet::created(
                old(self)@,
                final(self)@,
                sender,
                mix_genome(
                    old(self)@[kitty_id_1 as int].kitty.0@,
                    old(self)@[kitty_id_2 as int].kitty.0@,
                    random_value_of(*entropy, sender),
                ),
                r,
            ),
    {
        if kitty_id_1 == kitty_id_2 {
            return Err(Error::SameParentIndex);
        }
        let kitty_1 = match self.kitties(sender, kitty_id_1) {
            Some(k) => k,
            None => {
                return Err(Error::InvalidKittyId);
            },
        };
        let kitty_2 = match self.kitties(sender, kitty_id_2) {
            Some(k) => k,
            None => {
                return Err(Error::InvalidKittyId);
            },
        };
        let kitty_id = self.ids.allocate()?;
        let selector = random_value(entropy, sender);
        let kitty = Kitty(combine_genome(&kitty_1.0, &kitty_2.0, &selector));
        self.kitties.push(KittyRecord { owner: sender, kitty, price: None });
        Ok(Event::KittyCreated(sender, kitty_id, kitty))
    }

    /// Sets or clears the listing of a creature that `sender` owns.
    pub fn set_price(&mut self, sender: AccountId, kitty_id: KittyIndex, new_price: Option<Balance>) -> (r:
        Result<Event, Error>)
        requires
            old(self).wf(),
        ensures
            final(self).wf(),
            final(self).spec_config() == old(self).spec_config(),
            !old(self).owns(sender, kitty_id) ==> r == Err::<Event, Error>(Error::NotOwner)
                && final(self)@ == old(self)@,
            old(self).owns(sender, kitty_id) ==> r == Ok::<Event, Error>(
                Event::KittyPriceUpdated(sender, kitty_id, new_price),
            ) && final(self)@ == old(self)@.update(
                kitty_id as int,
                (KittyRecord {
                    owner: sender,
                    kitty: old(self)@[kitty_id as int].kitty,
                    price: new_price,
                }),
            ),
    {
        let i = kitty_id as usize;
        if i >= self.kitties.len() || self.kitties[i].owner != sender {
            return Err(Error::NotOwner);
        }
        let record = self.kitties[i];
        self.kitties.set(i, KittyRecord { owner: sender, kitty: record.kitty, price: new_price });
        Ok(Event::KittyPriceUpdated(sender, kitty_id, new_price))
    }

    /// The price `sender` pays to buy creature `kitty_id` from `owner` with
    /// limit `max_price`, or the error the sale stops with.
    pub fn sale_terms(
        &self,
        sender: AccountId,
        owner: AccountId,
        kitty_id: KittyIndex,
        max_price: Balance,
    ) -> (r: Result<Balance, Error>)
        ensures
            r == Pallet::sale_terms_of(self@, sender, owner, kitty_id, max_price),
    {
        if sender == owner {
            return Err(Error::BuyFromSelf);
        }
        let i = kitty_id as usize;
        if i >= self.kitties.len() || self.kitties[i].owner != owner {
            return Err(Error::InvalidKittyId);
        }
        let price = match self.kitties[i].price {
            Some(p) => p,
            None => {
                return Err(Error::NotForSale);
            },
        };
        if max_price < price {
            return Err(Error::PriceTooLow);
        }
        Ok(price)
    }

    /// Finishes the sale of creature `kitty_id` from `owner` to `sender` at
    /// `price` once the ledger has answered the payment with `paid`: only a
    /// made payment moves the creature and clears its listing.
    pub fn settle_sale(
        &mut self,
        paid: Result<(), LedgerError>,
        sender: AccountId,
        owner: AccountId,
        kitty_id: KittyIndex,
        price: Balance,
    ) -> (r: Result<Event, Error>)
        requires
            old(self).wf(),
            old(self).owns(owner, kitty_id),
        ensures
            final(self).wf(),
            final(self).spec_config() == old(self).spec_config(),
            Pallet::settle_outcome(
                old(self)@,
                final(self)@,
                paid,
                sender,
                owner,
                kitty_id,
                price,
                r,
            ),
    {
        match paid {
            Ok(()) => {},
            Err(e) => {
                return Err(Error::Ledger(e));
            },
        }
        let i = kitty_id as usize;
        let kitty = self.kitties[i].kitty;
        self.kitties.set(i, KittyRecord { owner: sender, kitty, price: None });
        Ok(Event::KittySold(sender, owner, kitty_id, price))
    }

    /// Buys creature `kitty_id` from `owner` for `sender` at its listed
    /// price, if that is at most `max_price`. The ledger is asked to move the
    /// price from buyer to seller; only when it agrees does the creature
    /// change hands and its listing go. A sale refused before payment leaves
    /// the ledger untouched.
    pub fn buy<L: Ledger>(
        &mut self,
        ledger: &mut LedgerHandle<L>,
        sender: AccountId,
        owner: AccountId,
        kitty_id: KittyIndex,
        max_price: Balance,
    ) -> (r: Result<Event, Error>)
        requires
            old(self).wf(),
        ensures
            final(self).wf(),
            final(self).spec_config() == old(self).spec_config(),
            match Pallet::sale_terms_of(old(self)@, sender, owner, kitty_id, max_price) {
                Err(e) => {
                    &&& r == Err::<Event, Error>(e)
                    &&& final(self)@ == old(self)@
                    &&& *final(ledger) == *old(ledger)
                },
                Ok(price) => {
                    let answer = final(ledger).journal()[old(ledger).journal().len() as int].answer();
                    &&& final(ledger).journal() == old(ledger).journal().push(
                        (LedgerRequest::Transfer { from: sender, to: owner, amount: price, answer }),
                    )
                    &&& Pallet::settle_outcome(
                        old(self)@,
                        final(self)@,
                        answer,
                        sender,
                        owner,
                        kitty_id,
                        price,
                        r,
                    )
                },
            },
    {
        let price = match self.sale_terms(sender, owner, kitty_id, max_price) {
            Ok(p) => p,
            Err(e) => {
                return Err(e);
            },
        };
        let paid = ledger.transfer(sender, owner, price);
        self.settle_sale(paid, sender, owner, kitty_id, price)
    }

    /// The id that the next creation will take.
    pub fn next_kitty_id(&self) -> (r: KittyIndex)
        requires
            self.wf(),
        ensures
            r as int == self@.len(),
    {
        self.ids.peek()
    }

    /// The genome of creature `kitty_id` if `owner` holds it.
    pub fn kitties(&self, owner: AccountId, kitty_id: KittyIndex) -> (r: Option<Kitty>)
        ensures
            r == if self.owns(owner, kitty_id) {
                Some(self@[kitty_id as int].kitty)
            } else {
                None::<Kitty>
            },
    {
        let i = kitty_id as usize;
        if i < self.kitties.len() && self.kitties[i].owner == owner {
            Some(self.kitties[i].kitty)
        } else {
            None
        }
    }

    /// Whether `owner` holds creature `kitty_id`.
    pub fn contains_kitty(&self, owner: AccountId, kitty_id: KittyIndex) -> (r: bool)
        ensures
            r == self.owns(owner, kitty_id),
    {
        let i = kitty_id as usize;
        i < self.kitties.len() && self.kitties[i].owner == owner
    }

    /// The listed price of creature `kitty_id`, if it exists and is listed.
    pub fn kitty_price(&self, kitty_id: KittyIndex) -> (r: Option<Balance>)
        ensures
            r == if (kitty_id as int) < self@.len() {
                self@[kitty_id as int].price
            } else {
                None::<Balance>
            },
    {
        let i = kitty_id as usize;
        if i < self.kitties.len() {
            self.kitties[i].price
        } else {
            None
        }
    }

    /// The registry's parameters.
    pub fn config(&self) -> (r: Config)
        ensures
            r == self.spec_config(),
    {
        self.config
    }
}

} // verus!
