use std::collections::HashMap;
use vstd::prelude::*;
use crate::types::{
    lemma_token_key_injective, make_token_key, token_key, ClassData, Error, Event, ExtendedInfo,
    Origin, ReportReason, TokenData,
};

verus! {

broadcast use vstd::std_specs::hash::group_hash_axioms;

/// Registry record of a collection.
#[derive(Clone, Copy, Debug, PartialEq, Eq, Structural)]
pub struct CollectionInfo {
    pub owner: u64,
    /// The id that the next token minted in this collection receives.
    pub next_token_id: u32,
}

/// The account behind a signed origin.
pub open spec fn signer(origin: Origin) -> Option<u64> {
    match origin {
        Origin::Signed(who) => Some(who),
        Origin::Root => None,
    }
}

/// Checks that a call is signed, and yields its account.
pub fn ensure_signed(origin: Origin) -> (r: Result<u64, Error>)
    ensures
        match signer(origin) {
            Some(who) => r == Ok::<u64, Error>(who),
            None => r == Err::<u64, Error>(Error::BadOrigin),
        },
{
    match origin {
        Origin::Signed(who) => Ok(who),
        Origin::Root => Err(Error::BadOrigin),
    }
}

/// The whole marketplace state: curator, asset registry, extended token
/// info, offer book, free balances and the event log.
///
/// Funds reserved for an offer live in the offer book itself, so the
/// reserved balance of a bidder is by construction the sum of their offers.
pub struct Gallery {
    curator: Option<u64>,
    collections: Vec<CollectionInfo>,
    collection_metadata: Vec<Vec<u8>>,
    owners: HashMap<u64, u64>,
    token_metadata: HashMap<u64, Vec<u8>>,
    infos: HashMap<u64, ExtendedInfo>,
    offers: HashMap<u64, HashMap<u64, u128>>,
    balances: HashMap<u64, u128>,
    events: Vec<Event>,
}

impl Gallery {
    pub closed spec fn curator_spec(self) -> Option<u64> {
        self.curator
    }

    pub closed spec fn collections(self) -> Seq<CollectionInfo> {
        self.collections@
    }

    pub closed spec fn collection_metadata(self) -> Seq<Vec<u8>> {
        self.collection_metadata@
    }

    /// Token owners, by token key.
    pub closed spec fn owners(self) -> Map<u64, u64> {
        self.owners@
    }

    pub closed spec fn token_metadata(self) -> Map<u64, Vec<u8>> {
        self.token_metadata@
    }

    /// Stored extended info, by token key.
    pub closed spec fn infos(self) -> Map<u64, ExtendedInfo> {
        self.infos@
    }

    /// Offers, by token key and then by bidder.
    pub closed spec fn offer_book(self) -> Map<u64, HashMap<u64, u128>> {
        self.offers@
    }

    /// Free balances; an absent account holds nothing.
    pub closed spec fn balances(self) -> Map<u64, u128> {
        self.balances@
    }

    pub closed spec fn events(self) -> Seq<Event> {
        self.events@
    }

    pub closed spec fn wf(self) -> bool {
        &&& self.collections@.len() == self.collection_metadata@.len()
        &&& self.collections@.len() <= u32::MAX
        &&& forall|c: u32, t: u32| #[trigger]
            self.owners@.contains_key(token_key(c, t)) ==> (c as int) < self.collections@.len()
                && t < self.collections@[c as int].next_token_id
    }

    pub open spec fn collection_owner(self, c: u32) -> Option<u64> {
        if (c as int) < self.collections().len() {
            Some(self.collections()[c as int].owner)
        } else {
            None
        }
    }

    pub open spec fn owner_of(self, c: u32, t: u32) -> Option<u64> {
        if self.owners().contains_key(token_key(c, t)) {
            Some(self.owners()[token_key(c, t)])
        } else {
            None
        }
    }

    /// Extended info of a token, the default record where none is stored.
    pub open spec fn info_of(self, c: u32, t: u32) -> ExtendedInfo {
        if self.infos().contains_key(token_key(c, t)) {
            self.infos()[token_key(c, t)]
        } else {
            ExtendedInfo::spec_default()
        }
    }

    pub open spec fn offer_of(self, c: u32, t: u32, bidder: u64) -> Option<u128> {
        let k = token_key(c, t);
        if self.offer_book().contains_key(k) && self.offer_book()[k]@.contains_key(bidder) {
            Some(self.offer_book()[k]@[bidder])
        } else {
            None
        }
    }

    pub open spec fn free_of(self, who: u64) -> u128 {
        if self.balances().contains_key(who) {
            self.balances()[who]
        } else {
            0
        }
    }

    /// The registry (collections and tokens) is the same in both states.
    pub open spec fn same_registry(self, o: Gallery) -> bool {
        &&& self.collections() == o.collections()
        &&& self.collection_metadata() == o.collection_metadata()
        &&& self.owners() == o.owners()
        &&& self.token_metadata() == o.token_metadata()
    }

    /// Offers and free balances are the same in both states.
    pub open spec fn same_funds(self, o: Gallery) -> bool {
        &&& self.offer_book() == o.offer_book()
        &&& self.balances() == o.balances()
    }

    /// An empty marketplace with no curator.
    pub fn new() -> (g: Gallery)
        ensures
            g.wf(),
            g.curator_spec() is None,
            g.collections().len() == 0,
            g.owners().is_empty(),
            g.infos().is_empty(),
            g.offer_book().is_empty(),
            g.balances().is_empty(),
            g.events().len() == 0,
    {
        Gallery {
            curator: None,
            collections: Vec::new(),
            collection_metadata: Vec::new(),
            owners: HashMap::new(),
            token_metadata: HashMap::new(),
            infos: HashMap::new(),
            offers: HashMap::new(),
            balances: HashMap::new(),
            events: Vec::new(),
        }
    }

    /// The curator, if one was set.
    pub fn curator(&self) -> (r: Option<u64>)
        ensures
            r == self.curator_spec(),
    {
        self.curator
    }

    /// The owner of a collection, if it exists.
    pub fn collection_owner_of(&self, c: u32) -> (r: Option<u64>)
        ensures
            r == self.collection_owner(c),
    {
        if (c as usize) < self.collections.len() {
            Some(self.collections[c as usize].owner)
        } else {
            None
        }
    }

    /// The current owner of a token, if it exists.
    pub fn token_owner(&self, c: u32, t: u32) -> (r: Option<u64>)
        ensures
            r == self.owner_of(c, t),
    {
        let k = make_token_key(c, t);
        match self.owners.get(&k) {
            Some(o) => Some(*o),
            None => None,
        }
    }

    /// Extended info of a token, materializing the default record where
    /// none is stored.
    pub fn token_extended_info(&self, c: u32, t: u32) -> (r: ExtendedInfo)
        ensures
            r == self.info_of(c, t),
    {
        let k = make_token_key(c, t);
        match self.infos.get(&k) {
            Some(info) => *info,
            None => ExtendedInfo::default_info(),
        }
    }

    /// The amount a bidder has reserved for a token, if they made an offer.
    pub fn offer(&self, c: u32, t: u32, bidder: u64) -> (r: Option<u128>)
        ensures
            r == self.offer_of(c, t, bidder),
    {
        let k = make_token_key(c, t);
        match self.offers.get(&k) {
            Some(book) => match book.get(&bidder) {
                Some(amount) => Some(*amount),
                None => None,
            },
            None => None,
        }
    }

    /// The free balance of an account.
    pub fn free_balance(&self, who: u64) -> (r: u128)
        ensures
            r == self.free_of(who),
    {
        match self.balances.get(&who) {
            Some(b) => *b,
            None => 0,
        }
    }

    /// The event log, oldest first.
    pub fn event_log(&self) -> (r: &Vec<Event>)
        ensures
            r@ == self.events(),
    {
        &self.events
    }

    /// The last event recorded, if any.
    pub fn last_event(&self) -> (r: Option<Event>)
        ensures
            self.events().len() == 0 ==> r is None,
            self.events().len() > 0 ==> r == Some(self.events().last()),
    {
        if self.events.len() == 0 {
            None
        } else {
            Some(self.events[self.events.len() - 1])
        }
    }
}


impl Gallery {
    /// Credits an account's free balance (an endowment from outside the
    /// marketplace); refused where the balance would overflow.
    pub fn deposit(&mut self, who: u64, amount: u128) -> (r: Result<(), Error>)
        requires
            old(self).wf(),
        ensures
            final(self).wf(),
            r is Ok <==> old(self).free_of(who) + amount <= u128::MAX,
            r is Err ==> r == Err::<(), Error>(Error::Overflow),
            r is Ok ==> final(self).balances() == old(self).balances().insert(
                who,
                (old(self).free_of(who) + amount) as u128,
            ),
            r is Ok ==> final(self).same_registry(*old(self)) && final(self).offer_book()
                == old(self).offer_book() && final(self).infos() == old(self).infos()
                && final(self).curator_spec() == old(self).curator_spec() && final(self).events()
                == old(self).events(),
            r is Err ==> *final(self) == *old(self),
    {
        let free = self.free_balance(who);
        match free.checked_add(amount) {
            Some(total) => {
                self.balances.insert(who, total);
                Ok(())
            },
            None => Err(Error::Overflow),
        }
    }

    /// Installs a new curator; only the root origin may.
    pub fn set_curator(&mut self, origin: Origin, curator: u64) -> (r: Result<(), Error>)
        requires
            old(self).wf(),
        ensures
            final(self).wf(),
            r is Ok <==> origin == Origin::Root,
            r is Err ==> r == Err::<(), Error>(Error::BadOrigin) && *final(self) == *old(self),
            r is Ok ==> final(self).curator_spec() == Some(curator),
            r is Ok ==> final(self).same_registry(*old(self)) && final(self).same_funds(*old(self))
                && final(self).infos() == old(self).infos() && final(self).events() == old(
                self,
            ).events(),
    {
        match origin {
            Origin::Root => {
                self.curator = Some(curator);
                Ok(())
            },
            Origin::Signed(_) => Err(Error::BadOrigin),
        }
    }

    pub open spec fn create_collection_outcome(self, origin: Origin) -> Result<(), Error> {
        if signer(origin) is None {
            Err(Error::BadOrigin)
        } else if self.collections().len() >= u32::MAX {
            Err(Error::NoAvailableClassId)
        } else {
            Ok(())
        }
    }

    /// Creates a collection owned by the signer, under the next unused
    /// collection id.
    pub fn create_collection(&mut self, origin: Origin, metadata: Vec<u8>, _class_data: ClassData)
        -> (r: Result<(), Error>)
        requires
            old(self).wf(),
        ensures
            final(self).wf(),
            r == old(self).create_collection_outcome(origin),
            r is Err ==> *final(self) == *old(self),
            r is Ok ==> {
                let id = old(self).collections().len();
                &&& final(self).collections() == old(self).collections().push(
                    CollectionInfo { owner: signer(origin)->0, next_token_id: 0 },
                )
                &&& final(self).collection_metadata() == old(self).collection_metadata().push(
                    metadata,
                )
                &&& final(self).owners() == old(self).owners()
                &&& final(self).token_metadata() == old(self).token_metadata()
                &&& final(self).same_funds(*old(self))
                &&& final(self).infos() == old(self).infos()
                &&& final(self).curator_spec() == old(self).curator_spec()
                &&& final(self).events() == old(self).events().push(
                    Event::CollectionCreated(id as u32),
                )
            },
    {
        let who = ensure_signed(origin)?;
        if self.collections.len() >= u32::MAX as usize {
            return Err(Error::NoAvailableClassId);
        }
        let id = self.collections.len() as u32;
        self.collections.push(CollectionInfo { owner: who, next_token_id: 0 });
        self.collection_metadata.push(metadata);
        self.events.push(Event::CollectionCreated(id));
        Ok(())
    }

    pub open spec fn mint_outcome(self, origin: Origin, c: u32) -> Result<(), Error> {
        match signer(origin) {
            None => Err(Error::BadOrigin),
            Some(who) => match self.collection_owner(c) {
                None => Err(Error::CollectionNotFound),
                Some(owner) => if owner != who {
                    Err(Error::MustBeCollectionOwner)
                } else if self.collections()[c as int].next_token_id == u32::MAX {
                    Err(Error::NoAvailableTokenId)
                } else {
                    Ok(())
                },
            },
        }
    }

    /// Mints a token in a collection of the signer's, under the
    /// collection's next unused token id.
    pub fn mint(&mut self, origin: Origin, c: u32, metadata: Vec<u8>, _token_data: TokenData)
        -> (r: Result<(), Error>)
        requires
            old(self).wf(),
        ensures
            final(self).wf(),
            r == old(self).mint_outcome(origin, c),
            r is Err ==> *final(self) == *old(self),
            r is Ok ==> {
                let who = signer(origin)->0;
                let t = old(self).collections()[c as int].next_token_id;
                &&& old(self).owner_of(c, t) is None
                &&& final(self).owners() == old(self).owners().insert(token_key(c, t), who)
                &&& final(self).token_metadata() == old(self).token_metadata().insert(
                    token_key(c, t),
                    metadata,
                )
                &&& final(self).collections() == old(self).collections().update(
                    c as int,
                    CollectionInfo { owner: who, next_token_id: (t + 1) as u32 },
                )
                &&& final(self).collection_metadata() == old(self).collection_metadata()
                &&& final(self).same_funds(*old(self))
                &&& final(self).infos() == old(self).infos()
                &&& final(self).curator_spec() == old(self).curator_spec()
                &&& final(self).events() == old(self).events().push(Event::NFTCreated(c, t))
            },
    {
        let who = ensure_signed(origin)?;
        if c as usize >= self.collections.len() {
            return Err(Error::CollectionNotFound);
        }
        let info = self.collections[c as usize];
        if info.owner != who {
            return Err(Error::MustBeCollectionOwner);
        }
        if info.next_token_id == u32::MAX {
            return Err(Error::NoAvailableTokenId);
        }
        let t = info.next_token_id;
        let k = make_token_key(c, t);
        proof {
            assert forall|c2: u32, t2: u32| #[trigger]
                self.owners@.insert(k, who).contains_key(token_key(c2, t2)) implies (c2 as int)
                < self.collections@.len() && t2 < self.collections@.update(
                c as int,
                CollectionInfo { owner: who, next_token_id: (t + 1) as u32 },
            )[c2 as int].next_token_id by {
                lemma_token_key_injective(c, t, c2, t2);
            }
        }
        self.owners.insert(k, who);
        self.token_metadata.insert(k, metadata);
        self.collections.set(c as usize, CollectionInfo { owner: who, next_token_id: t + 1 });
        self.events.push(Event::NFTCreated(c, t));
        Ok(())
    }
}


impl Gallery {
    /// Moves a token in the registry: the token must exist and `from` must
    /// own it; a move to its own owner changes nothing.
    pub(crate) fn registry_transfer(&mut self, from: u64, to: u64, c: u32, t: u32) -> (r: Result<
        (),
        Error,
    >)
        requires
            old(self).wf(),
        ensures
            final(self).wf(),
            old(self).owner_of(c, t) is None ==> r == Err::<(), Error>(Error::TokenNotFound),
            old(self).owner_of(c, t) is Some && old(self).owner_of(c, t) != Some(from) ==> r
                == Err::<(), Error>(Error::NoPermission),
            old(self).owner_of(c, t) == Some(from) ==> r is Ok,
            r is Err ==> *final(self) == *old(self),
            r is Ok ==> {
                &&& final(self).owners() == old(self).owners().insert(token_key(c, t), to)
                &&& final(self).collections() == old(self).collections()
                &&& final(self).collection_metadata() == old(self).collection_metadata()
                &&& final(self).token_metadata() == old(self).token_metadata()
                &&& final(self).same_funds(*old(self))
                &&& final(self).infos() == old(self).infos()
                &&& final(self).curator_spec() == old(self).curator_spec()
                &&& final(self).events() == old(self).events()
            },
    {
        let k = make_token_key(c, t);
        match self.owners.get(&k) {
            None => Err(Error::TokenNotFound),
            Some(owner) => {
                if *owner != from {
                    return Err(Error::NoPermission);
                }
                if from != to {
                    self.owners.insert(k, to);
                } else {
                    assert(self.owners@.insert(k, to) =~= self.owners@);
                }
                Ok(())
            },
        }
    }

    /// Stores the extended info of a token.
    pub(crate) fn write_info(&mut self, c: u32, t: u32, info: ExtendedInfo)
        requires
            old(self).wf(),
        ensures
            final(self).wf(),
            final(self).infos() == old(self).infos().insert(token_key(c, t), info),
            final(self).same_registry(*old(self)),
            final(self).same_funds(*old(self)),
            final(self).curator_spec() == old(self).curator_spec(),
            final(self).events() == old(self).events(),
    {
        let k = make_token_key(c, t);
        self.infos.insert(k, info);
    }

    pub open spec fn burn_outcome(self, origin: Origin, c: u32, t: u32) -> Result<(), Error> {
        match signer(origin) {
            None => Err(Error::BadOrigin),
            Some(who) => match self.collection_owner(c) {
                None => Err(Error::CollectionNotFound),
                Some(owner) => if self.curator_spec() != Some(who) && owner != who {
                    Err(Error::MustBeCollectionOwnerOrCurator)
                } else if self.info_of(c, t).frozen {
                    Err(Error::TokenFrozen)
                } else {
                    match self.owner_of(c, t) {
                        None => Err(Error::TokenNotFound),
                        Some(holder) => if holder != who {
                            Err(Error::NoPermission)
                        } else {
                            Ok(())
                        },
                    }
                },
            },
        }
    }

    /// Burns a token. The signer must be the collection's owner or the
    /// curator, the token must not be frozen, and the registry only burns a
    /// token for the account that holds it. The token's extended info goes
    /// with it.
    pub fn burn(&mut self, origin: Origin, c: u32, t: u32) -> (r: Result<(), Error>)
        requires
            old(self).wf(),
        ensures
            final(self).wf(),
            r == old(self).burn_outcome(origin, c, t),
            r is Err ==> *final(self) == *old(self),
            r is Ok ==> {
                &&& final(self).owners() == old(self).owners().remove(token_key(c, t))
                &&& final(self).token_metadata() == old(self).token_metadata().remove(
                    token_key(c, t),
                )
                &&& final(self).infos() == old(self).infos().remove(token_key(c, t))
                &&& final(self).collections() == old(self).collections()
                &&& final(self).collection_metadata() == old(self).collection_metadata()
                &&& final(self).same_funds(*old(self))
                &&& final(self).curator_spec() == old(self).curator_spec()
                &&& final(self).events() == old(self).events().push(Event::NFTBurned(c, t))
            },
    {
        let who = ensure_signed(origin)?;
        let owner = match self.collection_owner_of(c) {
            None => {
                return Err(Error::CollectionNotFound);
            },
            Some(o) => o,
        };
        if self.curator != Some(who) && owner != who {
            return Err(Error::MustBeCollectionOwnerOrCurator);
        }
        let info = self.token_extended_info(c, t);
        if info.frozen {
            return Err(Error::TokenFrozen);
        }
        match self.token_owner(c, t) {
            None => {
                return Err(Error::TokenNotFound);
            },
            Some(holder) => {
                if holder != who {
                    return Err(Error::NoPermission);
                }
            },
        }
        let k = make_token_key(c, t);
        self.owners.remove(&k);
        self.token_metadata.remove(&k);
        self.infos.remove(&k);
        self.events.push(Event::NFTBurned(c, t));
        Ok(())
    }

    pub open spec fn owner_action_outcome(self, origin: Origin, c: u32, t: u32) -> Result<
        (),
        Error,
    > {
        match signer(origin) {
            None => Err(Error::BadOrigin),
            Some(who) => match self.owner_of(c, t) {
                None => Err(Error::TokenNotFound),
                Some(owner) => if owner != who {
                    Err(Error::MustBeTokenOwner)
                } else {
                    Ok(())
                },
            },
        }
    }

    /// Like `owner_action_outcome`, and the token must not be frozen.
    pub open spec fn custody_outcome(self, origin: Origin, c: u32, t: u32) -> Result<(), Error> {
        if self.owner_action_outcome(origin, c, t) is Err {
            self.owner_action_outcome(origin, c, t)
        } else if self.info_of(c, t).frozen {
            Err(Error::TokenFrozen)
        } else {
            Ok(())
        }
    }

    /// Checks that the signer owns an existing token, and yields the signer.
    fn ensure_token_owner(&self, origin: Origin, c: u32, t: u32) -> (r: Result<u64, Error>)
        ensures
            r is Ok <==> self.owner_action_outcome(origin, c, t) is Ok,
            r is Ok ==> signer(origin) == Some(r->Ok_0),
            r is Err ==> r->Err_0 == self.owner_action_outcome(origin, c, t)->Err_0,
    {
        let who = ensure_signed(origin)?;
        match self.token_owner(c, t) {
            None => Err(Error::TokenNotFound),
            Some(owner) => if owner != who {
                Err(Error::MustBeTokenOwner)
            } else {
                Ok(who)
            },
        }
    }

    /// Transfers a token of the signer's to `recipient`, unless it is frozen.
    pub fn transfer(&mut self, origin: Origin, c: u32, t: u32, recipient: u64) -> (r: Result<
        (),
        Error,
    >)
        requires
            old(self).wf(),
        ensures
            final(self).wf(),
            r == old(self).custody_outcome(origin, c, t),
            r is Err ==> *final(self) == *old(self),
            r is Ok ==> {
                &&& final(self).owners() == old(self).owners().insert(token_key(c, t), recipient)
                &&& final(self).collections() == old(self).collections()
                &&& final(self).collection_metadata() == old(self).collection_metadata()
                &&& final(self).token_metadata() == old(self).token_metadata()
                &&& final(self).same_funds(*old(self))
                &&& final(self).infos() == old(self).infos()
                &&& final(self).curator_spec() == old(self).curator_spec()
                &&& final(self).events() == old(self).events().push(
                    Event::Transfer(c, t, recipient),
                )
            },
    {
        let who = self.ensure_token_owner(origin, c, t)?;
        let info = self.token_extended_info(c, t);
        if info.frozen {
            return Err(Error::TokenFrozen);
        }
        let moved = self.registry_transfer(who, recipient, c, t);
        assert(moved is Ok);
        self.events.push(Event::Transfer(c, t, recipient));
        Ok(())
    }

    /// How a successful `toggle_display` changes the state.
    pub open spec fn toggle_display_effect(
        self,
        post: Gallery,
        c: u32,
        t: u32,
        display: bool,
    ) -> bool {
        &&& post.infos() == self.infos().insert(
            token_key(c, t),
            ExtendedInfo { display_flag: display, ..self.info_of(c, t) },
        )
        &&& post.info_of(c, t).display_flag == display
        &&& post.same_registry(self)
        &&& post.same_funds(self)
        &&& post.curator_spec() == self.curator_spec()
        &&& post.events() == self.events().push(Event::ToggleDisplay(display))
    }

    /// Sets whether the signer's token is on display. Custody does not
    /// matter here.
    pub fn toggle_display(&mut self, origin: Origin, c: u32, t: u32, display: bool) -> (r: Result<
        (),
        Error,
    >)
        requires
            old(self).wf(),
        ensures
            final(self).wf(),
            r == old(self).owner_action_outcome(origin, c, t),
            r is Err ==> *final(self) == *old(self),
            r is Ok ==> old(self).toggle_display_effect(*final(self), c, t, display),
    {
        self.ensure_token_owner(origin, c, t)?;
        let info = self.token_extended_info(c, t);
        self.write_info(c, t, ExtendedInfo { display_flag: display, ..info });
        self.events.push(Event::ToggleDisplay(display));
        Ok(())
    }

    pub open spec fn existing_token_outcome(self, origin: Origin, c: u32, t: u32) -> Result<
        (),
        Error,
    > {
        if signer(origin) is None {
            Err(Error::BadOrigin)
        } else if self.owner_of(c, t) is None {
            Err(Error::TokenNotFound)
        } else {
            Ok(())
        }
    }

    /// Files a report on an existing token; any signer may.
    pub fn report(&mut self, origin: Origin, c: u32, t: u32, reason: ReportReason) -> (r: Result<
        (),
        Error,
    >)
        requires
            old(self).wf(),
        ensures
            final(self).wf(),
            r == old(self).existing_token_outcome(origin, c, t),
            r is Err ==> *final(self) == *old(self),
            r is Ok ==> {
                &&& final(self).infos() == old(self).infos().insert(
                    token_key(c, t),
                    ExtendedInfo { report: reason, ..old(self).info_of(c, t) },
                )
                &&& final(self).same_registry(*old(self))
                &&& final(self).same_funds(*old(self))
                &&& final(self).curator_spec() == old(self).curator_spec()
                &&& final(self).events() == old(self).events().push(
                    Event::ArtReported(c, t, reason),
                )
            },
    {
        ensure_signed(origin)?;
        if self.token_owner(c, t).is_none() {
            return Err(Error::TokenNotFound);
        }
        let info = self.token_extended_info(c, t);
        self.write_info(c, t, ExtendedInfo { report: reason, ..info });
        self.events.push(Event::ArtReported(c, t, reason));
        Ok(())
    }

    pub open spec fn curator_action_outcome(self, origin: Origin, c: u32, t: u32) -> Result<
        (),
        Error,
    > {
        if self.existing_token_outcome(origin, c, t) is Err {
            self.existing_token_outcome(origin, c, t)
        } else if self.curator_spec() != signer(origin) {
            Err(Error::MustBeCurator)
        } else {
            Ok(())
        }
    }

    /// Sets the report state of an existing token; only the curator may.
    fn adjudicate(&mut self, origin: Origin, c: u32, t: u32, verdict: ReportReason) -> (r: Result<
        (),
        Error,
    >)
        requires
            old(self).wf(),
        ensures
            final(self).wf(),
            r == old(self).curator_action_outcome(origin, c, t),
            r is Err ==> *final(self) == *old(self),
            r is Ok ==> {
                &&& final(self).infos() == old(self).infos().insert(
                    token_key(c, t),
                    ExtendedInfo { report: verdict, ..old(self).info_of(c, t) },
                )
                &&& final(self).same_registry(*old(self))
                &&& final(self).same_funds(*old(self))
                &&& final(self).curator_spec() == old(self).curator_spec()
                &&& final(self).events() == old(self).events()
            },
    {
        let who = ensure_signed(origin)?;
        if self.token_owner(c, t).is_none() {
            return Err(Error::TokenNotFound);
        }
        if self.curator != Some(who) {
            return Err(Error::MustBeCurator);
        }
        let info = self.token_extended_info(c, t);
        self.write_info(c, t, ExtendedInfo { report: verdict, ..info });
        Ok(())
    }

    /// Upholds the report on a token: its report state becomes `Reported`.
    pub fn accept_report(&mut self, origin: Origin, c: u32, t: u32) -> (r: Result<(), Error>)
        requires
            old(self).wf(),
        ensures
            final(self).wf(),
            r == old(self).curator_action_outcome(origin, c, t),
            r is Err ==> *final(self) == *old(self),
            r is Ok ==> {
                &&& final(self).infos() == old(self).infos().insert(
                    token_key(c, t),
                    ExtendedInfo { report: ReportReason::Reported, ..old(self).info_of(c, t) },
                )
                &&& final(self).same_registry(*old(self))
                &&& final(self).same_funds(*old(self))
                &&& final(self).curator_spec() == old(self).curator_spec()
                &&& final(self).events() == old(self).events().push(
                    Event::ArtReportAccepted(c, t),
                )
            },
    {
        self.adjudicate(origin, c, t, ReportReason::Reported)?;
        self.events.push(Event::ArtReportAccepted(c, t));
        Ok(())
    }

    /// Dismisses the report on a token: its report state becomes
    /// `NotReported`.
    pub fn clear_report(&mut self, origin: Origin, c: u32, t: u32) -> (r: Result<(), Error>)
        requires
            old(self).wf(),
        ensures
            final(self).wf(),
            r == old(self).curator_action_outcome(origin, c, t),
            r is Err ==> *final(self) == *old(self),
            r is Ok ==> {
                &&& final(self).infos() == old(self).infos().insert(
                    token_key(c, t),
                    ExtendedInfo { report: ReportReason::NotReported, ..old(self).info_of(c, t) },
                )
                &&& final(self).same_registry(*old(self))
                &&& final(self).same_funds(*old(self))
                &&& final(self).curator_spec() == old(self).curator_spec()
                &&& final(self).events() == old(self).events().push(
                    Event::ArtReportCleared(c, t),
                )
            },
    {
        self.adjudicate(origin, c, t, ReportReason::NotReported)?;
        self.events.push(Event::ArtReportCleared(c, t));
        Ok(())
    }
}


impl Gallery {
    /// Every offer but the one of `bidder` on token `t` of collection `c`
    /// is the same in both states.
    pub open spec fn offers_agree_except(self, o: Gallery, c: u32, t: u32, bidder: u64) -> bool {
        forall|c2: u32, t2: u32, b2: u64|
            !(c2 == c && t2 == t && b2 == bidder) ==> #[trigger] self.offer_of(c2, t2, b2)
                == o.offer_of(c2, t2, b2)
    }

    /// Records an offer, replacing the bidder's earlier one on the token.
    fn put_offer(&mut self, c: u32, t: u32, bidder: u64, amount: u128)
        requires
            old(self).wf(),
        ensures
            final(self).wf(),
            final(self).offer_of(c, t, bidder) == Some(amount),
            final(self).offers_agree_except(*old(self), c, t, bidder),
            final(self).same_registry(*old(self)),
            final(self).balances() == old(self).balances(),
            final(self).infos() == old(self).infos(),
            final(self).curator_spec() == old(self).curator_spec(),
            final(self).events() == old(self).events(),
    {
        let k = make_token_key(c, t);
        let ghost before = *self;
        let mut book = match self.offers.remove(&k) {
            Some(b) => b,
            None => HashMap::new(),
        };
        book.insert(bidder, amount);
        self.offers.insert(k, book);
        assert forall|c2: u32, t2: u32, b2: u64|
            !(c2 == c && t2 == t && b2 == bidder) implies #[trigger] self.offer_of(c2, t2, b2)
            == before.offer_of(c2, t2, b2) by {
            lemma_token_key_injective(c, t, c2, t2);
        }
    }

    /// Removes the offer of `bidder` on a token.
    fn take_offer(&mut self, c: u32, t: u32, bidder: u64)
        requires
            old(self).wf(),
        ensures
            final(self).wf(),
            final(self).offer_of(c, t, bidder) is None,
            final(self).offers_agree_except(*old(self), c, t, bidder),
            final(self).same_registry(*old(self)),
            final(self).balances() == old(self).balances(),
            final(self).infos() == old(self).infos(),
            final(self).curator_spec() == old(self).curator_spec(),
            final(self).events() == old(self).events(),
    {
        let k = make_token_key(c, t);
        let ghost before = *self;
        match self.offers.remove(&k) {
            Some(mut book) => {
                book.remove(&bidder);
                self.offers.insert(k, book);
            },
            None => {},
        }
        assert forall|c2: u32, t2: u32, b2: u64|
            !(c2 == c && t2 == t && b2 == bidder) implies #[trigger] self.offer_of(c2, t2, b2)
            == before.offer_of(c2, t2, b2) by {
            lemma_token_key_injective(c, t, c2, t2);
        }
    }

    /// Sets the free balance of an account.
    fn set_free(&mut self, who: u64, amount: u128)
        requires
            old(self).wf(),
        ensures
            final(self).wf(),
            final(self).balances() == old(self).balances().insert(who, amount),
            final(self).same_registry(*old(self)),
            final(self).offer_book() == old(self).offer_book(),
            final(self).infos() == old(self).infos(),
            final(self).curator_spec() == old(self).curator_spec(),
            final(self).events() == old(self).events(),
    {
        self.balances.insert(who, amount);
    }

    /// What the bidder already holds reserved for the token.
    pub open spec fn held_by(self, c: u32, t: u32, bidder: u64) -> u128 {
        match self.offer_of(c, t, bidder) {
            Some(a) => a,
            None => 0,
        }
    }

    pub open spec fn create_offer_outcome(self, origin: Origin, c: u32, t: u32, price: u128) -> Result<
        (),
        Error,
    > {
        match signer(origin) {
            None => Err(Error::BadOrigin),
            Some(who) => {
                let avail = self.free_of(who) + self.held_by(c, t, who);
                if avail < price {
                    Err(Error::InsufficientBalance)
                } else if avail - price > u128::MAX {
                    Err(Error::Overflow)
                } else {
                    Ok(())
                }
            },
        }
    }

    /// How a successful `create_offer` changes the state.
    pub open spec fn create_offer_effect(
        self,
        post: Gallery,
        origin: Origin,
        c: u32,
        t: u32,
        price: u128,
    ) -> bool {
        let who = signer(origin)->0;
        &&& post.offer_of(c, t, who) == Some(price)
        &&& post.offers_agree_except(self, c, t, who)
        &&& post.balances() == self.balances().insert(
            who,
            (self.free_of(who) + self.held_by(c, t, who) - price) as u128,
        )
        &&& post.same_registry(self)
        &&& post.infos() == self.infos()
        &&& post.curator_spec() == self.curator_spec()
        &&& post.events() == self.events().push(
            Event::OfferCreated(c, t, price, who),
        )
    }

    /// Offers `price` for a token and reserves it from the signer's free
    /// balance. An earlier offer of the signer's on the same token is
    /// replaced, and its reservation released, so funds are never reserved
    /// twice for one token.
    pub fn create_offer(&mut self, origin: Origin, c: u32, t: u32, price: u128) -> (r: Result<
        (),
        Error,
    >)
        requires
            old(self).wf(),
        ensures
            final(self).wf(),
            r == old(self).create_offer_outcome(origin, c, t, price),
            r is Err ==> *final(self) == *old(self),
            r is Ok ==> old(self).create_offer_effect(*final(self), origin, c, t, price),
    {
        let who = ensure_signed(origin)?;
        let free = self.free_balance(who);
        let held = match self.offer(c, t, who) {
            Some(a) => a,
            None => 0,
        };
        let rest: u128;
        if free >= price {
            match (free - price).checked_add(held) {
                Some(v) => {
                    rest = v;
                },
                None => {
                    return Err(Error::Overflow);
                },
            }
        } else {
            let need = price - free;
            if held < need {
                return Err(Error::InsufficientBalance);
            }
            rest = held - need;
        }
        let ghost before = *self;
        self.set_free(who, rest);
        let ghost pre = *self;
        self.put_offer(c, t, who, price);
        let ghost mid = *self;
        self.events.push(Event::OfferCreated(c, t, price, who));
        proof {
            assert forall|c2: u32, t2: u32, b2: u64|
                !(c2 == c && t2 == t && b2 == who) implies #[trigger] self.offer_of(c2, t2, b2)
                == before.offer_of(c2, t2, b2) by {
                assert(mid.offer_of(c2, t2, b2) == pre.offer_of(c2, t2, b2));
            }
        }
        Ok(())
    }

    pub open spec fn accept_offer_outcome(self, origin: Origin, c: u32, t: u32, buyer: u64) -> Result<
        (),
        Error,
    > {
        if self.custody_outcome(origin, c, t) is Err {
            self.custody_outcome(origin, c, t)
        } else {
            match self.offer_of(c, t, buyer) {
                None => Err(Error::OfferNotFound),
                Some(amount) => if self.free_of(signer(origin)->0) + amount > u128::MAX {
                    Err(Error::Overflow)
                } else {
                    Ok(())
                },
            }
        }
    }

    /// How a successful `accept_offer` changes the state.
    pub open spec fn accept_offer_effect(
        self,
        post: Gallery,
        origin: Origin,
        c: u32,
        t: u32,
        buyer: u64,
    ) -> bool {
        let seller = signer(origin)->0;
        let amount = self.offer_of(c, t, buyer)->0;
        &&& post.offer_of(c, t, buyer) is None
        &&& post.offers_agree_except(self, c, t, buyer)
        &&& post.balances() == self.balances().insert(
            seller,
            (self.free_of(seller) + amount) as u128,
        )
        &&& post.owners() == self.owners().insert(token_key(c, t), buyer)
        &&& post.collections() == self.collections()
        &&& post.collection_metadata() == self.collection_metadata()
        &&& post.token_metadata() == self.token_metadata()
        &&& post.infos() == self.infos()
        &&& post.curator_spec() == self.curator_spec()
        &&& post.events() == self.events().push(
            Event::AcceptOffer(c, t, seller, buyer),
        )
    }

    /// Sells a token of the signer's to `buyer` at the buyer's offer: the
    /// reserved amount goes to the signer's free balance, the offer is
    /// removed and the token moves to the buyer.
    pub fn accept_offer(&mut self, origin: Origin, c: u32, t: u32, buyer: u64) -> (r: Result<
        (),
        Error,
    >)
        requires
            old(self).wf(),
        ensures
            final(self).wf(),
            r == old(self).accept_offer_outcome(origin, c, t, buyer),
            r is Err ==> *final(self) == *old(self),
            r is Ok ==> old(self).accept_offer_effect(*final(self), origin, c, t, buyer),
    {
        let who = self.ensure_token_owner(origin, c, t)?;
        let info = self.token_extended_info(c, t);
        if info.frozen {
            return Err(Error::TokenFrozen);
        }
        let amount = match self.offer(c, t, buyer) {
            None => {
                return Err(Error::OfferNotFound);
            },
            Some(a) => a,
        };
        let free = self.free_balance(who);
        let credited = match free.checked_add(amount) {
            None => {
                return Err(Error::Overflow);
            },
            Some(v) => v,
        };
        let ghost before = *self;
        self.take_offer(c, t, buyer);
        let ghost mid = *self;
        self.set_free(who, credited);
        let moved = self.registry_transfer(who, buyer, c, t);
        assert(moved is Ok);
        self.events.push(Event::AcceptOffer(c, t, who, buyer));
        proof {
            assert forall|c2: u32, t2: u32, b2: u64|
                !(c2 == c && t2 == t && b2 == buyer) implies #[trigger] self.offer_of(c2, t2, b2)
                == before.offer_of(c2, t2, b2) by {
                assert(mid.offer_of(c2, t2, b2) == before.offer_of(c2, t2, b2));
            }
        }
        Ok(())
    }

    pub open spec fn cancel_offer_outcome(self, origin: Origin, c: u32, t: u32) -> Result<
        (),
        Error,
    > {
        match signer(origin) {
            None => Err(Error::BadOrigin),
            Some(who) => match self.offer_of(c, t, who) {
                None => Err(Error::OfferNotFound),
                Some(amount) => if self.free_of(who) + amount > u128::MAX {
                    Err(Error::Overflow)
                } else {
                    Ok(())
                },
            },
        }
    }

    /// How a successful `cancel_offer` changes the state.
    pub open spec fn cancel_offer_effect(
        self,
        post: Gallery,
        origin: Origin,
        c: u32,
        t: u32,
    ) -> bool {
        let who = signer(origin)->0;
        &&& post.offer_of(c, t, who) is None
        &&& post.offers_agree_except(self, c, t, who)
        &&& post.balances() == self.balances().insert(
            who,
            (self.free_of(who) + self.offer_of(c, t, who)->0) as u128,
        )
        &&& post.same_registry(self)
        &&& post.infos() == self.infos()
        &&& post.curator_spec() == self.curator_spec()
        &&& post.events() == self.events().push(Event::CancelOffer(c, t, who))
    }

    /// Withdraws the signer's offer on a token and releases its reservation
    /// to the signer's free balance. This works whether or not the token
    /// still exists, so no reservation is ever stuck.
    pub fn cancel_offer(&mut self, origin: Origin, c: u32, t: u32) -> (r: Result<(), Error>)
        requires
            old(self).wf(),
        ensures
            final(self).wf(),
            r == old(self).cancel_offer_outcome(origin, c, t),
            r is Err ==> *final(self) == *old(self),
            r is Ok ==> old(self).cancel_offer_effect(*final(self), origin, c, t),
    {
        let who = ensure_signed(origin)?;
        let amount = match self.offer(c, t, who) {
            None => {
                return Err(Error::OfferNotFound);
            },
            Some(a) => a,
        };
        let free = self.free_balance(who);
        let released = match free.checked_add(amount) {
            None => {
                return Err(Error::Overflow);
            },
            Some(v) => v,
        };
        let ghost before = *self;
        self.take_offer(c, t, who);
        let ghost mid = *self;
        self.set_free(who, released);
        self.events.push(Event::CancelOffer(c, t, who));
        proof {
            assert forall|c2: u32, t2: u32, b2: u64|
                !(c2 == c && t2 == t && b2 == who) implies #[trigger] self.offer_of(c2, t2, b2)
                == before.offer_of(c2, t2, b2) by {
                assert(mid.offer_of(c2, t2, b2) == before.offer_of(c2, t2, b2));
            }
        }
        Ok(())
    }

    pub open spec fn appreciate_outcome(self, origin: Origin, c: u32, t: u32, amount: u128) -> Result<
        (),
        Error,
    > {
        match signer(origin) {
            None => Err(Error::BadOrigin),
            Some(who) => match self.owner_of(c, t) {
                None => Err(Error::TokenNotFound),
                Some(owner) => if self.free_of(who) < amount {
                    Err(Error::BalanceNotEnough)
                } else if owner != who && self.free_of(owner) + amount > u128::MAX {
                    Err(Error::Overflow)
                } else {
                    Ok(())
                },
            },
        }
    }

    /// Pays `amount` from the signer's free balance straight to the token's
    /// current owner; the payer's balance may reach zero.
    pub fn appreciate(&mut self, origin: Origin, c: u32, t: u32, amount: u128) -> (r: Result<
        (),
        Error,
    >)
        requires
            old(self).wf(),
        ensures
            final(self).wf(),
            r == old(self).appreciate_outcome(origin, c, t, amount),
            r is Err ==> *final(self) == *old(self),
            r is Ok ==> {
                let who = signer(origin)->0;
                let owner = old(self).owner_of(c, t)->0;
                &&& owner == who ==> final(self).balances() == old(self).balances()
                &&& owner != who ==> final(self).balances() == old(self).balances().insert(
                    who,
                    (old(self).free_of(who) - amount) as u128,
                ).insert(owner, (old(self).free_of(owner) + amount) as u128)
                &&& final(self).same_registry(*old(self))
                &&& final(self).offer_book() == old(self).offer_book()
                &&& final(self).infos() == old(self).infos()
                &&& final(self).curator_spec() == old(self).curator_spec()
                &&& final(self).events() == old(self).events().push(
                    Event::AppreciationReceived(c, t, amount),
                )
            },
    {
        let who = ensure_signed(origin)?;
        let owner = match self.token_owner(c, t) {
            None => {
                return Err(Error::TokenNotFound);
            },
            Some(o) => o,
        };
        let payer_free = self.free_balance(who);
        if payer_free < amount {
            return Err(Error::BalanceNotEnough);
        }
        if owner != who {
            let payee_free = self.free_balance(owner);
            let credited = match payee_free.checked_add(amount) {
                None => {
                    return Err(Error::Overflow);
                },
                Some(v) => v,
            };
            self.set_free(who, payer_free - amount);
            self.set_free(owner, credited);
        }
        self.events.push(Event::AppreciationReceived(c, t, amount));
        Ok(())
    }
}

} // verus!
