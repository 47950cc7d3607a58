use vstd::prelude::*;
use crate::gallery::Gallery;
use crate::types::{token_key, Error, ExtendedInfo};

verus! {

/// Custody of one token, handed to an atomic-swap coordinator: `reserve`
/// freezes the token for the swap, `claim` completes the swap by moving the
/// token, `cancel` releases it. The coordinator calls these; they never
/// call the coordinator.
#[derive(Clone, Copy, Debug, PartialEq, Eq, Structural)]
pub struct GallerySwapAction {
    pub collection_id: u32,
    pub token_id: u32,
}

impl GallerySwapAction {
    pub fn new(collection_id: u32, token_id: u32) -> (r: GallerySwapAction)
        ensures
            r.collection_id == collection_id,
            r.token_id == token_id,
    {
        GallerySwapAction { collection_id, token_id }
    }

    pub open spec fn key(self) -> u64 {
        token_key(self.collection_id, self.token_id)
    }

    pub open spec fn reserve_outcome(self, g: Gallery, source: u64) -> Result<(), Error> {
        match g.owner_of(self.collection_id, self.token_id) {
            None => Err(Error::TokenNotFound),
            Some(owner) => if owner != source {
                Err(Error::MustBeTokenOwner)
            } else if g.info_of(self.collection_id, self.token_id).frozen {
                Err(Error::TokenFrozen)
            } else {
                Ok(())
            },
        }
    }

    /// How a successful `reserve` changes the state: the token is frozen.
    pub open spec fn reserve_effect(self, g: Gallery, post: Gallery) -> bool {
        &&& post.infos() == g.infos().insert(
            self.key(),
            ExtendedInfo { frozen: true, ..g.info_of(self.collection_id, self.token_id) },
        )
        &&& post.same_registry(g)
        &&& post.same_funds(g)
        &&& post.curator_spec() == g.curator_spec()
        &&& post.events() == g.events()
    }

    /// How `cancel` changes the state: the freeze is lifted where `source`
    /// owns the token, and nothing changes otherwise.
    pub open spec fn cancel_effect(self, g: Gallery, post: Gallery, source: u64) -> bool {
        if g.owner_of(self.collection_id, self.token_id) == Some(source) {
            &&& post.infos() == g.infos().insert(
                self.key(),
                ExtendedInfo { frozen: false, ..g.info_of(self.collection_id, self.token_id) },
            )
            &&& post.same_registry(g)
            &&& post.same_funds(g)
            &&& post.curator_spec() == g.curator_spec()
            &&& post.events() == g.events()
        } else {
            post == g
        }
    }

    /// Freezes the token for a swap offered by its owner `source`. A token
    /// that is already frozen is in another swap and cannot be reserved.
    pub fn reserve(&self, g: &mut Gallery, source: u64) -> (r: Result<(), Error>)
        requires
            old(g).wf(),
        ensures
            final(g).wf(),
            r == self.reserve_outcome(*old(g), source),
            r is Err ==> *final(g) == *old(g),
            r is Ok ==> self.reserve_effect(*old(g), *final(g)),
    {
        let c = self.collection_id;
        let t = self.token_id;
        match g.token_owner(c, t) {
            None => Err(Error::TokenNotFound),
            Some(owner) => {
                if owner != source {
                    return Err(Error::MustBeTokenOwner);
                }
                let info = g.token_extended_info(c, t);
                if info.frozen {
                    return Err(Error::TokenFrozen);
                }
                g.write_info(c, t, ExtendedInfo { frozen: true, ..info });
                Ok(())
            },
        }
    }

    /// Completes the swap: moves the token from `source` to `target` and
    /// lifts the freeze. Reports whether it happened; it happens exactly
    /// when the token exists and `source` still owns it.
    pub fn claim(&self, g: &mut Gallery, source: u64, target: u64) -> (r: bool)
        requires
            old(g).wf(),
        ensures
            final(g).wf(),
            r == (old(g).owner_of(self.collection_id, self.token_id) == Some(source)),
            !r ==> *final(g) == *old(g),
            r ==> {
                &&& final(g).owners() == old(g).owners().insert(self.key(), target)
                &&& final(g).infos() == old(g).infos().insert(
                    self.key(),
                    ExtendedInfo {
                        frozen: false,
                        ..old(g).info_of(self.collection_id, self.token_id)
                    },
                )
                &&& final(g).collections() == old(g).collections()
                &&& final(g).collection_metadata() == old(g).collection_metadata()
                &&& final(g).token_metadata() == old(g).token_metadata()
                &&& final(g).same_funds(*old(g))
                &&& final(g).curator_spec() == old(g).curator_spec()
                &&& final(g).events() == old(g).events()
            },
    {
        let c = self.collection_id;
        let t = self.token_id;
        match g.token_owner(c, t) {
            None => false,
            Some(owner) => {
                if owner != source {
                    return false;
                }
                let info = g.token_extended_info(c, t);
                let moved = g.registry_transfer(source, target, c, t);
                if moved.is_err() {
                    return false;
                }
                g.write_info(c, t, ExtendedInfo { frozen: false, ..info });
                true
            },
        }
    }

    /// Lifts the freeze when `source` owns the token; otherwise does nothing.
    pub fn cancel(&self, g: &mut Gallery, source: u64)
        requires
            old(g).wf(),
        ensures
            final(g).wf(),
            self.cancel_effect(*old(g), *final(g), source),
    {
        let c = self.collection_id;
        let t = self.token_id;
        if g.token_owner(c, t) == Some(source) {
            let info = g.token_extended_info(c, t);
            g.write_info(c, t, ExtendedInfo { frozen: false, ..info });
        }
    }

    /// The resource cost of this custody action: a fiftieth of the largest
    /// weight a block may carry.
    pub fn weight(&self, max_block: u64) -> (r: u64)
        ensures
            r == max_block / 50,
    {
        max_block / 50
    }
}

} // verus!
