use vstd::prelude::*;
use crate::gallery::{signer, Gallery};
use crate::swap::GallerySwapAction;
use crate::types::{Error, Origin};

verus! {

/// A frozen token can be neither transferred, burned nor sold: each of
/// these calls is rejected, and where the caller passes the checks that
/// come before custody, the rejection is `TokenFrozen`.
pub proof fn lemma_frozen_token_is_locked(g: Gallery, origin: Origin, c: u32, t: u32, buyer: u64)
    requires
        g.info_of(c, t).frozen,
    ensures
        g.custody_outcome(origin, c, t) is Err,
        g.accept_offer_outcome(origin, c, t, buyer) is Err,
        g.burn_outcome(origin, c, t) is Err,
        g.owner_action_outcome(origin, c, t) is Ok ==> g.custody_outcome(origin, c, t) == Err::<
            (),
            Error,
        >(Error::TokenFrozen) && g.accept_offer_outcome(origin, c, t, buyer) == Err::<(), Error>(
            Error::TokenFrozen,
        ),
        signer(origin) is Some && g.collection_owner(c) is Some && (g.curator_spec() == signer(
            origin,
        ) || g.collection_owner(c) == signer(origin)) ==> g.burn_outcome(origin, c, t) == Err::<
            (),
            Error,
        >(Error::TokenFrozen),
{
}

/// An offer made where the bidder had none on the token, then withdrawn,
/// leaves the bidder's free balance where it was; the withdrawal always
/// succeeds and no offer of theirs remains.
pub proof fn lemma_offer_then_cancel_restores_balance(
    g0: Gallery,
    g1: Gallery,
    g2: Gallery,
    bidder: u64,
    c: u32,
    t: u32,
    price: u128,
)
    requires
        g0.offer_of(c, t, bidder) is None,
        g0.create_offer_outcome(Origin::Signed(bidder), c, t, price) is Ok,
        g0.create_offer_effect(g1, Origin::Signed(bidder), c, t, price),
        g1.cancel_offer_effect(g2, Origin::Signed(bidder), c, t),
    ensures
        g1.cancel_offer_outcome(Origin::Signed(bidder), c, t) is Ok,
        g2.free_of(bidder) == g0.free_of(bidder),
        g2.offer_of(c, t, bidder) is None,
        forall|c2: u32, t2: u32, b2: u64| #[trigger]
            g2.offer_of(c2, t2, b2) == g0.offer_of(c2, t2, b2),
{
    assert forall|c2: u32, t2: u32, b2: u64| #[trigger]
        g2.offer_of(c2, t2, b2) == g0.offer_of(c2, t2, b2) by {
        if !(c2 == c && t2 == t && b2 == bidder) {
            assert(g1.offer_of(c2, t2, b2) == g0.offer_of(c2, t2, b2));
        }
    }
}

/// Accepting an offer consumes the bidder's whole reservation, credits the
/// seller's free balance with exactly the offered amount, and hands the
/// token to the bidder.
pub proof fn lemma_accept_offer_settles(
    g0: Gallery,
    g1: Gallery,
    seller: u64,
    buyer: u64,
    c: u32,
    t: u32,
)
    requires
        g0.accept_offer_outcome(Origin::Signed(seller), c, t, buyer) is Ok,
        g0.accept_offer_effect(g1, Origin::Signed(seller), c, t, buyer),
    ensures
        g0.offer_of(c, t, buyer) is Some,
        g1.offer_of(c, t, buyer) is None,
        g1.free_of(seller) == g0.free_of(seller) + g0.offer_of(c, t, buyer)->0,
        buyer != seller ==> g1.free_of(buyer) == g0.free_of(buyer),
        g0.owner_of(c, t) == Some(seller),
        g1.owner_of(c, t) == Some(buyer),
{
}

/// Setting the display flag a second time to the same value succeeds and
/// changes nothing of the token's extended info.
pub proof fn lemma_toggle_display_idempotent(
    g0: Gallery,
    g1: Gallery,
    g2: Gallery,
    origin: Origin,
    c: u32,
    t: u32,
    display: bool,
)
    requires
        g0.owner_action_outcome(origin, c, t) is Ok,
        g0.toggle_display_effect(g1, c, t, display),
        g1.toggle_display_effect(g2, c, t, display),
    ensures
        g1.owner_action_outcome(origin, c, t) is Ok,
        g2.info_of(c, t) == g1.info_of(c, t),
        g2.info_of(c, t).display_flag == display,
        g2.owner_of(c, t) == g0.owner_of(c, t),
{
}

/// Reserving a token for a swap and cancelling that swap returns the token
/// to unfrozen, with the same owner and the same extended info as before.
pub proof fn lemma_reserve_then_cancel_round_trip(
    action: GallerySwapAction,
    g0: Gallery,
    g1: Gallery,
    g2: Gallery,
    owner: u64,
)
    requires
        action.reserve_outcome(g0, owner) is Ok,
        action.reserve_effect(g0, g1),
        action.cancel_effect(g1, g2, owner),
    ensures
        !g2.info_of(action.collection_id, action.token_id).frozen,
        g2.info_of(action.collection_id, action.token_id) == g0.info_of(
            action.collection_id,
            action.token_id,
        ),
        g2.owners() == g0.owners(),
        g2.owner_of(action.collection_id, action.token_id) == Some(owner),
{
}

} // verus!
