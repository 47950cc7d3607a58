use art_gallery::{ClassData, Error, Event, Gallery, Origin, TokenData};

fn gallery_with_token(owner: u64) -> Gallery {
    let mut g = Gallery::new();
    assert_eq!(g.create_collection(Origin::Signed(owner), Vec::new(), ClassData::default()), Ok(()));
    assert_eq!(g.mint(Origin::Signed(owner), 0, Vec::new(), TokenData::default()), Ok(()));
    g
}

#[test]
fn it_works() {
    let mut g = Gallery::new();
    assert_eq!(g.create_collection(Origin::Signed(1), Vec::new(), ClassData::default()), Ok(()));
}

#[test]
fn set_curator() {
    let mut g = Gallery::new();
    let curator: u64 = 7;
    assert_eq!(g.set_curator(Origin::Root, curator), Ok(()));
    assert_eq!(g.curator(), Some(curator));
}

#[test]
fn create_collection() {
    let mut g = Gallery::new();
    let caller: u64 = 3;
    assert_eq!(g.create_collection(Origin::Signed(caller), Vec::new(), ClassData::default()), Ok(()));
    assert_eq!(g.last_event(), Some(Event::CollectionCreated(0)));
}

#[test]
fn mint() {
    let mut g = Gallery::new();
    let caller: u64 = 3;
    let _ = g.create_collection(Origin::Signed(caller), Vec::new(), ClassData::default());
    assert_eq!(g.mint(Origin::Signed(caller), 0, Vec::new(), TokenData::default()), Ok(()));
    assert_eq!(g.last_event(), Some(Event::NFTCreated(0, 0)));
}

#[test]
fn appreciate() {
    let mut g = Gallery::new();
    let caller: u64 = 3;
    let _ = g.create_collection(Origin::Signed(caller), Vec::new(), ClassData::default());
    let _ = g.mint(Origin::Signed(caller), 0, Vec::new(), TokenData::default());
    assert_eq!(g.appreciate(Origin::Signed(caller), 0, 0, 0), Ok(()));
    assert_eq!(g.last_event(), Some(Event::AppreciationReceived(0, 0, 0)));
}

#[test]
fn burn() {
    let mut g = Gallery::new();
    let caller: u64 = 3;
    let _ = g.create_collection(Origin::Signed(caller), Vec::new(), ClassData::default());
    let _ = g.mint(Origin::Signed(caller), 0, Vec::new(), TokenData::default());
    assert_eq!(g.burn(Origin::Signed(caller), 0, 0), Ok(()));
    assert_eq!(g.last_event(), Some(Event::NFTBurned(0, 0)));
    assert_eq!(g.token_owner(0, 0), None);
}

#[test]
fn ids_are_allocated_in_sequence() {
    let mut g = Gallery::new();
    assert_eq!(g.create_collection(Origin::Signed(1), vec![1, 2], ClassData::default()), Ok(()));
    assert_eq!(g.create_collection(Origin::Signed(2), Vec::new(), ClassData::default()), Ok(()));
    assert_eq!(g.last_event(), Some(Event::CollectionCreated(1)));
    assert_eq!(g.collection_owner_of(1), Some(2));
    assert_eq!(g.mint(Origin::Signed(2), 1, Vec::new(), TokenData::default()), Ok(()));
    assert_eq!(g.mint(Origin::Signed(2), 1, Vec::new(), TokenData::default()), Ok(()));
    assert_eq!(g.last_event(), Some(Event::NFTCreated(1, 1)));
    assert_eq!(g.burn(Origin::Signed(2), 1, 1), Ok(()));
    assert_eq!(g.mint(Origin::Signed(2), 1, Vec::new(), TokenData::default()), Ok(()));
    assert_eq!(g.last_event(), Some(Event::NFTCreated(1, 2)));
    assert_eq!(g.token_owner(1, 1), None);
    assert_eq!(g.token_owner(1, 2), Some(2));
}

#[test]
fn unsigned_origin_is_rejected() {
    let mut g = gallery_with_token(1);
    assert_eq!(g.create_collection(Origin::Root, Vec::new(), ClassData::default()), Err(Error::BadOrigin));
    assert_eq!(g.transfer(Origin::Root, 0, 0, 2), Err(Error::BadOrigin));
    assert_eq!(g.set_curator(Origin::Signed(1), 1), Err(Error::BadOrigin));
    assert_eq!(g.curator(), None);
}

#[test]
fn mint_errors() {
    let mut g = gallery_with_token(1);
    assert_eq!(g.mint(Origin::Signed(1), 5, Vec::new(), TokenData::default()), Err(Error::CollectionNotFound));
    assert_eq!(g.mint(Origin::Signed(2), 0, Vec::new(), TokenData::default()), Err(Error::MustBeCollectionOwner));
    assert_eq!(g.event_log().len(), 2);
}

#[test]
fn burn_errors() {
    let mut g = gallery_with_token(1);
    assert_eq!(g.burn(Origin::Signed(1), 9, 0), Err(Error::CollectionNotFound));
    assert_eq!(g.burn(Origin::Signed(2), 0, 0), Err(Error::MustBeCollectionOwnerOrCurator));
    assert_eq!(g.burn(Origin::Signed(1), 0, 4), Err(Error::TokenNotFound));
    assert_eq!(g.transfer(Origin::Signed(1), 0, 0, 2), Ok(()));
    assert_eq!(g.burn(Origin::Signed(1), 0, 0), Err(Error::NoPermission));
    assert_eq!(g.set_curator(Origin::Root, 2), Ok(()));
    assert_eq!(g.burn(Origin::Signed(2), 0, 0), Ok(()));
}

#[test]
fn transfer_moves_ownership() {
    let mut g = gallery_with_token(1);
    assert_eq!(g.transfer(Origin::Signed(2), 0, 0, 3), Err(Error::MustBeTokenOwner));
    assert_eq!(g.transfer(Origin::Signed(1), 0, 7, 3), Err(Error::TokenNotFound));
    assert_eq!(g.transfer(Origin::Signed(1), 0, 0, 3), Ok(()));
    assert_eq!(g.token_owner(0, 0), Some(3));
    assert_eq!(g.last_event(), Some(Event::Transfer(0, 0, 3)));
}

#[test]
fn frozen_token_blocks_transfer_burn_and_sale() {
    let mut g = gallery_with_token(1);
    assert_eq!(g.deposit(2, 500), Ok(()));
    assert_eq!(g.create_offer(Origin::Signed(2), 0, 0, 100), Ok(()));
    let action = art_gallery::GallerySwapAction::new(0, 0);
    assert_eq!(action.reserve(&mut g, 1), Ok(()));
    assert!(g.token_extended_info(0, 0).frozen);
    let events = g.event_log().len();
    assert_eq!(g.transfer(Origin::Signed(1), 0, 0, 3), Err(Error::TokenFrozen));
    assert_eq!(g.burn(Origin::Signed(1), 0, 0), Err(Error::TokenFrozen));
    assert_eq!(g.accept_offer(Origin::Signed(1), 0, 0, 2), Err(Error::TokenFrozen));
    assert_eq!(g.token_owner(0, 0), Some(1));
    assert_eq!(g.offer(0, 0, 2), Some(100));
    assert_eq!(g.event_log().len(), events);
    assert_eq!(g.toggle_display(Origin::Signed(1), 0, 0, true), Ok(()));
    assert_eq!(g.appreciate(Origin::Signed(2), 0, 0, 10), Ok(()));
}

#[test]
fn offer_then_cancel_restores_balance() {
    let mut g = gallery_with_token(1);
    assert_eq!(g.deposit(2, 500), Ok(()));
    assert_eq!(g.create_offer(Origin::Signed(2), 0, 0, 120), Ok(()));
    assert_eq!(g.free_balance(2), 380);
    assert_eq!(g.offer(0, 0, 2), Some(120));
    assert_eq!(g.cancel_offer(Origin::Signed(2), 0, 0), Ok(()));
    assert_eq!(g.free_balance(2), 500);
    assert_eq!(g.offer(0, 0, 2), None);
    assert_eq!(g.last_event(), Some(Event::CancelOffer(0, 0, 2)));
    assert_eq!(g.cancel_offer(Origin::Signed(2), 0, 0), Err(Error::OfferNotFound));
}

#[test]
fn reoffer_replaces_reservation() {
    let mut g = gallery_with_token(1);
    assert_eq!(g.deposit(2, 500), Ok(()));
    assert_eq!(g.create_offer(Origin::Signed(2), 0, 0, 300), Ok(()));
    assert_eq!(g.create_offer(Origin::Signed(2), 0, 0, 450), Ok(()));
    assert_eq!(g.free_balance(2), 50);
    assert_eq!(g.offer(0, 0, 2), Some(450));
    assert_eq!(g.create_offer(Origin::Signed(2), 0, 0, 100), Ok(()));
    assert_eq!(g.free_balance(2), 400);
    assert_eq!(g.create_offer(Origin::Signed(2), 0, 0, 501), Err(Error::InsufficientBalance));
    assert_eq!(g.free_balance(2), 400);
    assert_eq!(g.offer(0, 0, 2), Some(100));
}

#[test]
fn offers_from_bidders_are_independent() {
    let mut g = gallery_with_token(1);
    assert_eq!(g.deposit(2, 100), Ok(()));
    assert_eq!(g.deposit(3, 100), Ok(()));
    assert_eq!(g.create_offer(Origin::Signed(2), 0, 0, 60), Ok(()));
    assert_eq!(g.create_offer(Origin::Signed(3), 0, 0, 70), Ok(()));
    assert_eq!(g.accept_offer(Origin::Signed(1), 0, 0, 3), Ok(()));
    assert_eq!(g.offer(0, 0, 3), None);
    assert_eq!(g.offer(0, 0, 2), Some(60));
    assert_eq!(g.free_balance(1), 70);
    assert_eq!(g.cancel_offer(Origin::Signed(2), 0, 0), Ok(()));
    assert_eq!(g.free_balance(2), 100);
}

#[test]
fn offer_on_burnt_token_can_be_withdrawn() {
    let mut g = gallery_with_token(1);
    assert_eq!(g.deposit(2, 100), Ok(()));
    assert_eq!(g.create_offer(Origin::Signed(2), 0, 0, 40), Ok(()));
    assert_eq!(g.burn(Origin::Signed(1), 0, 0), Ok(()));
    assert_eq!(g.accept_offer(Origin::Signed(1), 0, 0, 2), Err(Error::TokenNotFound));
    assert_eq!(g.cancel_offer(Origin::Signed(2), 0, 0), Ok(()));
    assert_eq!(g.free_balance(2), 100);
}

#[test]
fn accept_offer_settles_sale() {
    let (a, b): (u64, u64) = (1, 2);
    let mut g = gallery_with_token(a);
    assert_eq!(g.deposit(a, 10), Ok(()));
    assert_eq!(g.deposit(b, 250), Ok(()));
    // The owner may bid on their own token; nothing forbids it.
    assert_eq!(g.create_offer(Origin::Signed(a), 0, 0, 5), Ok(()));
    assert_eq!(g.free_balance(a), 5);
    assert_eq!(g.cancel_offer(Origin::Signed(a), 0, 0), Ok(()));
    assert_eq!(g.create_offer(Origin::Signed(b), 0, 0, 100), Ok(()));
    assert_eq!(g.last_event(), Some(Event::OfferCreated(0, 0, 100, b)));
    assert_eq!(g.accept_offer(Origin::Signed(b), 0, 0, b), Err(Error::MustBeTokenOwner));
    assert_eq!(g.accept_offer(Origin::Signed(a), 0, 0, 9), Err(Error::OfferNotFound));
    assert_eq!(g.accept_offer(Origin::Signed(a), 0, 0, b), Ok(()));
    assert_eq!(g.token_owner(0, 0), Some(b));
    assert_eq!(g.free_balance(a), 110);
    assert_eq!(g.free_balance(b), 150);
    assert_eq!(g.offer(0, 0, b), None);
    assert_eq!(g.last_event(), Some(Event::AcceptOffer(0, 0, a, b)));
}

#[test]
fn appreciation_pays_owner() {
    let mut g = gallery_with_token(1);
    assert_eq!(g.deposit(2, 30), Ok(()));
    assert_eq!(g.appreciate(Origin::Signed(2), 0, 0, 31), Err(Error::BalanceNotEnough));
    assert_eq!(g.appreciate(Origin::Signed(2), 0, 3, 1), Err(Error::TokenNotFound));
    assert_eq!(g.appreciate(Origin::Signed(2), 0, 0, 30), Ok(()));
    assert_eq!(g.free_balance(2), 0);
    assert_eq!(g.free_balance(1), 30);
    assert_eq!(g.last_event(), Some(Event::AppreciationReceived(0, 0, 30)));
}

#[test]
fn balance_overflow_is_refused() {
    let mut g = gallery_with_token(1);
    assert_eq!(g.deposit(1, u128::MAX), Ok(()));
    assert_eq!(g.deposit(1, 1), Err(Error::Overflow));
    assert_eq!(g.deposit(2, 5), Ok(()));
    assert_eq!(g.appreciate(Origin::Signed(2), 0, 0, 5), Err(Error::Overflow));
    assert_eq!(g.free_balance(2), 5);
}

#[test]
fn toggle_display_twice_is_idempotent() {
    let mut g = gallery_with_token(1);
    assert_eq!(g.toggle_display(Origin::Signed(2), 0, 0, true), Err(Error::MustBeTokenOwner));
    assert_eq!(g.toggle_display(Origin::Signed(1), 0, 0, true), Ok(()));
    let first = g.token_extended_info(0, 0);
    assert_eq!(g.toggle_display(Origin::Signed(1), 0, 0, true), Ok(()));
    assert_eq!(g.token_extended_info(0, 0), first);
    assert!(first.display_flag);
    assert_eq!(g.last_event(), Some(Event::ToggleDisplay(true)));
}

#[test]
fn missing_info_reads_as_default() {
    let g = gallery_with_token(1);
    let info = g.token_extended_info(0, 0);
    assert!(!info.display_flag);
    assert!(!info.frozen);
    assert_eq!(info.report, art_gallery::ReportReason::NotReported);
}
