//! State-transition logic of a marketplace for non-fungible tokens grouped
//! into collections: minting, burning, transfer, escrowed offers, tipping,
//! moderation, and custody locking for an atomic-swap coordinator.
//!
//! - `types`: identities, reasons, errors, events and token keys.
//! - `gallery`: the state, the asset registry and ledger it keeps, and every
//!   dispatchable operation with its exact outcome.
//! - `swap`: the custody capability handed to a swap coordinator.
//! - `laws`: properties relating several operations, proved.
mod gallery;
mod laws;
mod swap;
mod types;

pub use gallery::{ensure_signed, CollectionInfo, Gallery};
pub use laws::{
    lemma_accept_offer_settles, lemma_frozen_token_is_locked,
    lemma_offer_then_cancel_restores_balance, lemma_reserve_then_cancel_round_trip,
    lemma_toggle_display_idempotent,
};
pub use swap::GallerySwapAction;
pub use types::{ClassData, Error, Event, ExtendedInfo, Origin, ReportReason, TokenData};
