//! A fixed-price marketplace for listable assets: the record of one asset,
//! the transitions that create, list and sell it, and the payment that a
//! sale asks for.
//!
//! The marketplace keeps no store and moves no funds itself. Its host loads
//! the record an operation works on, carries out the payment a purchase asks
//! for, and writes back what the operation left.

pub mod error;
pub mod identity;
pub mod laws;
pub mod listing;
pub mod marketplace;
pub mod payment;

pub use error::ErrorCode;
pub use identity::Identity;
pub use listing::{ListingState, NftListingAccount};
pub use marketplace::{
    create_nft_listing, list_nft, purchase_nft, purchase_payment, retrieve_nft_details,
    CreateNftListing, ListForSale, PurchaseNft, RetrieveNftDetails,
};
pub use payment::{AccountRole, PaymentInstruction, PaymentOutcome};
