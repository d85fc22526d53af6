//! The four operations of the marketplace. Each is one step: it checks, and
//! then either changes the record as a whole or leaves everything as it was.

use vstd::prelude::*;
use crate::error::ErrorCode;
use crate::identity::Identity;
use crate::listing::{ListingView, NftListingAccount};
use crate::payment::{build_system_transfer, system_transfer, PaymentInstruction, PaymentOutcome};

verus! {

/// What a creation works on.
#[derive(Clone, Copy, Debug, PartialEq, Eq)]
pub struct CreateNftListing {
    /// The identifier that the store set aside for the new record, or `None`
    /// where it had no room for one.
    pub listing_account: Option<Identity>,
    /// The caller, who will own the record.
    pub creator: Identity,
}

/// What a listing works on.
#[derive(Clone, Debug, PartialEq, Eq)]
pub struct ListForSale {
    /// The record to offer for sale.
    pub listing_account: NftListingAccount,
    /// The caller, who claims to own the record.
    pub owner: Identity,
}

/// What a purchase works on.
#[derive(Clone, Debug, PartialEq, Eq)]
pub struct PurchaseNft {
    /// The record to buy.
    pub listing_account: NftListingAccount,
    /// The account that the caller names as the one to be paid.
    pub listing_owner: Identity,
    /// The caller, who pays and becomes the owner.
    pub purchaser: Identity,
}

/// What an inspection works on.
#[derive(Clone, Debug, PartialEq, Eq)]
pub struct RetrieveNftDetails {
    /// The record to look at.
    pub listing_account: NftListingAccount,
}

/// What listing `record` at `price` on behalf of `caller` comes to: the listed
/// record, or the first reason against it.
pub open spec fn list_outcome(record: ListingView, caller: Seq<u8>, price: u64) -> Result<
    ListingView,
    ErrorCode,
> {
    if !record.is_owned_by(caller) {
        Err(ErrorCode::Unauthorized)
    } else if price == 0 {
        Err(ErrorCode::PriceMustBeAboveZero)
    } else if record.is_listed {
        Err(ErrorCode::AlreadyListed)
    } else {
        Ok(record.listed_at(price))
    }
}

/// The first reason, if there is one, for which a purchase of `record` at
/// `expected_price` is turned down before any payment is tried. The account
/// to be paid must be the record's owner; naming another counts as a payment
/// that cannot be made.
pub open spec fn purchase_refusal(
    record: ListingView,
    listing_owner: Seq<u8>,
    expected_price: u64,
) -> Option<ErrorCode> {
    if !record.is_listed {
        Some(ErrorCode::NotForSale)
    } else if record.sale_price != expected_price {
        Some(ErrorCode::PriceMismatch)
    } else if !record.is_owned_by(listing_owner) {
        Some(ErrorCode::PaymentFailed)
    } else {
        None
    }
}

/// What a purchase of `record` by `purchaser` comes to once the payment has
/// gone as `payment` says: the sold record, or the first reason against it.
pub open spec fn purchase_outcome(
    record: ListingView,
    listing_owner: Seq<u8>,
    purchaser: Seq<u8>,
    expected_price: u64,
    payment: PaymentOutcome,
) -> Result<ListingView, ErrorCode> {
    match purchase_refusal(record, listing_owner, expected_price) {
        Some(reason) => Err(reason),
        None => match payment {
            PaymentOutcome::Completed => Ok(record.sold_to(purchaser)),
            PaymentOutcome::Failed => Err(ErrorCode::PaymentFailed),
        },
    }
}

/// Creates the record of a new asset, owned by the caller and not offered for
/// sale, under the identifier that the store set aside. Fails with
/// `AllocationFailed` exactly when the store set none aside.
pub fn create_nft_listing(ctx: &CreateNftListing, nft_title: String, nft_uri: String) -> (result:
    Result<(Identity, NftListingAccount), ErrorCode>)
    ensures
        match ctx.listing_account {
            Some(id) => result matches Ok((record_id, record)) && record_id == id && record@
                == ListingView::created(ctx.creator@, nft_title@, nft_uri@) && record.owner
                == ctx.creator && record.title == nft_title && record.uri == nft_uri,
            None => result == Err::<(Identity, NftListingAccount), ErrorCode>(
                ErrorCode::AllocationFailed,
            ),
        },
        result matches Ok((_, record)) ==> record@.well_formed(),
{
    match ctx.listing_account {
        Some(id) => Ok((id, NftListingAccount::new(ctx.creator, nft_title, nft_uri))),
        None => Err(ErrorCode::AllocationFailed),
    }
}

/// Offers the record for sale at `listing_price`. The caller must own the
/// record, the price must be above zero, and the record must not be listed
/// already, checked in that order; failing one of these, nothing changes.
pub fn list_nft(ctx: &mut ListForSale, listing_price: u64) -> (result: Result<(), ErrorCode>)
    ensures
        match list_outcome(old(ctx).listing_account@, old(ctx).owner@, listing_price) {
            Ok(listed) => {
                &&& result is Ok
                &&& final(ctx).listing_account@ == listed
                &&& final(ctx).listing_account == (NftListingAccount {
                    is_listed: true,
                    sale_price: listing_price,
                    ..old(ctx).listing_account
                })
                &&& final(ctx).owner == old(ctx).owner
            },
            Err(reason) => result == Err::<(), ErrorCode>(reason) && *final(ctx) == *old(ctx),
        },
        old(ctx).listing_account@.well_formed() ==> final(ctx).listing_account@.well_formed(),
{
    if !ctx.listing_account.is_owned_by(&ctx.owner) {
        return Err(ErrorCode::Unauthorized);
    }
    if listing_price == 0 {
        return Err(ErrorCode::PriceMustBeAboveZero);
    }
    if ctx.listing_account.is_listed {
        return Err(ErrorCode::AlreadyListed);
    }
    ctx.listing_account.is_listed = true;
    ctx.listing_account.sale_price = listing_price;
    Ok(())
}

/// The checks that come before any payment, in their order: listed, at the
/// expected price, and with the owner named as the account to be paid.
fn check_purchase(ctx: &PurchaseNft, expected_sale_price: u64) -> (refusal: Option<ErrorCode>)
    ensures
        refusal == purchase_refusal(
            ctx.listing_account@,
            ctx.listing_owner@,
            expected_sale_price,
        ),
{
    if !ctx.listing_account.is_listed {
        Some(ErrorCode::NotForSale)
    } else if ctx.listing_account.sale_price != expected_sale_price {
        Some(ErrorCode::PriceMismatch)
    } else if !ctx.listing_account.is_owned_by(&ctx.listing_owner) {
        Some(ErrorCode::PaymentFailed)
    } else {
        None
    }
}

/// The payment that a purchase asks for: a transfer of the record's price
/// from the buyer to the record's owner. The record must be listed, at the
/// price the buyer expects, and the account named to be paid must be the
/// owner, checked in that order. Nothing changes; the ledger is to carry the
/// instruction out, and `purchase_nft` takes its report.
pub fn purchase_payment(ctx: &PurchaseNft, expected_sale_price: u64) -> (result: Result<
    PaymentInstruction,
    ErrorCode,
>)
    ensures
        match purchase_refusal(ctx.listing_account@, ctx.listing_owner@, expected_sale_price) {
            Some(reason) => result == Err::<PaymentInstruction, ErrorCode>(reason),
            None => result matches Ok(instruction) && instruction@ == system_transfer(
                ctx.purchaser@,
                ctx.listing_account.owner@,
                ctx.listing_account.sale_price,
            ),
        },
{
    if let Some(reason) = check_purchase(ctx, expected_sale_price) {
        return Err(reason);
    }
    Ok(
        build_system_transfer(
            &ctx.purchaser,
            &ctx.listing_account.owner,
            ctx.listing_account.sale_price,
        ),
    )
}

/// Sells the record to the caller, given how the payment went. The checks of
/// `purchase_payment` are made again, in the same order; then a payment that
/// failed fails the purchase. Only when all pass does the record change, and
/// then as a whole: the buyer owns it and it is off the market. Otherwise
/// nothing changes.
pub fn purchase_nft(ctx: &mut PurchaseNft, expected_sale_price: u64, payment: PaymentOutcome) -> (result:
    Result<(), ErrorCode>)
    ensures
        match purchase_outcome(
            old(ctx).listing_account@,
            old(ctx).listing_owner@,
            old(ctx).purchaser@,
            expected_sale_price,
            payment,
        ) {
            Ok(sold) => {
                &&& result is Ok
                &&& final(ctx).listing_account@ == sold
                &&& final(ctx).listing_account == (NftListingAccount {
                    owner: old(ctx).purchaser,
                    is_listed: false,
                    sale_price: 0,
                    ..old(ctx).listing_account
                })
                &&& final(ctx).listing_owner == old(ctx).listing_owner
                &&& final(ctx).purchaser == old(ctx).purchaser
            },
            Err(reason) => result == Err::<(), ErrorCode>(reason) && *final(ctx) == *old(ctx),
        },
        old(ctx).listing_account@.well_formed() ==> final(ctx).listing_account@.well_formed(),
{
    if let Some(reason) = check_purchase(ctx, expected_sale_price) {
        return Err(reason);
    }
    match payment {
        PaymentOutcome::Failed => Err(ErrorCode::PaymentFailed),
        PaymentOutcome::Completed => {
            ctx.listing_account.owner = ctx.purchaser;
            ctx.listing_account.is_listed = false;
            ctx.listing_account.sale_price = 0;
            Ok(())
        },
    }
}

/// The record as it stands: every field, unchanged.
pub fn retrieve_nft_details(ctx: &RetrieveNftDetails) -> (result: Result<
    NftListingAccount,
    ErrorCode,
>)
    ensures
        result == Ok::<NftListingAccount, ErrorCode>(ctx.listing_account),
{
    Ok(ctx.listing_account.snapshot())
}

} // verus!
