//! What holds of every record, however it came about.

use vstd::prelude::*;
use crate::error::ErrorCode;
use crate::listing::ListingView;
use crate::marketplace::{list_outcome, purchase_outcome, purchase_refusal};
use crate::payment::PaymentOutcome;

verus! {

/// One call that may change a record.
pub enum Operation {
    /// `caller` offers the record for sale at `price`.
    List { caller: Seq<u8>, price: u64 },
    /// `purchaser` buys the record at `expected_price`, naming `listing_owner`
    /// as the account to pay, and the payment goes as `payment` says.
    Purchase {
        listing_owner: Seq<u8>,
        purchaser: Seq<u8>,
        expected_price: u64,
        payment: PaymentOutcome,
    },
}

/// What `op` comes to on `record`.
pub open spec fn outcome(record: ListingView, op: Operation) -> Result<ListingView, ErrorCode> {
    match op {
        Operation::List { caller, price } => list_outcome(record, caller, price),
        Operation::Purchase { listing_owner, purchaser, expected_price, payment } => purchase_outcome(
            record,
            listing_owner,
            purchaser,
            expected_price,
            payment,
        ),
    }
}

/// The record after `op`: changed where `op` is accepted, as it was where it
/// is rejected.
pub open spec fn step(record: ListingView, op: Operation) -> ListingView {
    match outcome(record, op) {
        Ok(next) => next,
        Err(_) => record,
    }
}

/// The record after each of `ops` in turn.
pub open spec fn run(record: ListingView, ops: Seq<Operation>) -> ListingView
    decreases ops.len(),
{
    if ops.len() == 0 {
        record
    } else {
        step(run(record, ops.drop_last()), ops.last())
    }
}

/// No operation, accepted or rejected, makes a well-formed record ill formed.
pub proof fn lemma_step_keeps_well_formed(record: ListingView, op: Operation)
    requires
        record.well_formed(),
    ensures
        step(record, op).well_formed(),
{
}

/// Every record that can be reached from a creation is well formed: it is
/// offered for sale exactly when its price is above zero.
pub proof fn lemma_reachable_is_well_formed(
    creator: Seq<u8>,
    title: Seq<char>,
    uri: Seq<char>,
    ops: Seq<Operation>,
)
    ensures
        run(ListingView::created(creator, title, uri), ops).well_formed(),
    decreases ops.len(),
{
    if ops.len() > 0 {
        lemma_reachable_is_well_formed(creator, title, uri, ops.drop_last());
        lemma_step_keeps_well_formed(
            run(ListingView::created(creator, title, uri), ops.drop_last()),
            ops.last(),
        );
    }
}

/// Title and uri are those given at creation, whatever happens to the record.
pub proof fn lemma_title_and_uri_never_change(record: ListingView, ops: Seq<Operation>)
    ensures
        run(record, ops).title == record.title,
        run(record, ops).uri == record.uri,
    decreases ops.len(),
{
    if ops.len() > 0 {
        lemma_title_and_uri_never_change(record, ops.drop_last());
    }
}

/// The owner changes only through an accepted purchase, and then to the buyer.
pub proof fn lemma_owner_changes_only_by_purchase(record: ListingView, op: Operation)
    ensures
        step(record, op).owner != record.owner ==> {
            &&& op matches Operation::Purchase { purchaser, .. }
            &&& outcome(record, op) is Ok
            &&& step(record, op).owner == purchaser
        },
{
}

/// A rejected operation leaves the record as it was.
pub proof fn lemma_rejection_changes_nothing(record: ListingView, op: Operation)
    requires
        outcome(record, op) is Err,
    ensures
        step(record, op) == record,
{
}

/// A purchase whose payment fails is rejected with `PaymentFailed`, unless an
/// earlier check already rejected it; either way owner, listing and price stay.
pub proof fn lemma_failed_payment_fails_purchase(
    record: ListingView,
    listing_owner: Seq<u8>,
    purchaser: Seq<u8>,
    expected_price: u64,
)
    ensures
        purchase_outcome(record, listing_owner, purchaser, expected_price, PaymentOutcome::Failed)
            == Err::<ListingView, ErrorCode>(
            match purchase_refusal(record, listing_owner, expected_price) {
                Some(reason) => reason,
                None => ErrorCode::PaymentFailed,
            },
        ),
        step(
            record,
            Operation::Purchase {
                listing_owner,
                purchaser,
                expected_price,
                payment: PaymentOutcome::Failed,
            },
        ) == record,
{
}

/// Listing by anyone but the owner is rejected as `Unauthorized`, whatever
/// the price and whatever the state of the record.
pub proof fn lemma_only_owner_lists(record: ListingView, caller: Seq<u8>, price: u64)
    requires
        caller != record.owner,
    ensures
        list_outcome(record, caller, price) == Err::<ListingView, ErrorCode>(
            ErrorCode::Unauthorized,
        ),
{
}

/// A purchase of a listed record at any price but its own is rejected as
/// `PriceMismatch`, whoever is named to be paid and however a payment would
/// have gone.
pub proof fn lemma_price_is_guarded(
    record: ListingView,
    listing_owner: Seq<u8>,
    purchaser: Seq<u8>,
    expected_price: u64,
    payment: PaymentOutcome,
)
    requires
        record.is_listed,
        expected_price != record.sale_price,
    ensures
        purchase_outcome(record, listing_owner, purchaser, expected_price, payment) == Err::<
            ListingView,
            ErrorCode,
        >(ErrorCode::PriceMismatch),
{
}

/// A payment is asked for only when the record is listed at the expected
/// price and the account to be paid is the owner; on a well-formed record the
/// amount is then above zero.
pub proof fn lemma_payment_is_never_zero(
    record: ListingView,
    listing_owner: Seq<u8>,
    expected_price: u64,
)
    requires
        record.well_formed(),
        purchase_refusal(record, listing_owner, expected_price) is None,
    ensures
        record.sale_price > 0,
        record.sale_price == expected_price,
        record.owner == listing_owner,
{
}

} // verus!
