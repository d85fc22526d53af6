//! Why the marketplace turns an operation down.

use vstd::prelude::*;

verus! {

/// The reason an operation was rejected. A rejected operation changes nothing.
#[derive(Clone, Copy, Debug, PartialEq, Eq, Structural)]
pub enum ErrorCode {
    /// The caller is not the owner of the record.
    Unauthorized,
    /// A listing must ask for a price above zero.
    PriceMustBeAboveZero,
    /// The record is already offered for sale.
    AlreadyListed,
    /// The record is not offered for sale.
    NotForSale,
    /// The price the buyer agreed to is not the price of the listing.
    PriceMismatch,
    /// The payment could not be made.
    PaymentFailed,
    /// The store had no room for a new record.
    AllocationFailed,
}

impl ErrorCode {
    /// The text of the message, as mathematical value.
    pub open spec fn message_text(self) -> Seq<char> {
        match self {
            ErrorCode::Unauthorized => "The caller does not own this NFT"@,
            ErrorCode::PriceMustBeAboveZero => "Price must be above zero"@,
            ErrorCode::AlreadyListed => "NFT is already listed for sale"@,
            ErrorCode::NotForSale => "This NFT is not listed for sale"@,
            ErrorCode::PriceMismatch => "The price does not match the listing price"@,
            ErrorCode::PaymentFailed => "The payment could not be made"@,
            ErrorCode::AllocationFailed => "No room is left for a new listing"@,
        }
    }

    /// A sentence for the user that says what went wrong.
    pub fn message(&self) -> (text: &'static str)
        ensures
            text@ == self.message_text(),
    {
        match self {
            ErrorCode::Unauthorized => "The caller does not own this NFT",
            ErrorCode::PriceMustBeAboveZero => "Price must be above zero",
            ErrorCode::AlreadyListed => "NFT is already listed for sale",
            ErrorCode::NotForSale => "This NFT is not listed for sale",
            ErrorCode::PriceMismatch => "The price does not match the listing price",
            ErrorCode::PaymentFailed => "The payment could not be made",
            ErrorCode::AllocationFailed => "No room is left for a new listing",
        }
    }
}

} // verus!
