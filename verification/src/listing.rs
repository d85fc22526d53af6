//! The record of one asset and the states it moves through.

use vstd::prelude::*;
use crate::identity::Identity;

verus! {

/// What a record holds, as mathematical values.
pub struct ListingView {
    pub owner: Seq<u8>,
    pub title: Seq<char>,
    pub uri: Seq<char>,
    pub is_listed: bool,
    pub sale_price: u64,
}

impl ListingView {
    /// A record is offered for sale exactly when it carries a price.
    pub open spec fn well_formed(self) -> bool {
        self.is_listed <==> self.sale_price > 0
    }

    /// The record as it stands right after it is created.
    pub open spec fn created(creator: Seq<u8>, title: Seq<char>, uri: Seq<char>) -> ListingView {
        ListingView { owner: creator, title, uri, is_listed: false, sale_price: 0 }
    }

    /// This record, offered for sale at `price`.
    pub open spec fn listed_at(self, price: u64) -> ListingView {
        ListingView { is_listed: true, sale_price: price, ..self }
    }

    /// This record, sold to `buyer` and taken off the market.
    pub open spec fn sold_to(self, buyer: Seq<u8>) -> ListingView {
        ListingView { owner: buyer, is_listed: false, sale_price: 0, ..self }
    }

    /// Whether `caller` holds authority over this record.
    pub open spec fn is_owned_by(self, caller: Seq<u8>) -> bool {
        self.owner == caller
    }

    /// The state that the fields put this record in.
    pub open spec fn state(self) -> ListingState {
        if self.is_listed {
            ListingState::Listed
        } else {
            ListingState::Unlisted
        }
    }
}

/// The two states of a record.
#[derive(Clone, Copy, Debug, PartialEq, Eq, Structural)]
pub enum ListingState {
    /// Not offered for sale.
    Unlisted,
    /// Offered for sale at the record's price.
    Listed,
}

/// The record of one asset: who owns it, what it is, and whether and for how
/// much it is offered for sale.
#[derive(Clone, Debug, PartialEq, Eq)]
pub struct NftListingAccount {
    pub owner: Identity,
    pub title: String,
    pub uri: String,
    pub is_listed: bool,
    pub sale_price: u64,
}

impl View for NftListingAccount {
    type V = ListingView;

    open spec fn view(&self) -> ListingView {
        ListingView {
            owner: self.owner@,
            title: self.title@,
            uri: self.uri@,
            is_listed: self.is_listed,
            sale_price: self.sale_price,
        }
    }
}

impl NftListingAccount {
    /// A new record of `creator`'s, not yet offered for sale.
    pub fn new(creator: Identity, title: String, uri: String) -> (record: NftListingAccount)
        ensures
            record@ == ListingView::created(creator@, title@, uri@),
            record@.well_formed(),
            record.owner == creator,
            record.title == title,
            record.uri == uri,
    {
        NftListingAccount { owner: creator, title, uri, is_listed: false, sale_price: 0 }
    }

    /// Whether the record is offered for sale exactly when it carries a price.
    pub fn is_well_formed(&self) -> (ok: bool)
        ensures
            ok == self@.well_formed(),
    {
        self.is_listed == (self.sale_price > 0)
    }

    /// The authorization policy: only the owner of a record may act on it.
    pub fn is_owned_by(&self, caller: &Identity) -> (allowed: bool)
        ensures
            allowed == self@.is_owned_by(caller@),
    {
        self.owner.same_as(caller)
    }

    /// The state that the record is in.
    pub fn state(&self) -> (state: ListingState)
        ensures
            state == self@.state(),
    {
        if self.is_listed {
            ListingState::Listed
        } else {
            ListingState::Unlisted
        }
    }

    /// A copy of the record as it stands.
    pub fn snapshot(&self) -> (copy: NftListingAccount)
        ensures
            copy == *self,
    {
        NftListingAccount {
            owner: self.owner,
            title: self.title.clone(),
            uri: self.uri.clone(),
            is_listed: self.is_listed,
            sale_price: self.sale_price,
        }
    }
}

} // verus!
