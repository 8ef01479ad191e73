//! A wallet record: an owner, a balance and a currency tag.

use vstd::prelude::*;

verus! {

/// Abstract value of a [`Wallet`]: the owner and currency as character
/// sequences, the balance as a machine integer.
pub ghost struct WalletView {
    pub owner: Seq<char>,
    pub balance: u64,
    pub currency: Seq<char>,
}

/// A wallet: who owns it, how much it holds, and in which currency.
pub struct Wallet {
    owner: String,
    balance: u64,
    currency: String,
}

impl View for Wallet {
    type V = WalletView;

    closed spec fn view(&self) -> WalletView {
        WalletView { owner: self.owner@, balance: self.balance, currency: self.currency@ }
    }
}

impl Wallet {
    pub fn new(owner: String, balance: u64, currency: String) -> (r: Wallet)
        ensures
            r@ == (WalletView { owner: owner@, balance, currency: currency@ }),
    {
        Wallet { owner, balance, currency }
    }

    pub fn get_owner(&self) -> (r: String)
        ensures
            r@ == self@.owner,
    {
        self.owner.clone()
    }

    pub fn get_balance(&self) -> (r: u64)
        ensures
            r == self@.balance,
    {
        self.balance
    }

    pub fn get_currency(&self) -> (r: String)
        ensures
            r@ == self@.currency,
    {
        self.currency.clone()
    }
}

} // verus!
