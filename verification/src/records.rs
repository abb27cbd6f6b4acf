//! Trust records: what the store keeps for each pending escrow.

use vstd::prelude::*;

verus! {

/// A locked amount of the native currency.
#[derive(Debug, PartialEq, Eq)]
pub struct NearTrustTransaction {
    /// The account that made the deposit.
    pub from_account_id: String,
    /// The amount that was attached to the deposit.
    pub amount: u128,
}

/// A locked non-fungible item.
#[derive(Debug, PartialEq, Eq)]
pub struct NftTrustTransaction {
    /// The account that owned the item before.
    pub from_account_id: String,
    /// The token contract that holds the item.
    pub nft_contract_id: String,
    /// The item.
    pub nft_token_id: String,
}

/// A locked amount of a fungible token.
#[derive(Debug, PartialEq, Eq)]
pub struct FtTrustTransaction {
    /// The account that sent the tokens.
    pub from_account_id: String,
    /// The token contract that holds the tokens.
    pub ft_contract_id: String,
    /// The amount of tokens.
    pub ft_amount: u128,
}

/// What a `NearTrustTransaction` says.
pub ghost struct NearTrust {
    pub from_account_id: Seq<char>,
    pub amount: nat,
}

/// What an `NftTrustTransaction` says.
pub ghost struct NftTrust {
    pub from_account_id: Seq<char>,
    pub nft_contract_id: Seq<char>,
    pub nft_token_id: Seq<char>,
}

/// What an `FtTrustTransaction` says.
pub ghost struct FtTrust {
    pub from_account_id: Seq<char>,
    pub ft_contract_id: Seq<char>,
    pub ft_amount: nat,
}

impl View for NearTrustTransaction {
    type V = NearTrust;

    open spec fn view(&self) -> NearTrust {
        NearTrust { from_account_id: self.from_account_id@, amount: self.amount as nat }
    }
}

impl View for NftTrustTransaction {
    type V = NftTrust;

    open spec fn view(&self) -> NftTrust {
        NftTrust {
            from_account_id: self.from_account_id@,
            nft_contract_id: self.nft_contract_id@,
            nft_token_id: self.nft_token_id@,
        }
    }
}

impl View for FtTrustTransaction {
    type V = FtTrust;

    open spec fn view(&self) -> FtTrust {
        FtTrust {
            from_account_id: self.from_account_id@,
            ft_contract_id: self.ft_contract_id@,
            ft_amount: self.ft_amount as nat,
        }
    }
}

impl Clone for NearTrustTransaction {
    fn clone(&self) -> (copy: Self)
        ensures
            copy == *self,
    {
        NearTrustTransaction { from_account_id: self.from_account_id.clone(), amount: self.amount }
    }
}

impl Clone for NftTrustTransaction {
    fn clone(&self) -> (copy: Self)
        ensures
            copy == *self,
    {
        NftTrustTransaction {
            from_account_id: self.from_account_id.clone(),
            nft_contract_id: self.nft_contract_id.clone(),
            nft_token_id: self.nft_token_id.clone(),
        }
    }
}

impl Clone for FtTrustTransaction {
    fn clone(&self) -> (copy: Self)
        ensures
            copy == *self,
    {
        FtTrustTransaction {
            from_account_id: self.from_account_id.clone(),
            ft_contract_id: self.ft_contract_id.clone(),
            ft_amount: self.ft_amount,
        }
    }
}

} // verus!
