//! What a successful claim hands to the asset-transfer gateway.
//!
//! The store decides which transfer is owed and removes the record; moving
//! the asset is the gateway's work. A claim therefore returns a `Transfer`,
//! and whoever runs the store carries it out: a direct payment for the native
//! currency, a call of `NftContract::nft_transfer` or `FtContract::ft_transfer`
//! on the token contract that the record names for the other two kinds.

use vstd::prelude::*;

verus! {

/// Gas attached to each outbound token-contract call.
pub const GAS: u64 = 10_000_000_000_000;

/// Deposit attached to each outbound token-contract call.
pub const TRANSFER_DEPOSIT: u128 = 1;

/// A token contract that can be told to hand over a non-fungible item.
pub trait NftContract {
    /// Transfers the item `token_id` to `receiver_id`.
    fn nft_transfer(&self, receiver_id: String, token_id: String);
}

/// A token contract that can be told to hand over fungible tokens.
pub trait FtContract {
    /// Transfers `amount` tokens to `receiver_id`.
    fn ft_transfer(&self, receiver_id: String, amount: u128);
}

/// The three kinds of asset that the store escrows.
#[derive(Clone, Copy, Debug, PartialEq, Eq, Structural)]
pub enum AssetKind {
    /// The ledger's native currency.
    Native,
    /// A single collectible item of a token contract.
    NonFungible,
    /// An amount of a token contract's fungible token.
    Fungible,
}

/// The kind that a discriminator stands for: 1 is native, 2 non-fungible,
/// 3 fungible, and no other value is a kind.
pub open spec fn asset_kind(code: u8) -> Option<AssetKind> {
    if code == 1 {
        Some(AssetKind::Native)
    } else if code == 2 {
        Some(AssetKind::NonFungible)
    } else if code == 3 {
        Some(AssetKind::Fungible)
    } else {
        None
    }
}

impl AssetKind {
    /// Reads a discriminator.
    pub fn from_code(code: u8) -> (kind: Option<AssetKind>)
        ensures
            kind == asset_kind(code),
    {
        match code {
            1 => Some(AssetKind::Native),
            2 => Some(AssetKind::NonFungible),
            3 => Some(AssetKind::Fungible),
            _ => None,
        }
    }
}

/// An instruction to move a claimed asset to its new owner.
#[derive(Debug, PartialEq, Eq)]
pub enum Transfer {
    /// Pay `amount` of the native currency to `receiver_id`.
    Native { receiver_id: String, amount: u128 },
    /// Ask `nft_contract_id` to transfer the item `token_id` to `receiver_id`.
    NonFungible { nft_contract_id: String, receiver_id: String, token_id: String },
    /// Ask `ft_contract_id` to transfer `amount` tokens to `receiver_id`.
    Fungible { ft_contract_id: String, receiver_id: String, amount: u128 },
}

/// What a `Transfer` says.
pub ghost enum TransferOrder {
    Native { receiver_id: Seq<char>, amount: nat },
    NonFungible { nft_contract_id: Seq<char>, receiver_id: Seq<char>, token_id: Seq<char> },
    Fungible { ft_contract_id: Seq<char>, receiver_id: Seq<char>, amount: nat },
}

impl View for Transfer {
    type V = TransferOrder;

    open spec fn view(&self) -> TransferOrder {
        match *self {
            Transfer::Native { receiver_id, amount } => TransferOrder::Native {
                receiver_id: receiver_id@,
                amount: amount as nat,
            },
            Transfer::NonFungible {
                nft_contract_id,
                receiver_id,
                token_id,
            } => TransferOrder::NonFungible {
                nft_contract_id: nft_contract_id@,
                receiver_id: receiver_id@,
                token_id: token_id@,
            },
            Transfer::Fungible { ft_contract_id, receiver_id, amount } => TransferOrder::Fungible {
                ft_contract_id: ft_contract_id@,
                receiver_id: receiver_id@,
                amount: amount as nat,
            },
        }
    }
}

impl TransferOrder {
    /// The kind of asset that the order moves.
    pub open spec fn kind(self) -> AssetKind {
        match self {
            TransferOrder::Native { .. } => AssetKind::Native,
            TransferOrder::NonFungible { .. } => AssetKind::NonFungible,
            TransferOrder::Fungible { .. } => AssetKind::Fungible,
        }
    }

    /// The account that receives the asset.
    pub open spec fn receiver(self) -> Seq<char> {
        match self {
            TransferOrder::Native { receiver_id, .. } => receiver_id,
            TransferOrder::NonFungible { receiver_id, .. } => receiver_id,
            TransferOrder::Fungible { receiver_id, .. } => receiver_id,
        }
    }
}

} // verus!
