//! The escrow store as mathematics: three maps from commitment identifier to
//! trust record, and what deposits and claims do to them.

use crate::error::EscrowError;
use crate::hashlock::{base58_bytes, is_base58_text, sha256_digest};
use crate::records::{FtTrust, NearTrust, NftTrust};
use crate::transfer::{asset_kind, AssetKind, TransferOrder};
use vstd::prelude::*;

verus! {

/// The pending escrows, one table per kind of asset. The tables are
/// independent: one identifier may be pending in several of them.
#[verifier::ext_equal]
pub ghost struct EscrowState {
    pub near_trusts: Map<Seq<char>, NearTrust>,
    pub ft_trusts: Map<Seq<char>, FtTrust>,
    pub nft_trusts: Map<Seq<char>, NftTrust>,
}

impl EscrowState {
    /// The store with nothing pending.
    pub open spec fn empty() -> EscrowState {
        EscrowState { near_trusts: Map::empty(), ft_trusts: Map::empty(), nft_trusts: Map::empty() }
    }

    /// The store after a native deposit: `record` replaces whatever the native
    /// table held under `request_id`.
    pub open spec fn lock_near(self, request_id: Seq<char>, record: NearTrust) -> EscrowState {
        EscrowState { near_trusts: self.near_trusts.insert(request_id, record), ..self }
    }

    /// The store after a fungible deposit: `record` replaces whatever the
    /// fungible table held under `request_id`.
    pub open spec fn lock_ft(self, request_id: Seq<char>, record: FtTrust) -> EscrowState {
        EscrowState { ft_trusts: self.ft_trusts.insert(request_id, record), ..self }
    }

    /// The store after a non-fungible deposit: `record` replaces whatever the
    /// non-fungible table held under `request_id`.
    pub open spec fn lock_nft(self, request_id: Seq<char>, record: NftTrust) -> EscrowState {
        EscrowState { nft_trusts: self.nft_trusts.insert(request_id, record), ..self }
    }

    /// The native record pending under `request_id`, if there is one.
    pub open spec fn near_record(self, request_id: Seq<char>) -> Option<NearTrust> {
        if self.near_trusts.contains_key(request_id) {
            Some(self.near_trusts[request_id])
        } else {
            None
        }
    }

    /// The fungible record pending under `request_id`, if there is one.
    pub open spec fn ft_record(self, request_id: Seq<char>) -> Option<FtTrust> {
        if self.ft_trusts.contains_key(request_id) {
            Some(self.ft_trusts[request_id])
        } else {
            None
        }
    }

    /// The non-fungible record pending under `request_id`, if there is one.
    pub open spec fn nft_record(self, request_id: Seq<char>) -> Option<NftTrust> {
        if self.nft_trusts.contains_key(request_id) {
            Some(self.nft_trusts[request_id])
        } else {
            None
        }
    }

    /// Whether the table of `kind` holds a record under `request_id`.
    pub open spec fn holds(self, kind: AssetKind, request_id: Seq<char>) -> bool {
        match kind {
            AssetKind::Native => self.near_trusts.contains_key(request_id),
            AssetKind::NonFungible => self.nft_trusts.contains_key(request_id),
            AssetKind::Fungible => self.ft_trusts.contains_key(request_id),
        }
    }

    /// The store without the record of `kind` under `request_id`.
    pub open spec fn without(self, kind: AssetKind, request_id: Seq<char>) -> EscrowState {
        match kind {
            AssetKind::Native => EscrowState {
                near_trusts: self.near_trusts.remove(request_id),
                ..self
            },
            AssetKind::NonFungible => EscrowState {
                nft_trusts: self.nft_trusts.remove(request_id),
                ..self
            },
            AssetKind::Fungible => EscrowState {
                ft_trusts: self.ft_trusts.remove(request_id),
                ..self
            },
        }
    }

    /// The transfer that releases the record of `kind` under `request_id` to
    /// `receiver_id`: the recorded amount, or the recorded item or amount at
    /// the recorded token contract.
    pub open spec fn order(
        self,
        kind: AssetKind,
        request_id: Seq<char>,
        receiver_id: Seq<char>,
    ) -> TransferOrder
        recommends
            self.holds(kind, request_id),
    {
        match kind {
            AssetKind::Native => TransferOrder::Native {
                receiver_id,
                amount: self.near_trusts[request_id].amount,
            },
            AssetKind::NonFungible => TransferOrder::NonFungible {
                nft_contract_id: self.nft_trusts[request_id].nft_contract_id,
                receiver_id,
                token_id: self.nft_trusts[request_id].nft_token_id,
            },
            AssetKind::Fungible => TransferOrder::Fungible {
                ft_contract_id: self.ft_trusts[request_id].ft_contract_id,
                receiver_id,
                amount: self.ft_trusts[request_id].ft_amount,
            },
        }
    }

    /// A claim once the two texts are decoded and the secret is hashed.
    ///
    /// `commitment` is what the identifier decodes to and `digest` the hash of
    /// the decoded secret. The checks come in this order, and the first that
    /// fails decides the error: the digest is the commitment; `kind` is a
    /// kind; the table of that kind holds a record under `request_id`. A claim
    /// that passes all three removes that record and orders its transfer.
    pub open spec fn settle(
        self,
        request_id: Seq<char>,
        commitment: Seq<u8>,
        digest: Seq<u8>,
        kind: u8,
        receiver_id: Seq<char>,
    ) -> Result<(EscrowState, TransferOrder), EscrowError> {
        if digest != commitment {
            Err(EscrowError::InvalidProof)
        } else {
            match asset_kind(kind) {
                None => Err(EscrowError::UnsupportedKind),
                Some(k) => if self.holds(k, request_id) {
                    Ok((self.without(k, request_id), self.order(k, request_id, receiver_id)))
                } else {
                    Err(EscrowError::UnknownCommitment)
                },
            }
        }
    }

    /// A claim: `key` is the secret and `request_id` the commitment
    /// identifier, both as Base58 text. Unless both are Base58 text the claim
    /// is malformed; else it is settled on the bytes of the identifier and the
    /// SHA-256 digest of the bytes of the secret.
    pub open spec fn claim(
        self,
        request_id: Seq<char>,
        key: Seq<char>,
        kind: u8,
        receiver_id: Seq<char>,
    ) -> Result<(EscrowState, TransferOrder), EscrowError> {
        if is_base58_text(key) && is_base58_text(request_id) {
            self.settle(
                request_id,
                base58_bytes(request_id),
                sha256_digest(base58_bytes(key)),
                kind,
                receiver_id,
            )
        } else {
            Err(EscrowError::MalformedEncoding)
        }
    }
}

} // verus!
