//! The escrow store: deposits, claims and lookups.

use crate::error::EscrowError;
use crate::hashlock::{bytes_equal, decode_base58, is_base58_text, opens_lock, sha256};
use crate::records::{
    FtTrust, FtTrustTransaction, NearTrust, NearTrustTransaction, NftTrust, NftTrustTransaction,
};
use crate::state::EscrowState;
use crate::transfer::{asset_kind, AssetKind, Transfer, TransferOrder};
use vstd::hash_map::StringHashMap;
use vstd::prelude::*;

verus! {

/// The escrow store. It owns three tables of pending escrows, keyed by
/// commitment identifier, and is the only one to change them.
pub struct Contract {
    near_trusts: StringHashMap<NearTrustTransaction>,
    ft_trusts: StringHashMap<FtTrustTransaction>,
    nft_trusts: StringHashMap<NftTrustTransaction>,
}

impl View for Contract {
    type V = EscrowState;

    closed spec fn view(&self) -> EscrowState {
        EscrowState {
            near_trusts: self.near_trusts@.map_values(|r: NearTrustTransaction| r@),
            ft_trusts: self.ft_trusts@.map_values(|r: FtTrustTransaction| r@),
            nft_trusts: self.nft_trusts@.map_values(|r: NftTrustTransaction| r@),
        }
    }
}

impl Contract {
    /// Sets the store up with three empty tables, unless one exists already.
    pub fn new(already_initialized: bool) -> (made: Result<Contract, EscrowError>)
        ensures
            match made {
                Ok(contract) => !already_initialized && contract@ == EscrowState::empty(),
                Err(error) => already_initialized && error == EscrowError::AlreadyInitialized,
            },
    {
        if already_initialized {
            return Err(EscrowError::AlreadyInitialized);
        }
        let contract = Contract {
            near_trusts: StringHashMap::new(),
            ft_trusts: StringHashMap::new(),
            nft_trusts: StringHashMap::new(),
        };
        assert(contract@ =~= EscrowState::empty());
        Ok(contract)
    }

    /// Locks `amount` of the native currency, deposited by `from_account_id`,
    /// under `request_id`. A native record pending under the same identifier
    /// is replaced.
    pub fn send_near(&mut self, request_id: String, from_account_id: String, amount: u128)
        ensures
            final(self)@ == old(self)@.lock_near(
                request_id@,
                (NearTrust { from_account_id: from_account_id@, amount: amount as nat }),
            ),
    {
        let record = NearTrustTransaction { from_account_id, amount };
        self.near_trusts.insert(request_id, record);
        assert(self@ =~= old(self)@.lock_near(request_id@, record@));
    }

    /// Takes in a non-fungible item that the token contract `nft_contract_id`
    /// has transferred to the store: locks the item `token_id`, owned before by
    /// `previous_owner_id`, under the identifier `msg`. A non-fungible record
    /// pending under the same identifier is replaced. The account that sent
    /// the item on the owner's behalf is not recorded.
    ///
    /// Returns `false`: the item is kept and not to be returned to its sender.
    pub fn nft_on_transfer(
        &mut self,
        nft_contract_id: String,
        _sender_id: String,
        previous_owner_id: String,
        token_id: String,
        msg: String,
    ) -> (give_back: bool)
        ensures
            !give_back,
            final(self)@ == old(self)@.lock_nft(
                msg@,
                (NftTrust {
                    from_account_id: previous_owner_id@,
                    nft_contract_id: nft_contract_id@,
                    nft_token_id: token_id@,
                }),
            ),
    {
        let record = NftTrustTransaction {
            from_account_id: previous_owner_id,
            nft_contract_id,
            nft_token_id: token_id,
        };
        self.nft_trusts.insert(msg, record);
        assert(self@ =~= old(self)@.lock_nft(msg@, record@));
        false
    }

    /// Takes in fungible tokens that the token contract `ft_contract_id` has
    /// transferred to the store: locks `amount` tokens, sent by `sender_id`,
    /// under the identifier `msg`. A fungible record pending under the same
    /// identifier is replaced.
    ///
    /// Returns 0, the amount to refund: all of the tokens are kept.
    pub fn ft_on_transfer(
        &mut self,
        ft_contract_id: String,
        sender_id: String,
        amount: u128,
        msg: String,
    ) -> (unused: u128)
        ensures
            unused == 0,
            final(self)@ == old(self)@.lock_ft(
                msg@,
                (FtTrust {
                    from_account_id: sender_id@,
                    ft_contract_id: ft_contract_id@,
                    ft_amount: amount as nat,
                }),
            ),
    {
        let record = FtTrustTransaction {
            from_account_id: sender_id,
            ft_contract_id,
            ft_amount: amount,
        };
        self.ft_trusts.insert(msg, record);
        assert(self@ =~= old(self)@.lock_ft(msg@, record@));
        0
    }

    /// Settles a claim whose texts are decoded and whose secret is hashed:
    /// `commitment` is what `request_id` decodes to, `digest` the hash of the
    /// decoded secret.
    ///
    /// Fails with `InvalidProof` unless the two are equal byte for byte, then
    /// with `UnsupportedKind` unless `kind` is 1, 2 or 3, then with
    /// `UnknownCommitment` unless the table of that kind holds a record under
    /// `request_id`. Otherwise removes that record and returns the transfer
    /// that moves the asset to `account_id`. A failed claim changes nothing.
    pub fn settle(
        &mut self,
        request_id: String,
        commitment: &Vec<u8>,
        digest: &Vec<u8>,
        kind: u8,
        account_id: String,
    ) -> (outcome: Result<Transfer, EscrowError>)
        ensures
            match outcome {
                Ok(transfer) => old(self)@.settle(
                    request_id@,
                    commitment@,
                    digest@,
                    kind,
                    account_id@,
                ) == Ok::<(EscrowState, TransferOrder), EscrowError>((final(self)@, transfer@)),
                Err(error) => {
                    &&& old(self)@.settle(request_id@, commitment@, digest@, kind, account_id@)
                        == Err::<(EscrowState, TransferOrder), EscrowError>(error)
                    &&& final(self)@ == old(self)@
                },
            },
    {
        if !bytes_equal(digest, commitment) {
            return Err(EscrowError::InvalidProof);
        }
        match AssetKind::from_code(kind) {
            None => Err(EscrowError::UnsupportedKind),
            Some(AssetKind::Native) => {
                let record = match self.near_trusts.get(request_id.as_str()) {
                    Some(record) => record.clone(),
                    None => {
                        return Err(EscrowError::UnknownCommitment);
                    },
                };
                self.near_trusts.remove(request_id.as_str());
                assert(self@ =~= old(self)@.without(AssetKind::Native, request_id@));
                Ok(Transfer::Native { receiver_id: account_id, amount: record.amount })
            },
            Some(AssetKind::NonFungible) => {
                let record = match self.nft_trusts.get(request_id.as_str()) {
                    Some(record) => record.clone(),
                    None => {
                        return Err(EscrowError::UnknownCommitment);
                    },
                };
                self.nft_trusts.remove(request_id.as_str());
                assert(self@ =~= old(self)@.without(AssetKind::NonFungible, request_id@));
                Ok(
                    Transfer::NonFungible {
                        nft_contract_id: record.nft_contract_id,
                        receiver_id: account_id,
                        token_id: record.nft_token_id,
                    },
                )
            },
            Some(AssetKind::Fungible) => {
                let record = match self.ft_trusts.get(request_id.as_str()) {
                    Some(record) => record.clone(),
                    None => {
                        return Err(EscrowError::UnknownCommitment);
                    },
                };
                self.ft_trusts.remove(request_id.as_str());
                assert(self@ =~= old(self)@.without(AssetKind::Fungible, request_id@));
                Ok(
                    Transfer::Fungible {
                        ft_contract_id: record.ft_contract_id,
                        receiver_id: account_id,
                        amount: record.ft_amount,
                    },
                )
            },
        }
    }

    /// Claims the asset of `kind` (1 native, 2 non-fungible, 3 fungible) that
    /// is locked under `request_id` by revealing the secret `key`, and directs
    /// it to `account_id`. Both `request_id` and `key` are Base58 text.
    ///
    /// Fails with `MalformedEncoding` unless both texts are Base58; else
    /// settles the claim on the bytes of `request_id` and the SHA-256 digest
    /// of the bytes of `key`, as `settle` does. On success the record is gone
    /// from its table and the transfer that is returned is owed; on failure
    /// the store is unchanged.
    pub fn receive_transfer(
        &mut self,
        request_id: String,
        key: String,
        kind: u8,
        account_id: String,
    ) -> (outcome: Result<Transfer, EscrowError>)
        ensures
            match outcome {
                Ok(transfer) => old(self)@.claim(request_id@, key@, kind, account_id@) == Ok::<
                    (EscrowState, TransferOrder),
                    EscrowError,
                >((final(self)@, transfer@)),
                Err(error) => {
                    &&& old(self)@.claim(request_id@, key@, kind, account_id@) == Err::<
                        (EscrowState, TransferOrder),
                        EscrowError,
                    >(error)
                    &&& final(self)@ == old(self)@
                },
            },
            outcome is Ok ==> opens_lock(request_id@, key@),
            is_base58_text(request_id@) && is_base58_text(key@) && !opens_lock(request_id@, key@)
                ==> outcome == Err::<Transfer, EscrowError>(EscrowError::InvalidProof),
            asset_kind(kind) != Some(AssetKind::Native) ==> final(self)@.near_trusts == old(
                self,
            )@.near_trusts,
            asset_kind(kind) != Some(AssetKind::NonFungible) ==> final(self)@.nft_trusts == old(
                self,
            )@.nft_trusts,
            asset_kind(kind) != Some(AssetKind::Fungible) ==> final(self)@.ft_trusts == old(
                self,
            )@.ft_trusts,
    {
        let key_b = match decode_base58(key.as_str()) {
            Ok(bytes) => bytes,
            Err(_) => {
                return Err(EscrowError::MalformedEncoding);
            },
        };
        let request_id_b = match decode_base58(request_id.as_str()) {
            Ok(bytes) => bytes,
            Err(_) => {
                return Err(EscrowError::MalformedEncoding);
            },
        };
        let digest = sha256(&key_b);
        self.settle(request_id, &request_id_b, &digest, kind, account_id)
    }

    /// The native record pending under `request_id`.
    pub fn get_request(&self, request_id: String) -> (found: Option<NearTrustTransaction>)
        ensures
            match found {
                Some(record) => self@.near_record(request_id@) == Some(record@),
                None => self@.near_record(request_id@) is None,
            },
    {
        match self.near_trusts.get(request_id.as_str()) {
            Some(record) => Some(record.clone()),
            None => None,
        }
    }

    /// The fungible record pending under `request_id`.
    pub fn get_ft_transfers(&self, request_id: String) -> (found: Option<FtTrustTransaction>)
        ensures
            match found {
                Some(record) => self@.ft_record(request_id@) == Some(record@),
                None => self@.ft_record(request_id@) is None,
            },
    {
        match self.ft_trusts.get(request_id.as_str()) {
            Some(record) => Some(record.clone()),
            None => None,
        }
    }

    /// The non-fungible record pending under `request_id`.
    pub fn get_nft_transfers(&self, request_id: String) -> (found: Option<NftTrustTransaction>)
        ensures
            match found {
                Some(record) => self@.nft_record(request_id@) == Some(record@),
                None => self@.nft_record(request_id@) is None,
            },
    {
        match self.nft_trusts.get(request_id.as_str()) {
            Some(record) => Some(record.clone()),
            None => None,
        }
    }
}

} // verus!
