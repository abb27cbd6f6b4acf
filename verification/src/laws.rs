//! What holds of every store, whatever it has pending.

use crate::error::EscrowError;
use crate::hashlock::{is_base58_text, opens_lock};
use crate::records::{FtTrust, NearTrust, NftTrust};
use crate::state::EscrowState;
use crate::transfer::{asset_kind, AssetKind, TransferOrder};
use vstd::prelude::*;

verus! {

/// Whether two stores have the same table of `kind`.
pub open spec fn same_table(a: EscrowState, b: EscrowState, kind: AssetKind) -> bool {
    match kind {
        AssetKind::Native => a.near_trusts == b.near_trusts,
        AssetKind::NonFungible => a.nft_trusts == b.nft_trusts,
        AssetKind::Fungible => a.ft_trusts == b.ft_trusts,
    }
}

/// Whether two stores have the same records pending under `request_id`, in
/// each of the three tables.
pub open spec fn same_records(a: EscrowState, b: EscrowState, request_id: Seq<char>) -> bool {
    &&& a.near_record(request_id) == b.near_record(request_id)
    &&& a.ft_record(request_id) == b.ft_record(request_id)
    &&& a.nft_record(request_id) == b.nft_record(request_id)
}

/// The hash lock is sound. A claim succeeds only if both texts are Base58 and
/// the identifier decodes to the SHA-256 digest of the decoded secret; and
/// where both are Base58 and the identifier decodes to anything else, the
/// claim fails with `InvalidProof`, whatever the kind and whatever is pending.
pub proof fn hash_lock_soundness(
    state: EscrowState,
    request_id: Seq<char>,
    key: Seq<char>,
    kind: u8,
    receiver_id: Seq<char>,
)
    ensures
        state.claim(request_id, key, kind, receiver_id) is Ok ==> opens_lock(request_id, key),
        is_base58_text(request_id) && is_base58_text(key) && !opens_lock(request_id, key)
            ==> state.claim(request_id, key, kind, receiver_id) == Err::<
            (EscrowState, TransferOrder),
            EscrowError,
        >(EscrowError::InvalidProof),
{
}

/// A record is claimed once. After a successful claim of `kind` under
/// `request_id`, a further claim of that kind under that identifier, with any
/// secret that opens the lock and for any receiver, fails with
/// `UnknownCommitment`.
pub proof fn one_time_claim(
    state: EscrowState,
    request_id: Seq<char>,
    key: Seq<char>,
    kind: u8,
    receiver_id: Seq<char>,
    later_key: Seq<char>,
    later_receiver_id: Seq<char>,
)
    requires
        state.claim(request_id, key, kind, receiver_id) is Ok,
        opens_lock(request_id, later_key),
    ensures
        state.claim(request_id, key, kind, receiver_id)->Ok_0.0.claim(
            request_id,
            later_key,
            kind,
            later_receiver_id,
        ) == Err::<(EscrowState, TransferOrder), EscrowError>(EscrowError::UnknownCommitment),
{
}

/// A claim of one kind leaves the tables of the other kinds as they were.
pub proof fn claim_keeps_other_tables(
    state: EscrowState,
    request_id: Seq<char>,
    key: Seq<char>,
    kind: u8,
    receiver_id: Seq<char>,
    other: AssetKind,
)
    requires
        state.claim(request_id, key, kind, receiver_id) is Ok,
        asset_kind(kind) != Some(other),
    ensures
        same_table(state, state.claim(request_id, key, kind, receiver_id)->Ok_0.0, other),
{
}

/// A claim of one kind reads the table of that kind alone. On two stores
/// that have the same table of that kind, whatever their other tables hold,
/// the same claim fails with the same error or succeeds with the same
/// transfer, and leaves the same table of that kind.
pub proof fn claim_reads_own_table(
    a: EscrowState,
    b: EscrowState,
    request_id: Seq<char>,
    key: Seq<char>,
    kind: u8,
    receiver_id: Seq<char>,
)
    requires
        asset_kind(kind) matches Some(k) ==> same_table(a, b, k),
    ensures
        match (
            a.claim(request_id, key, kind, receiver_id),
            b.claim(request_id, key, kind, receiver_id),
        ) {
            (Ok((after_a, order_a)), Ok((after_b, order_b))) => {
                &&& order_a == order_b
                &&& asset_kind(kind) matches Some(k) && same_table(after_a, after_b, k)
            },
            (Err(error_a), Err(error_b)) => error_a == error_b,
            _ => false,
        },
{
}

/// A claim is local to its identifier. On two stores that have the same
/// records pending under `request_id`, the same claim fails with the same
/// error or succeeds with the same transfer; and a successful claim leaves
/// what is pending under every other identifier as it was.
pub proof fn claim_is_local(
    a: EscrowState,
    b: EscrowState,
    request_id: Seq<char>,
    key: Seq<char>,
    kind: u8,
    receiver_id: Seq<char>,
    other_id: Seq<char>,
)
    requires
        same_records(a, b, request_id),
        other_id != request_id,
    ensures
        match (
            a.claim(request_id, key, kind, receiver_id),
            b.claim(request_id, key, kind, receiver_id),
        ) {
            (Ok((after_a, order_a)), Ok((after_b, order_b))) => {
                &&& order_a == order_b
                &&& same_records(after_a, after_b, request_id)
                &&& same_records(after_a, a, other_id)
            },
            (Err(error_a), Err(error_b)) => error_a == error_b,
            _ => false,
        },
{
}

/// A second native deposit under one identifier overwrites the first: the
/// store is as if the first had never been made, and the lookup gives the
/// second record.
pub proof fn near_redeposit_overwrites(
    state: EscrowState,
    request_id: Seq<char>,
    first: NearTrust,
    second: NearTrust,
)
    ensures
        state.lock_near(request_id, first).lock_near(request_id, second) == state.lock_near(
            request_id,
            second,
        ),
        state.lock_near(request_id, first).lock_near(request_id, second).near_record(request_id)
            == Some(second),
{
    assert(state.lock_near(request_id, first).lock_near(request_id, second) =~= state.lock_near(
        request_id,
        second,
    ));
}

/// A second fungible deposit under one identifier overwrites the first: the
/// store is as if the first had never been made, and the lookup gives the
/// second record.
pub proof fn ft_redeposit_overwrites(
    state: EscrowState,
    request_id: Seq<char>,
    first: FtTrust,
    second: FtTrust,
)
    ensures
        state.lock_ft(request_id, first).lock_ft(request_id, second) == state.lock_ft(
            request_id,
            second,
        ),
        state.lock_ft(request_id, first).lock_ft(request_id, second).ft_record(request_id) == Some(
            second,
        ),
{
    assert(state.lock_ft(request_id, first).lock_ft(request_id, second) =~= state.lock_ft(
        request_id,
        second,
    ));
}

/// A second non-fungible deposit under one identifier overwrites the first:
/// the store is as if the first had never been made, and the lookup gives the
/// second record.
pub proof fn nft_redeposit_overwrites(
    state: EscrowState,
    request_id: Seq<char>,
    first: NftTrust,
    second: NftTrust,
)
    ensures
        state.lock_nft(request_id, first).lock_nft(request_id, second) == state.lock_nft(
            request_id,
            second,
        ),
        state.lock_nft(request_id, first).lock_nft(request_id, second).nft_record(request_id)
            == Some(second),
{
    assert(state.lock_nft(request_id, first).lock_nft(request_id, second) =~= state.lock_nft(
        request_id,
        second,
    ));
}

/// A native deposit can be claimed with the secret. On a store that has just
/// locked `record` under `request_id`, a native claim whose secret opens the
/// lock orders the recorded amount to the receiver and leaves the store as it
/// was before the deposit, without a native record under the identifier.
pub proof fn near_deposit_is_claimable(
    state: EscrowState,
    request_id: Seq<char>,
    record: NearTrust,
    key: Seq<char>,
    receiver_id: Seq<char>,
)
    requires
        opens_lock(request_id, key),
    ensures
        state.lock_near(request_id, record).claim(request_id, key, 1, receiver_id) == Ok::<
            (EscrowState, TransferOrder),
            EscrowError,
        >(
            (
                state.without(AssetKind::Native, request_id),
                TransferOrder::Native { receiver_id, amount: record.amount },
            ),
        ),
{
    assert(state.lock_near(request_id, record).without(AssetKind::Native, request_id)
        =~= state.without(AssetKind::Native, request_id));
}

/// A non-fungible deposit can be claimed with the secret. On a store that has
/// just locked `record` under `request_id`, a non-fungible claim whose secret
/// opens the lock orders the recorded item, at the recorded token contract,
/// to the receiver and leaves the store as it was before the deposit, without
/// a non-fungible record under the identifier.
pub proof fn nft_deposit_is_claimable(
    state: EscrowState,
    request_id: Seq<char>,
    record: NftTrust,
    key: Seq<char>,
    receiver_id: Seq<char>,
)
    requires
        opens_lock(request_id, key),
    ensures
        state.lock_nft(request_id, record).claim(request_id, key, 2, receiver_id) == Ok::<
            (EscrowState, TransferOrder),
            EscrowError,
        >(
            (
                state.without(AssetKind::NonFungible, request_id),
                TransferOrder::NonFungible {
                    nft_contract_id: record.nft_contract_id,
                    receiver_id,
                    token_id: record.nft_token_id,
                },
            ),
        ),
{
    assert(state.lock_nft(request_id, record).without(AssetKind::NonFungible, request_id)
        =~= state.without(AssetKind::NonFungible, request_id));
}

/// A fungible deposit can be claimed with the secret. On a store that has
/// just locked `record` under `request_id`, a fungible claim whose secret
/// opens the lock orders the recorded amount, at the recorded token contract,
/// to the receiver and leaves the store as it was before the deposit, without
/// a fungible record under the identifier.
pub proof fn ft_deposit_is_claimable(
    state: EscrowState,
    request_id: Seq<char>,
    record: FtTrust,
    key: Seq<char>,
    receiver_id: Seq<char>,
)
    requires
        opens_lock(request_id, key),
    ensures
        state.lock_ft(request_id, record).claim(request_id, key, 3, receiver_id) == Ok::<
            (EscrowState, TransferOrder),
            EscrowError,
        >(
            (
                state.without(AssetKind::Fungible, request_id),
                TransferOrder::Fungible {
                    ft_contract_id: record.ft_contract_id,
                    receiver_id,
                    amount: record.ft_amount,
                },
            ),
        ),
{
    assert(state.lock_ft(request_id, record).without(AssetKind::Fungible, request_id)
        =~= state.without(AssetKind::Fungible, request_id));
}

} // verus!
