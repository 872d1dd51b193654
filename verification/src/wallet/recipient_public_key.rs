//! Local address binding for caller-supplied encrypted-comment public keys.
use vstd::prelude::*;

use crate::domain::address::{AccountAddress, Network, TonAddressString};
use crate::wallet::encrypted_comment::EncryptedCommentError;
use crate::wallet::ton_interop::{
    derive_state_init_address, spec_v5_id_default_mainnet,
    spec_v5_id_default_testnet, spec_wallet_id_default, state_init_hash, ton_hash_from_slice,
    v1v2_data_cell, v3_data_cell, v4_data_cell, v5_data_cell, v5_id_default_mainnet,
    v5_id_default_testnet, wallet_code, wallet_id_default, DataCell, InitialData, WalletKind,
};

verus! {

// ---------------------------------------------------------------------------
// Candidate wallets
// ---------------------------------------------------------------------------

/// The workchain as the unsigned byte of its two's-complement `int8` form.
pub open spec fn workchain_byte(workchain: int) -> int {
    if workchain < 0 {
        workchain + 256
    } else {
        workchain
    }
}

/// The V5 wallet ID for `workchain`: the default ID with the workchain's
/// `int8` byte XOR-ed in at bits 23..31; none outside the `int8` range.
pub open spec fn spec_v5_workchain_id(default_id: i32, workchain: i32) -> Option<i32> {
    if -128 <= workchain <= 127 {
        Some(default_id ^ ((workchain_byte(workchain as int) * 0x80_0000) as i32))
    } else {
        None
    }
}

/// The V3/V4 wallet IDs tried for `workchain`: the fixed default, then the
/// default plus the workchain where that differs and fits in `i32`.
pub open spec fn legacy_wallet_ids(workchain: i32) -> Seq<i32> {
    let d = spec_wallet_id_default();
    if workchain != 0 && i32::MIN <= d + workchain <= i32::MAX {
        seq![d, (d + workchain) as i32]
    } else {
        seq![d]
    }
}

/// The default V5 wallet ID of `network` in workchain zero.
pub open spec fn v5_default_id(network: Network) -> i32 {
    match network {
        Network::Mainnet => spec_v5_id_default_mainnet(),
        Network::Testnet => spec_v5_id_default_testnet(),
    }
}

/// The V5 wallet IDs tried for `workchain` on `network`: the default, then
/// its workchain-aware form where that exists and differs.
pub open spec fn v5_wallet_ids(network: Network, workchain: i32) -> Seq<i32> {
    let base = v5_default_id(network);
    let alt = spec_v5_workchain_id(base, workchain);
    if alt is Some && alt->0 != base {
        seq![base, alt->0]
    } else {
        seq![base]
    }
}

pub open spec fn v1v2_kinds() -> Seq<WalletKind> {
    seq![WalletKind::V1R1, WalletKind::V1R2, WalletKind::V1R3, WalletKind::V2R1, WalletKind::V2R2]
}

pub open spec fn v3_kinds() -> Seq<WalletKind> {
    seq![WalletKind::V3R1, WalletKind::V3R2]
}

pub open spec fn v4_kinds() -> Seq<WalletKind> {
    seq![WalletKind::V4R1, WalletKind::V4R2]
}

pub open spec fn v5_kinds() -> Seq<WalletKind> {
    seq![WalletKind::V5R1]
}

/// V3 then V4 data for each legacy wallet ID, in order.
pub open spec fn legacy_groups(key: Seq<u8>, ids: Seq<i32>) -> Seq<(InitialData, Seq<WalletKind>)>
    decreases ids.len(),
{
    if ids.len() == 0 {
        seq![]
    } else {
        seq![
            (InitialData::V3 { wallet_id: ids[0] as int, key }, v3_kinds()),
            (InitialData::V4 { wallet_id: ids[0] as int, key }, v4_kinds()),
        ] + legacy_groups(key, ids.drop_first())
    }
}

/// V5 data for each V5 wallet ID, in order.
pub open spec fn v5_groups(key: Seq<u8>, ids: Seq<i32>) -> Seq<(InitialData, Seq<WalletKind>)>
    decreases ids.len(),
{
    if ids.len() == 0 {
        seq![]
    } else {
        seq![(InitialData::V5 { wallet_id: ids[0] as int, key }, v5_kinds())] + v5_groups(
            key,
            ids.drop_first(),
        )
    }
}

/// Every standard initial wallet state that `key` can authenticate in
/// `workchain` on `network`, grouped by data cell and in the order tried:
/// each group is an initial data and the wallet kinds whose code is paired with it.
pub open spec fn candidate_groups(key: Seq<u8>, workchain: i32, network: Network) -> Seq<
    (InitialData, Seq<WalletKind>),
> {
    seq![(InitialData::V1V2 { key }, v1v2_kinds())] + legacy_groups(key, legacy_wallet_ids(workchain))
        + v5_groups(key, v5_wallet_ids(network, workchain))
}


// ---------------------------------------------------------------------------
// Outcome of trying the candidates
// ---------------------------------------------------------------------------

/// The wallet of `kind` with initial data `data` lives at the target's account hash.
pub open spec fn kind_matches(target: (int, Seq<u8>), data: InitialData, kind: WalletKind) -> bool {
    state_init_hash(kind, data) == target.1
}

/// Some wallet of the candidate groups lives at the target's account hash.
pub open spec fn some_candidate_matches(
    target: (int, Seq<u8>),
    groups: Seq<(InitialData, Seq<WalletKind>)>,
) -> bool {
    exists|g: int, j: int|
        0 <= g < groups.len() && 0 <= j < groups[g].1.len() && #[trigger] kind_matches(
            target,
            groups[g].0,
            groups[g].1[j],
        )
}

/// The address of the Wallet rev00 candidate, as a caller supplied it:
/// none where it is not available, an error where it could not be built.
pub open spec fn rev00_view(rev00: Option<Result<AccountAddress, ()>>) -> Option<Result<(int, Seq<u8>), ()>> {
    match rev00 {
        None => None,
        Some(Err(())) => Some(Err(())),
        Some(Ok(a)) => Some(Ok(a@)),
    }
}

/// What the binding answers once it is known whether a standard V1-V5
/// wallet lives at the recipient: such a wallet binds the key; otherwise,
/// in workchain zero only, the Wallet rev00 wallet decides, and an address
/// that could not be built is an encoding failure; all else is a mismatch.
pub open spec fn binding_result(
    recipient: (int, Seq<u8>),
    standard_match: bool,
    rev00: Option<Result<(int, Seq<u8>), ()>>,
) -> Result<(), EncryptedCommentError> {
    if standard_match {
        Ok(())
    } else if recipient.0 == 0 && rev00 == Some(Ok::<(int, Seq<u8>), ()>(recipient)) {
        Ok(())
    } else if recipient.0 == 0 && rev00 == Some(Err::<(int, Seq<u8>), ()>(())) {
        Err(EncryptedCommentError::CellEncoding)
    } else {
        Err(EncryptedCommentError::RecipientPublicKeyMismatch)
    }
}

/// What `verify_recipient_public_key` answers.
pub open spec fn spec_verify_recipient_public_key(
    recipient: (int, Seq<u8>),
    public_key: Seq<u8>,
    network: Network,
    rev00: Option<Result<(int, Seq<u8>), ()>>,
) -> Result<(), EncryptedCommentError> {
    binding_result(
        recipient,
        some_candidate_matches(recipient, candidate_groups(public_key, recipient.0 as i32, network)),
        rev00,
    )
}

/// Trying each kind's code with `data`, in order, until one lives at the target.
pub open spec fn kinds_outcome(target: (int, Seq<u8>), data: InitialData, kinds: Seq<WalletKind>) -> bool
    decreases kinds.len(),
{
    kinds.len() > 0 && (kind_matches(target, data, kinds[0]) || kinds_outcome(
        target,
        data,
        kinds.drop_first(),
    ))
}

/// Trying each group in order, until one has a kind that lives at the target.
pub open spec fn groups_outcome(target: (int, Seq<u8>), groups: Seq<(InitialData, Seq<WalletKind>)>) -> bool
    decreases groups.len(),
{
    groups.len() > 0 && (kinds_outcome(target, groups[0].0, groups[0].1) || groups_outcome(
        target,
        groups.drop_first(),
    ))
}

/// Kinds are tried in order and the first match is final: trying `ws`
/// after `vs` only matters where `vs` found nothing, and trying no kinds
/// finds nothing.
pub proof fn lemma_first_match_is_final(
    target: (int, Seq<u8>),
    data: InitialData,
    vs: Seq<WalletKind>,
    ws: Seq<WalletKind>,
)
    ensures
        !kinds_outcome(target, data, Seq::<WalletKind>::empty()),
        kinds_outcome(target, data, vs + ws) == (kinds_outcome(target, data, vs) || kinds_outcome(
            target,
            data,
            ws,
        )),
    decreases vs.len(),
{
    if vs.len() == 0 {
        assert(vs + ws =~= ws);
    } else {
        assert((vs + ws)[0] == vs[0]);
        assert((vs + ws).drop_first() =~= vs.drop_first() + ws);
        lemma_first_match_is_final(target, data, vs.drop_first(), ws);
    }
}

proof fn lemma_groups_outcome_cons(
    target: (int, Seq<u8>),
    g: (InitialData, Seq<WalletKind>),
    rest: Seq<(InitialData, Seq<WalletKind>)>,
)
    ensures
        groups_outcome(target, seq![g] + rest) == (kinds_outcome(target, g.0, g.1) || groups_outcome(
            target,
            rest,
        )),
{
    let s = seq![g] + rest;
    assert(s[0] == g);
    assert(s.drop_first() =~= rest);
}

proof fn lemma_kinds_outcome_is_any(target: (int, Seq<u8>), data: InitialData, kinds: Seq<WalletKind>)
    ensures
        kinds_outcome(target, data, kinds) == exists|j: int|
            0 <= j < kinds.len() && #[trigger] kind_matches(target, data, kinds[j]),
    decreases kinds.len(),
{
    if kinds.len() > 0 {
        let rest = kinds.drop_first();
        lemma_kinds_outcome_is_any(target, data, rest);
        if exists|j: int| 0 <= j < kinds.len() && #[trigger] kind_matches(target, data, kinds[j]) {
            let j = choose|j: int| 0 <= j < kinds.len() && #[trigger] kind_matches(target, data, kinds[j]);
            if j > 0 {
                assert(rest[j - 1] == kinds[j]);
                assert(kind_matches(target, data, rest[j - 1]));
            }
        }
        if exists|j: int| 0 <= j < rest.len() && #[trigger] kind_matches(target, data, rest[j]) {
            let j = choose|j: int| 0 <= j < rest.len() && #[trigger] kind_matches(target, data, rest[j]);
            assert(rest[j] == kinds[j + 1]);
            assert(kind_matches(target, data, kinds[j + 1]));
        }
    }
}

proof fn lemma_groups_outcome_is_any(target: (int, Seq<u8>), groups: Seq<(InitialData, Seq<WalletKind>)>)
    ensures
        groups_outcome(target, groups) == some_candidate_matches(target, groups),
    decreases groups.len(),
{
    if groups.len() > 0 {
        let rest = groups.drop_first();
        let g0 = groups[0];
        lemma_groups_outcome_is_any(target, rest);
        lemma_kinds_outcome_is_any(target, g0.0, g0.1);
        if some_candidate_matches(target, groups) {
            let (g, j) = choose|g: int, j: int|
                0 <= g < groups.len() && 0 <= j < groups[g].1.len() && #[trigger] kind_matches(
                    target,
                    groups[g].0,
                    groups[g].1[j],
                );
            if g > 0 {
                assert(rest[g - 1] == groups[g]);
                assert(kind_matches(target, rest[g - 1].0, rest[g - 1].1[j]));
            } else {
                assert(kind_matches(target, g0.0, g0.1[j]));
            }
        }
        if some_candidate_matches(target, rest) {
            let (g, j) = choose|g: int, j: int|
                0 <= g < rest.len() && 0 <= j < rest[g].1.len() && #[trigger] kind_matches(
                    target,
                    rest[g].0,
                    rest[g].1[j],
                );
            assert(rest[g] == groups[g + 1]);
            assert(kind_matches(target, groups[g + 1].0, groups[g + 1].1[j]));
        }
        if exists|j: int| 0 <= j < g0.1.len() && #[trigger] kind_matches(target, g0.0, g0.1[j]) {
            let j = choose|j: int| 0 <= j < g0.1.len() && #[trigger] kind_matches(target, g0.0, g0.1[j]);
            assert(kind_matches(target, groups[0].0, groups[0].1[j]));
        }
    }
}

// ---------------------------------------------------------------------------
// Laws
// ---------------------------------------------------------------------------

/// The public key that an initial wallet data holds.
pub open spec fn data_key(data: InitialData) -> Seq<u8> {
    match data {
        InitialData::V1V2 { key } => key,
        InitialData::V3 { key, .. } => key,
        InitialData::V4 { key, .. } => key,
        InitialData::V5 { key, .. } => key,
    }
}

proof fn lemma_legacy_groups_keys(key: Seq<u8>, ids: Seq<i32>)
    ensures
        forall|g: int| 0 <= g < legacy_groups(key, ids).len() ==> data_key(
            #[trigger] legacy_groups(key, ids)[g].0,
        ) == key,
    decreases ids.len(),
{
    if ids.len() > 0 {
        let tail = legacy_groups(key, ids.drop_first());
        lemma_legacy_groups_keys(key, ids.drop_first());
        let all = legacy_groups(key, ids);
        assert forall|g: int| 0 <= g < all.len() implies data_key(#[trigger] all[g].0) == key by {
            if g >= 2 {
                assert(all[g] == tail[g - 2]);
            }
        }
    }
}

proof fn lemma_v5_groups_keys(key: Seq<u8>, ids: Seq<i32>)
    ensures
        forall|g: int| 0 <= g < v5_groups(key, ids).len() ==> data_key(
            #[trigger] v5_groups(key, ids)[g].0,
        ) == key,
    decreases ids.len(),
{
    if ids.len() > 0 {
        let tail = v5_groups(key, ids.drop_first());
        lemma_v5_groups_keys(key, ids.drop_first());
        let all = v5_groups(key, ids);
        assert forall|g: int| 0 <= g < all.len() implies data_key(#[trigger] all[g].0) == key by {
            if g >= 1 {
                assert(all[g] == tail[g - 1]);
            }
        }
    }
}

/// Every candidate initial state is built from the key under test.
pub proof fn lemma_candidates_hold_key(key: Seq<u8>, workchain: i32, network: Network)
    ensures
        forall|g: int| 0 <= g < candidate_groups(key, workchain, network).len() ==> data_key(
            #[trigger] candidate_groups(key, workchain, network)[g].0,
        ) == key,
{
    let legacy = legacy_groups(key, legacy_wallet_ids(workchain));
    let fifth = v5_groups(key, v5_wallet_ids(network, workchain));
    lemma_legacy_groups_keys(key, legacy_wallet_ids(workchain));
    lemma_v5_groups_keys(key, v5_wallet_ids(network, workchain));
    let all = candidate_groups(key, workchain, network);
    assert forall|g: int| 0 <= g < all.len() implies data_key(#[trigger] all[g].0) == key by {
        if g >= 1 && g < 1 + legacy.len() {
            assert(all[g] == legacy[g - 1]);
        } else if g >= 1 + legacy.len() {
            assert(all[g] == fifth[g - 1 - legacy.len()]);
        }
    }
}


/// Whether `kind`'s code with initial data `data` is one of the candidates.
pub open spec fn is_candidate(groups: Seq<(InitialData, Seq<WalletKind>)>, data: InitialData, kind: WalletKind) -> bool {
    exists|g: int, j: int|
        0 <= g < groups.len() && 0 <= j < groups[g].1.len() && groups[g].0 == data && #[trigger] groups[g].1[j]
            == kind
}

proof fn lemma_legacy_groups_layout(key: Seq<u8>, ids: Seq<i32>)
    ensures
        legacy_groups(key, ids).len() == 2 * ids.len(),
        forall|p: int|
            0 <= p < ids.len() ==> #[trigger] legacy_groups(key, ids)[2 * p] == (
            InitialData::V3 { wallet_id: ids[p] as int, key },
            v3_kinds(),
        ) && legacy_groups(key, ids)[2 * p + 1] == (
            InitialData::V4 { wallet_id: ids[p] as int, key },
            v4_kinds(),
        ),
    decreases ids.len(),
{
    if ids.len() > 0 {
        let rest = ids.drop_first();
        lemma_legacy_groups_layout(key, rest);
        let all = legacy_groups(key, ids);
        let tail = legacy_groups(key, rest);
        assert forall|p: int| 0 <= p < ids.len() implies #[trigger] all[2 * p] == (
            InitialData::V3 { wallet_id: ids[p] as int, key },
            v3_kinds(),
        ) && all[2 * p + 1] == (InitialData::V4 { wallet_id: ids[p] as int, key }, v4_kinds()) by {
            if p > 0 {
                assert(rest[p - 1] == ids[p]);
                assert(all[2 * p] == tail[2 * (p - 1)]);
                assert(all[2 * p + 1] == tail[2 * (p - 1) + 1]);
            }
        }
    }
}

proof fn lemma_v5_groups_layout(key: Seq<u8>, ids: Seq<i32>)
    ensures
        v5_groups(key, ids).len() == ids.len(),
        forall|p: int|
            0 <= p < ids.len() ==> #[trigger] v5_groups(key, ids)[p] == (
            InitialData::V5 { wallet_id: ids[p] as int, key },
            v5_kinds(),
        ),
    decreases ids.len(),
{
    if ids.len() > 0 {
        let rest = ids.drop_first();
        lemma_v5_groups_layout(key, rest);
        let all = v5_groups(key, ids);
        let tail = v5_groups(key, rest);
        assert forall|p: int| 0 <= p < ids.len() implies #[trigger] all[p] == (
            InitialData::V5 { wallet_id: ids[p] as int, key },
            v5_kinds(),
        ) by {
            if p > 0 {
                assert(rest[p - 1] == ids[p]);
                assert(all[p] == tail[p - 1]);
            }
        }
    }
}

/// The standard wallets tried for a key: every V1/V2 code with the V1/V2
/// data; V3 and V4 code with the default wallet ID, and with the default
/// plus the workchain where that differs and fits in `i32`; V5 code with the
/// network's default V5 ID, and with its workchain-aware form where that
/// exists and differs. Each of these is a candidate.
pub proof fn lemma_standard_wallets_are_candidates(key: Seq<u8>, workchain: i32, network: Network)
    ensures
        forall|kind: WalletKind|
            #![trigger is_candidate(candidate_groups(key, workchain, network), InitialData::V1V2 { key }, kind)]
            v1v2_kinds().contains(kind) ==> is_candidate(
                candidate_groups(key, workchain, network),
                InitialData::V1V2 { key },
                kind,
            ),
        forall|kind: WalletKind|
            #![trigger is_candidate(candidate_groups(key, workchain, network), InitialData::V3 { wallet_id: spec_wallet_id_default() as int, key }, kind)]
            v3_kinds().contains(kind) ==> is_candidate(
                candidate_groups(key, workchain, network),
                InitialData::V3 { wallet_id: spec_wallet_id_default() as int, key },
                kind,
            ),
        forall|kind: WalletKind|
            #![trigger is_candidate(candidate_groups(key, workchain, network), InitialData::V4 { wallet_id: spec_wallet_id_default() as int, key }, kind)]
            v4_kinds().contains(kind) ==> is_candidate(
                candidate_groups(key, workchain, network),
                InitialData::V4 { wallet_id: spec_wallet_id_default() as int, key },
                kind,
            ),
        workchain != 0 && i32::MIN <= spec_wallet_id_default() + workchain <= i32::MAX ==> {
            &&& is_candidate(
                candidate_groups(key, workchain, network),
                InitialData::V3 { wallet_id: spec_wallet_id_default() + workchain, key },
                WalletKind::V3R2,
            )
            &&& is_candidate(
                candidate_groups(key, workchain, network),
                InitialData::V4 { wallet_id: spec_wallet_id_default() + workchain, key },
                WalletKind::V4R2,
            )
        },
        is_candidate(
            candidate_groups(key, workchain, network),
            InitialData::V5 { wallet_id: v5_default_id(network) as int, key },
            WalletKind::V5R1,
        ),
        spec_v5_workchain_id(v5_default_id(network), workchain) is Some ==> is_candidate(
            candidate_groups(key, workchain, network),
            InitialData::V5 {
                wallet_id: spec_v5_workchain_id(v5_default_id(network), workchain)->0 as int,
                key,
            },
            WalletKind::V5R1,
        ),
{
    let first = seq![(InitialData::V1V2 { key }, v1v2_kinds())];
    let lids = legacy_wallet_ids(workchain);
    let vids = v5_wallet_ids(network, workchain);
    let legacy = legacy_groups(key, lids);
    let fifth = v5_groups(key, vids);
    let all = candidate_groups(key, workchain, network);
    lemma_legacy_groups_layout(key, lids);
    lemma_v5_groups_layout(key, vids);
    assert(all =~= first + legacy + fifth);
    assert(all[0] == first[0]);
    assert forall|kind: WalletKind| v1v2_kinds().contains(kind) implies is_candidate(
        all,
        InitialData::V1V2 { key },
        kind,
    ) by {
        let j = choose|j: int| 0 <= j < v1v2_kinds().len() && v1v2_kinds()[j] == kind;
        assert(all[0].1[j] == kind);
    }
    assert(all[1] == legacy[0]);
    assert(all[2] == legacy[1]);
    assert forall|kind: WalletKind| v3_kinds().contains(kind) implies is_candidate(
        all,
        InitialData::V3 { wallet_id: spec_wallet_id_default() as int, key },
        kind,
    ) by {
        let j = choose|j: int| 0 <= j < v3_kinds().len() && v3_kinds()[j] == kind;
        assert(legacy[2 * 0int] == legacy[0]);
        assert(all[1].1[j] == kind);
    }
    assert forall|kind: WalletKind| v4_kinds().contains(kind) implies is_candidate(
        all,
        InitialData::V4 { wallet_id: spec_wallet_id_default() as int, key },
        kind,
    ) by {
        let j = choose|j: int| 0 <= j < v4_kinds().len() && v4_kinds()[j] == kind;
        assert(legacy[2 * 0int + 1] == legacy[1]);
        assert(all[2].1[j] == kind);
    }
    if workchain != 0 && i32::MIN <= spec_wallet_id_default() + workchain <= i32::MAX {
        assert(lids.len() == 2);
        assert(legacy[2 * 1int] == legacy[2]);
        assert(legacy[2 * 1int + 1] == legacy[3]);
        assert(all[3] == legacy[2]);
        assert(all[4] == legacy[3]);
        assert(all[3].1[1] == WalletKind::V3R2);
        assert(all[4].1[1] == WalletKind::V4R2);
    }
    let base = v5_default_id(network);
    assert(all[1 + legacy.len() as int] == fifth[0]);
    assert(all[1 + legacy.len() as int].1[0] == WalletKind::V5R1);
    let alt = spec_v5_workchain_id(base, workchain);
    if alt is Some {
        if alt->0 != base {
            assert(vids.len() == 2);
            assert(all[1 + legacy.len() as int + 1] == fifth[1]);
            assert(all[1 + legacy.len() as int + 1].1[0] == WalletKind::V5R1);
        }
    }
}

/// Where a standard wallet built from the key lives at the recipient, the
/// key is bound: a candidate that matches gives `Ok`, whatever rev00 is.
pub proof fn lemma_matching_candidate_binds(
    recipient: (int, Seq<u8>),
    public_key: Seq<u8>,
    network: Network,
    rev00: Option<Result<(int, Seq<u8>), ()>>,
    data: InitialData,
    kind: WalletKind,
)
    requires
        is_candidate(candidate_groups(public_key, recipient.0 as i32, network), data, kind),
        state_init_hash(kind, data) == recipient.1,
    ensures
        spec_verify_recipient_public_key(recipient, public_key, network, rev00) == Ok::<
            (),
            EncryptedCommentError,
        >(()),
{
    let groups = candidate_groups(public_key, recipient.0 as i32, network);
    let (g, j) = choose|g: int, j: int|
        0 <= g < groups.len() && 0 <= j < groups[g].1.len() && groups[g].0 == data && #[trigger] groups[g].1[j]
            == kind;
    assert(kind_matches(recipient, groups[g].0, groups[g].1[j]));
}

/// A standard wallet binds the key whatever the rev00 argument: where some
/// standard V1-V5 initial state built from the key lives at the recipient,
/// the answer is `Ok`, for every supplied rev00 address or failure.
pub proof fn lemma_standard_wallet_binds_whatever_rev00(
    recipient: (int, Seq<u8>),
    public_key: Seq<u8>,
    network: Network,
    rev00: Option<Result<(int, Seq<u8>), ()>>,
)
    requires
        some_candidate_matches(recipient, candidate_groups(public_key, recipient.0 as i32, network)),
    ensures
        spec_verify_recipient_public_key(recipient, public_key, network, rev00) == Ok::<
            (),
            EncryptedCommentError,
        >(()),
{
}

/// The rev00 argument matters only in workchain zero and only where no
/// standard wallet matched: elsewhere any two rev00 arguments give the same answer.
pub proof fn lemma_rev00_consulted_only_as_last_resort(
    recipient: (int, Seq<u8>),
    public_key: Seq<u8>,
    network: Network,
    rev00: Option<Result<(int, Seq<u8>), ()>>,
    other: Option<Result<(int, Seq<u8>), ()>>,
)
    requires
        recipient.0 != 0 || some_candidate_matches(
            recipient,
            candidate_groups(public_key, recipient.0 as i32, network),
        ),
    ensures
        spec_verify_recipient_public_key(recipient, public_key, network, rev00)
            == spec_verify_recipient_public_key(recipient, public_key, network, other),
{
}

/// Without a standard match, a rev00 argument that is neither the
/// recipient nor a failure (another address, or none) gives a mismatch; an encoding failure comes only from a rev00
/// address that could not be built, in workchain zero.
pub proof fn lemma_refusals(
    recipient: (int, Seq<u8>),
    public_key: Seq<u8>,
    network: Network,
    rev00: Option<Result<(int, Seq<u8>), ()>>,
)
    ensures
        !some_candidate_matches(recipient, candidate_groups(public_key, recipient.0 as i32, network))
            && rev00 != Some(Ok::<(int, Seq<u8>), ()>(recipient)) && rev00 != Some(
            Err::<(int, Seq<u8>), ()>(()),
        )
            ==> spec_verify_recipient_public_key(recipient, public_key, network, rev00) == Err::<
            (),
            EncryptedCommentError,
        >(EncryptedCommentError::RecipientPublicKeyMismatch),
        spec_verify_recipient_public_key(recipient, public_key, network, rev00) == Err::<
            (),
            EncryptedCommentError,
        >(EncryptedCommentError::CellEncoding) ==> recipient.0 == 0 && rev00 == Some(
            Err::<(int, Seq<u8>), ()>(()),
        ),
        !some_candidate_matches(recipient, candidate_groups(public_key, recipient.0 as i32, network))
            && recipient.0 == 0 && rev00 == Some(Err::<(int, Seq<u8>), ()>(()))
            ==> spec_verify_recipient_public_key(recipient, public_key, network, rev00) == Err::<
            (),
            EncryptedCommentError,
        >(EncryptedCommentError::CellEncoding),
{
}

/// In workchain zero, a supplied rev00 address equal to the recipient binds
/// the key.
pub proof fn lemma_rev00_binds_in_workchain_zero(
    recipient: (int, Seq<u8>),
    public_key: Seq<u8>,
    network: Network,
)
    requires
        recipient.0 == 0,
    ensures
        spec_verify_recipient_public_key(
            recipient,
            public_key,
            network,
            Some(Ok::<(int, Seq<u8>), ()>(recipient)),
        ) == Ok::<(), EncryptedCommentError>(()),
{
}

/// Soundness of the binding: a key is accepted only when the recipient's
/// account hash is the state-init hash of a standard wallet whose initial
/// data holds that very key, built in the recipient's workchain, or when
/// the recipient is in workchain zero and is the supplied Wallet rev00 address.
pub proof fn lemma_accepted_key_derives_recipient(
    recipient: (int, Seq<u8>),
    public_key: Seq<u8>,
    network: Network,
    rev00: Option<Result<(int, Seq<u8>), ()>>,
)
    requires
        spec_verify_recipient_public_key(recipient, public_key, network, rev00) is Ok,
    ensures
        (exists|g: int, j: int|
            #![trigger candidate_groups(public_key, recipient.0 as i32, network)[g].1[j]]
            {
                &&& 0 <= g < candidate_groups(public_key, recipient.0 as i32, network).len()
                &&& 0 <= j < candidate_groups(public_key, recipient.0 as i32, network)[g].1.len()
                &&& data_key(candidate_groups(public_key, recipient.0 as i32, network)[g].0) == public_key
                &&& kind_matches(
                    recipient,
                    candidate_groups(public_key, recipient.0 as i32, network)[g].0,
                    candidate_groups(public_key, recipient.0 as i32, network)[g].1[j],
                )
            }) || (recipient.0 == 0 && rev00 == Some(Ok::<(int, Seq<u8>), ()>(recipient))),
{
    let groups = candidate_groups(public_key, recipient.0 as i32, network);
    lemma_candidates_hold_key(public_key, recipient.0 as i32, network);
    if some_candidate_matches(recipient, groups) {
        let (g, j) = choose|g: int, j: int|
            0 <= g < groups.len() && 0 <= j < groups[g].1.len() && #[trigger] kind_matches(
                recipient,
                groups[g].0,
                groups[g].1[j],
            );
        assert(data_key(groups[g].0) == public_key);
    }
}

/// The workchain's byte leaves the V5 wallet ID unchanged exactly in
/// workchain zero, so the workchain-aware ID is only tried where it differs.
pub proof fn lemma_v5_workchain_id_changes_only_off_zero(default_id: i32, workchain: i32)
    requires
        -128 <= workchain <= 127,
    ensures
        spec_v5_workchain_id(default_id, workchain) is Some,
        spec_v5_workchain_id(default_id, workchain) == Some(default_id) <==> workchain == 0,
{
    let byte = workchain_byte(workchain as int);
    assert(0 <= byte < 256);
    assert(byte == 0 <==> workchain == 0);
    let bits: u32 = (byte * 0x80_0000) as u32;
    assert(bits as int == byte * 0x80_0000);
    assert(bits < 0x8000_0000);
    let y: i32 = bits as i32;
    assert(y as int == bits as int);
    assert((default_id ^ y == default_id) <==> (y == 0)) by (bit_vector);
}

/// In workchain zero only the fixed default IDs are tried: one legacy
/// V3/V4 ID and the network's default V5 ID.
pub proof fn lemma_workchain_zero_candidates(network: Network)
    ensures
        legacy_wallet_ids(0) == seq![spec_wallet_id_default()],
        v5_wallet_ids(network, 0) == seq![v5_default_id(network)],
{
    lemma_v5_workchain_id_changes_only_off_zero(v5_default_id(network), 0);
}


// ---------------------------------------------------------------------------
// Executable check
// ---------------------------------------------------------------------------

/// V5's client context encodes workchain as int8 immediately after its tag bit.
/// The remaining default context bits and network ID are already encoded in
/// the workchain-zero constant.
pub fn v5_workchain_id(default_id: i32, workchain: i32) -> (r: Option<i32>)
    ensures
        r == spec_v5_workchain_id(default_id, workchain),
{
    if workchain < -128 || workchain > 127 {
        return None;
    }
    let byte: u32 = if workchain < 0 {
        (workchain + 256) as u32
    } else {
        workchain as u32
    };
    let bits: u32 = byte * 0x80_0000;
    Some(default_id ^ (bits as i32))
}


/// Whether the recipient is among the candidate addresses.
pub fn recipient_among(recipient: &AccountAddress, candidates: &[AccountAddress]) -> (r: bool)
    ensures
        r == exists|i: int| 0 <= i < candidates@.len() && #[trigger] candidates@[i]@ == recipient@,
{
    let n = candidates.len();
    let mut i: usize = 0;
    while i < n
        invariant
            n == candidates@.len(),
            i <= n,
            forall|j: int| 0 <= j < i ==> #[trigger] candidates@[j]@ != recipient@,
        decreases n - i,
    {
        if candidates[i].same_account(recipient) {
            return true;
        }
        i = i + 1;
    }
    false
}

/// The Wallet rev00 step, taken once no standard V1-V5 wallet matched.
pub fn decide_rev00(recipient: &AccountAddress, rev00: Option<Result<AccountAddress, ()>>) -> (r: Result<
    (),
    EncryptedCommentError,
>)
    ensures
        r == binding_result(recipient@, false, rev00_view(rev00)),
{
    if recipient.workchain == 0 {
        match rev00 {
            Some(Ok(address)) => {
                if address.same_account(recipient) {
                    return Ok(());
                }
            },
            Some(Err(())) => return Err(EncryptedCommentError::CellEncoding),
            None => {},
        }
    }
    Err(EncryptedCommentError::RecipientPublicKeyMismatch)
}

/// Derives the address of each kind's code with `data` in the recipient's
/// workchain, and tells whether the recipient is among them.
fn matches_versions(recipient: &TonAddressString, kinds: &[WalletKind], data: &DataCell) -> (r: Result<
    bool,
    EncryptedCommentError,
>)
    ensures
        r == Ok::<bool, EncryptedCommentError>(
            kinds_outcome(recipient.address(), data.content(), kinds@),
        ),
{
    let ghost target = recipient.address();
    let workchain = recipient.as_address().workchain;
    let n = kinds.len();
    let mut addresses: Vec<AccountAddress> = Vec::new();
    let mut i: usize = 0;
    while i < n
        invariant
            n == kinds@.len(),
            i <= n,
            addresses@.len() == i,
            target == recipient.address(),
            workchain as int == target.0,
            forall|j: int|
                0 <= j < i ==> (#[trigger] addresses@[j]@ == target) == kind_matches(
                    target,
                    data.content(),
                    kinds@[j],
                ),
        decreases n - i,
    {
        let code = match wallet_code(kinds[i]) {
            Ok(code) => code,
            Err(_) => return Err(EncryptedCommentError::CellEncoding),
        };
        let address = match derive_state_init_address(&code, data, workchain) {
            Ok(address) => address,
            Err(_) => return Err(EncryptedCommentError::CellEncoding),
        };
        addresses.push(address);
        i = i + 1;
    }
    let found = recipient_among(recipient.as_address(), addresses.as_slice());
    proof {
        lemma_kinds_outcome_is_any(target, data.content(), kinds@);
        if found {
            let j = choose|j: int| 0 <= j < addresses@.len() && #[trigger] addresses@[j]@ == target;
            assert(kind_matches(target, data.content(), kinds@[j]));
        }
        if kinds_outcome(target, data.content(), kinds@) {
            let j = choose|j: int| 0 <= j < kinds@.len() && #[trigger] kind_matches(target, data.content(), kinds@[j]);
            assert(addresses@[j]@ == target);
        }
    }
    Ok(found)
}

/// Authenticates a supplied key by reconstructing standard initial wallet states.
///
/// This works before deployment and never trusts a provider response. V1-V5
/// use their standard wallet IDs, including the workchain-aware defaults.
/// Wallet rev00 is tried last, in workchain zero only, with the network's
/// subwallet ID; the `ton` crate this library builds with ships neither its
/// code nor its data layout, so its address is the caller's outside result
/// `rev00` (`None` where the caller has no rev00 contract). Custom wallet
/// IDs and unknown wallet contracts cannot be proven with only a key and are
/// rejected. This binds the initial key, which the engine retains for
/// encrypted comments even after a signing-key rotation.
pub fn verify_recipient_public_key(
    recipient: &TonAddressString,
    public_key: &[u8; 32],
    network: Network,
    rev00: Option<Result<AccountAddress, ()>>,
) -> (r: Result<(), EncryptedCommentError>)
    ensures
        r == spec_verify_recipient_public_key(recipient.address(), public_key@, network, rev00_view(rev00)),
        some_candidate_matches(
            recipient.address(),
            candidate_groups(public_key@, recipient.address().0 as i32, network),
        ) ==> r == Ok::<(), EncryptedCommentError>(()),
        r is Ok ==> some_candidate_matches(
            recipient.address(),
            candidate_groups(public_key@, recipient.address().0 as i32, network),
        ) || (recipient.address().0 == 0 && rev00_view(rev00) == Some(
            Ok::<(int, Seq<u8>), ()>(recipient.address()),
        )),
        recipient.address().0 == 0 && rev00_view(rev00) == Some(
            Ok::<(int, Seq<u8>), ()>(recipient.address()),
        ) ==> r == Ok::<(), EncryptedCommentError>(()),
        r == Err::<(), EncryptedCommentError>(EncryptedCommentError::CellEncoding) ==> (
        recipient.address().0 == 0 && rev00 is Some && rev00->0 is Err),
{
    let key = match ton_hash_from_slice(public_key.as_slice()) {
        Ok(key) => key,
        Err(_) => return Err(EncryptedCommentError::CellEncoding),
    };
    let workchain = recipient.as_address().workchain;
    let ghost target = recipient.address();
    let ghost k = public_key@;
    assert(key.bytes() == k);
    let ghost legacy = legacy_groups(k, legacy_wallet_ids(workchain));
    let ghost fifth = v5_groups(k, v5_wallet_ids(network, workchain));
    let ghost first = seq![(InitialData::V1V2 { key: k }, v1v2_kinds())];
    proof {
        assert(candidate_groups(k, target.0 as i32, network) =~= first + (legacy + fifth));
        lemma_groups_outcome_cons(target, first[0], legacy + fifth);
        lemma_groups_outcome_is_any(target, candidate_groups(k, workchain, network));
    }

    let data = match v1v2_data_cell(&key) {
        Ok(data) => data,
        Err(_) => return Err(EncryptedCommentError::CellEncoding),
    };
    let v1v2 = vec![WalletKind::V1R1, WalletKind::V1R2, WalletKind::V1R3, WalletKind::V2R1, WalletKind::V2R2];
    assert(v1v2@ =~= v1v2_kinds());
    if matches_versions(recipient, v1v2.as_slice(), &data)? {
        return Ok(());
    }
    // V3/V4 also accept the workchain-aware legacy ID: the default plus the workchain.
    let default_id = wallet_id_default();
    let mut legacy_ids: Vec<i32> = Vec::new();
    legacy_ids.push(default_id);
    match default_id.checked_add(workchain) {
        Some(id) => {
            if id != default_id {
                legacy_ids.push(id);
            }
        },
        None => {},
    }
    assert(legacy_ids@ =~= legacy_wallet_ids(workchain));
    let v3 = vec![WalletKind::V3R1, WalletKind::V3R2];
    let v4 = vec![WalletKind::V4R1, WalletKind::V4R2];
    assert(v3@ =~= v3_kinds());
    assert(v4@ =~= v4_kinds());
    let mut i: usize = 0;
    assert(legacy_ids@.skip(0) =~= legacy_ids@);
    while i < legacy_ids.len()
        invariant
            i <= legacy_ids@.len(),
            legacy_ids@ == legacy_wallet_ids(workchain),
            key.bytes() == k,
            k == public_key@,
            groups_outcome(target, candidate_groups(k, workchain, network)) == some_candidate_matches(
                target,
                candidate_groups(k, workchain, network),
            ),
            fifth == v5_groups(k, v5_wallet_ids(network, workchain)),
            target == recipient.address(),
            workchain as int == target.0,
            v3@ == v3_kinds(),
            v4@ == v4_kinds(),
            groups_outcome(target, candidate_groups(k, workchain, network)) == groups_outcome(
                target,
                legacy_groups(k, legacy_ids@.skip(i as int)) + fifth,
            ),
        decreases legacy_ids@.len() - i,
    {
        let wallet_id = legacy_ids[i];
        let ghost rest = legacy_groups(k, legacy_ids@.skip(i + 1));
        let ghost g3 = (InitialData::V3 { wallet_id: wallet_id as int, key: k }, v3_kinds());
        let ghost g4 = (InitialData::V4 { wallet_id: wallet_id as int, key: k }, v4_kinds());
        proof {
            let s = legacy_ids@.skip(i as int);
            assert(s[0] == wallet_id);
            assert(s.drop_first() =~= legacy_ids@.skip(i + 1));
            assert(legacy_groups(k, s) + fifth =~= seq![g3] + (seq![g4] + (rest + fifth)));
            lemma_groups_outcome_cons(target, g3, seq![g4] + (rest + fifth));
            lemma_groups_outcome_cons(target, g4, rest + fifth);
        }
        let data = match v3_data_cell(wallet_id, &key) {
            Ok(data) => data,
            Err(_) => return Err(EncryptedCommentError::CellEncoding),
        };
        if matches_versions(recipient, v3.as_slice(), &data)? {
            return Ok(());
        }
        let data = match v4_data_cell(wallet_id, &key) {
            Ok(data) => data,
            Err(_) => return Err(EncryptedCommentError::CellEncoding),
        };
        if matches_versions(recipient, v4.as_slice(), &data)? {
            return Ok(());
        }
        i = i + 1;
    }
    proof {
        assert(legacy_ids@.skip(i as int) =~= Seq::<i32>::empty());
        assert(legacy_groups(k, legacy_ids@.skip(i as int)) + fifth =~= fifth);
    }

    let v5_id = match network {
        Network::Mainnet => v5_id_default_mainnet(),
        Network::Testnet => v5_id_default_testnet(),
    };
    let mut v5_ids: Vec<i32> = Vec::new();
    v5_ids.push(v5_id);
    match v5_workchain_id(v5_id, workchain) {
        Some(id) => {
            if id != v5_id {
                v5_ids.push(id);
            }
        },
        None => {},
    }
    assert(v5_ids@ =~= v5_wallet_ids(network, workchain));
    let v5 = vec![WalletKind::V5R1];
    assert(v5@ =~= v5_kinds());
    let mut j: usize = 0;
    assert(v5_ids@.skip(0) =~= v5_ids@);
    while j < v5_ids.len()
        invariant
            j <= v5_ids@.len(),
            v5_ids@ == v5_wallet_ids(network, workchain),
            key.bytes() == k,
            k == public_key@,
            groups_outcome(target, candidate_groups(k, workchain, network)) == some_candidate_matches(
                target,
                candidate_groups(k, workchain, network),
            ),
            fifth == v5_groups(k, v5_wallet_ids(network, workchain)),
            target == recipient.address(),
            workchain as int == target.0,
            v5@ == v5_kinds(),
            groups_outcome(target, candidate_groups(k, workchain, network)) == groups_outcome(
                target,
                v5_groups(k, v5_ids@.skip(j as int)),
            ),
        decreases v5_ids@.len() - j,
    {
        let wallet_id = v5_ids[j];
        let ghost rest = v5_groups(k, v5_ids@.skip(j + 1));
        let ghost g5 = (InitialData::V5 { wallet_id: wallet_id as int, key: k }, v5_kinds());
        proof {
            let s = v5_ids@.skip(j as int);
            assert(s[0] == wallet_id);
            assert(s.drop_first() =~= v5_ids@.skip(j + 1));
            assert(v5_groups(k, s) =~= seq![g5] + rest);
            lemma_groups_outcome_cons(target, g5, rest);
        }
        let data = match v5_data_cell(wallet_id, &key) {
            Ok(data) => data,
            Err(_) => return Err(EncryptedCommentError::CellEncoding),
        };
        if matches_versions(recipient, v5.as_slice(), &data)? {
            return Ok(());
        }
        j = j + 1;
    }
    proof {
        assert(v5_ids@.skip(j as int) =~= Seq::<i32>::empty());
        assert(v5_groups(k, v5_ids@.skip(j as int)) =~= Seq::<(InitialData, Seq<WalletKind>)>::empty());
    }
    proof {
        assert(groups_outcome(target, Seq::<(InitialData, Seq<WalletKind>)>::empty()) == false);
    }
    decide_rev00(recipient.as_address(), rev00)
}

} // verus!
