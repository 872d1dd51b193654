//! Preparation of alternative signed transfer delivery forms.
//!
//! Preparing a transfer fetches the account state and `seqno` once,
//! resolves one `valid_until`, and unlocks the protected phrase once, so
//! both delivery forms it signs authorize the same transfer. It neither
//! reads nor writes the send journal and submits nothing. The network
//! requests, the secret store and the signing are performed by the caller:
//! each step below takes what the previous action produced and answers
//! the next action, so the order of the work is decided here.
//!
//! Failure diagnostics are bounded to the client's diagnostic limit.
use vstd::prelude::*;

use crate::domain::address::AccountAddress;
use crate::engine::state::{bounded_text, well_formed, AccountStatus, ClientView, WalletClient, WalletClientError};

verus! {

/// The transfer amount could not be totalled exactly.
#[derive(Clone, Copy, Debug, PartialEq, Eq, Structural)]
pub struct InvalidAmount;

/// A preparation that has claimed the client's resolution slot, with what
/// it has learnt so far.
#[derive(Clone, Debug)]
pub struct TransferPreparation {
    /// The resolution generation this preparation owns.
    pub generation: u64,
    /// The exact total the transfer moves, where it is known.
    pub requested_nanograms: Option<u64>,
    /// Identifier of the account-state request.
    pub account_request_id: u64,
    /// Identifier of the `seqno` request.
    pub seqno_request_id: u64,
    /// Reference of the protected mnemonic to read.
    pub secret_ref: String,
    /// The operation this transfer belongs to.
    pub operation_id: String,
    /// When the account state was synchronized.
    pub sync_utime: u64,
    /// The wallet's `seqno` for this transfer.
    pub seqno: u32,
    /// The expiry both delivery forms share.
    pub valid_until: u32,
}

/// What the account-state response said.
#[derive(Clone, Copy, Debug)]
pub struct AccountSnapshot {
    pub balance_nanograms: u64,
    pub status: AccountStatus,
    pub sync_utime: u64,
}

/// Why the protected mnemonic is read.
#[derive(Clone, Copy, Debug, PartialEq, Eq, Structural)]
pub enum SecretAccessReason {
    SignTransfer,
}

/// A request to the platform host for the protected mnemonic.
#[derive(Clone, Debug)]
pub struct ProtectedSecretRead {
    pub secret_ref: String,
    pub reason: SecretAccessReason,
    pub prompt: String,
}

/// The two signed delivery forms of one transfer.
#[derive(Clone, Debug)]
pub struct PreparedTransfer {
    pub operation_id: String,
    pub external_boc: String,
    pub internal_boc: String,
    pub seqno: u32,
    pub valid_until: u32,
}

/// The work a preparation asks for next.
#[derive(Clone, Debug)]
pub enum PreparationAction {
    /// Build the account-state request with this identifier.
    BuildAccountRequest { request_id: u64 },
    /// Build the `seqno` request with this identifier.
    BuildSeqnoRequest { request_id: u64 },
    /// Execute the account-state request.
    FetchAccount { request_id: u64 },
    /// Execute the `seqno` request.
    FetchSeqno { request_id: u64 },
    /// Resolve the transfer's `valid_until` from the account's sync time.
    ResolveExpiration { sync_utime: u64 },
    /// Ask the platform host for the protected mnemonic.
    ReadSecret { read: ProtectedSecretRead },
    /// Derive the wallet address from the mnemonic.
    DeriveSource,
    /// Sign both delivery forms with this `seqno` and expiry.
    SignTransfer { seqno: u32, valid_until: u32 },
    /// Nothing more: the transfer is prepared.
    Finished { transfer: PreparedTransfer },
}

/// The preparation goes on: a further action is asked for.
pub open spec fn continues(r: Result<PreparationAction, WalletClientError>) -> bool {
    r matches Ok(a) && !(a is Finished)
}

/// The prompt shown when the mnemonic is unlocked for signing.
pub open spec fn sign_transfer_prompt() -> Seq<char> {
    "Authenticate to prepare this wallet transaction"@
}

/// The client after giving up resolution `generation`: the slot is freed
/// if `generation` holds it, and nothing changes otherwise.
pub open spec fn released(v: ClientView, generation: u64) -> ClientView {
    if v.resolution == Some(generation) {
        ClientView { resolution: None, ..v }
    } else {
        v
    }
}

/// A generation that has ended: it was handed out and no longer holds the slot.
pub open spec fn retired(v: ClientView, generation: u64) -> bool {
    generation <= v.resolution_generation && v.resolution != Some(generation)
}

/// Whether a preparation can claim the resolution slot of `v`.
pub open spec fn can_begin(v: ClientView) -> bool {
    &&& v.running
    &&& v.secret_ref is Some
    &&& !v.send_active
    &&& v.resolution is None
    &&& v.resolution_generation < u64::MAX
    &&& v.next_request_id < u64::MAX - 1
}

/// The client after a preparation's setup (`begin_transfer_preparation`,
/// `settle_account_request`, `settle_seqno_request`) claimed its resolution slot.
pub open spec fn begun(v: ClientView) -> ClientView {
    ClientView {
        resolution: Some((v.resolution_generation + 1) as u64),
        resolution_generation: (v.resolution_generation + 1) as u64,
        next_request_id: (v.next_request_id + 2) as u64,
        ..v
    }
}

/// The diagnostic given when the unlocked mnemonic derives another wallet.
pub open spec fn foreign_mnemonic_diagnostic() -> Seq<char> {
    "protected mnemonic does not belong to this wallet"@
}

/// The prefix of the diagnostic given when signing fails.
pub open spec fn signing_failure_prefix() -> Seq<char> {
    "failed to prepare transfer messages: "@
}

/// What a readable account state decides: refuse an uncoverable exact
/// total, then go by the account's status (an active account needs its
/// `seqno` fetched, an undeployed one goes on to the expiry).
pub open spec fn account_decision(
    requested: Option<u64>,
    account: AccountSnapshot,
    seqno_request_id: u64,
) -> Result<PreparationAction, WalletClientError> {
    if requested is Some && requested->0 > account.balance_nanograms {
        Err(
            WalletClientError::InsufficientBalance {
                available_nanograms: account.balance_nanograms,
                requested_nanograms: requested->0,
            },
        )
    } else {
        match account.status {
            AccountStatus::Active => Ok(PreparationAction::FetchSeqno { request_id: seqno_request_id }),
            AccountStatus::Nonexistent | AccountStatus::Uninitialized => Ok(
                PreparationAction::ResolveExpiration { sync_utime: account.sync_utime },
            ),
            AccountStatus::Frozen | AccountStatus::Unknown => Err(
                WalletClientError::SendAccountUnavailable { status: account.status },
            ),
        }
    }
}

impl WalletClient {
    /// Succeeds exactly when `generation` is the resolution in progress.
    pub fn ensure_transfer_preparation_current(&self, generation: u64) -> (r: Result<
        (),
        WalletClientError,
    >)
        ensures
            r matches Ok(_) <==> self@.resolution == Some(generation),
            r matches Err(e) ==> e == WalletClientError::StateUnavailable,
    {
        if self.is_current_resolution(generation) {
            Ok(())
        } else {
            Err(WalletClientError::StateUnavailable)
        }
    }

    /// Ends resolution `generation` successfully; refuses if it is no
    /// longer the one in progress, and then changes nothing. A completed
    /// generation is retired.
    pub fn complete_transfer_preparation(&mut self, generation: u64) -> (r: Result<
        (),
        WalletClientError,
    >)
        ensures
            r matches Ok(_) <==> old(self)@.resolution == Some(generation),
            r matches Err(e) ==> e == WalletClientError::StateUnavailable,
            final(self)@ == released(old(self)@, generation),
            r is Ok ==> retired(final(self)@, generation),
    {
        self.resolution_is_latest();
        if !self.is_current_resolution(generation) {
            return Err(WalletClientError::StateUnavailable);
        }
        self.clear_resolution();
        Ok(())
    }

    /// Abandons resolution `generation` if it is still the one in progress.
    pub fn discard_transfer_preparation(&mut self, generation: u64)
        ensures
            final(self)@ == released(old(self)@, generation),
            old(self)@.resolution == Some(generation) ==> retired(final(self)@, generation),
    {
        self.resolution_is_latest();
        if self.is_current_resolution(generation) {
            self.clear_resolution();
        }
    }

    /// Abandons resolution `generation` and reports the failure with `message`.
    /// The message is bounded to the client's diagnostic limit.
    pub fn fail_transfer_preparation(&mut self, generation: u64, message: String) -> (e:
        WalletClientError)
        ensures
            final(self)@ == released(old(self)@, generation),
            old(self)@.resolution == Some(generation) ==> retired(final(self)@, generation),
            e matches WalletClientError::SendFailed { diagnostic } && diagnostic@ == bounded_text(
                message@,
                old(self)@.diagnostic_limit as nat,
            ),
    {
        self.discard_transfer_preparation(generation);
        let diagnostic = self.bounded_diagnostic(message);
        WalletClientError::SendFailed { diagnostic }
    }

    /// Starts a new preparation and asks for the account-state request to
    /// be built.
    ///
    /// Refuses a request whose total is malformed, a stopped client, a
    /// wallet without a protected mnemonic here, and a client already
    /// sending or resolving; then takes the next generation and the account
    /// request's identifier, stopping where a counter is exhausted. The
    /// resolution slot is claimed once both requests are built
    /// (`settle_seqno_request`); the caller holds the client throughout
    /// these setup steps.
    pub fn begin_transfer_preparation(
        &mut self,
        requested: Result<Option<u64>, InvalidAmount>,
        operation_id: String,
    ) -> (r: Result<(TransferPreparation, PreparationAction), WalletClientError>)
        ensures
            requested is Err ==> r == Err::<(TransferPreparation, PreparationAction), _>(
                WalletClientError::InvalidSendRequest,
            ) && final(self)@ == old(self)@,
            requested is Ok && !old(self)@.running ==> r == Err::<
                (TransferPreparation, PreparationAction),
                _,
            >(WalletClientError::ClientStopped) && final(self)@ == old(self)@,
            requested is Ok && old(self)@.running && old(self)@.secret_ref is None ==> r == Err::<
                (TransferPreparation, PreparationAction),
                _,
            >(WalletClientError::LocalSigningUnavailable) && final(self)@ == old(self)@,
            requested is Ok && old(self)@.running && old(self)@.secret_ref is Some && (
            old(self)@.send_active || old(self)@.resolution is Some) ==> r == Err::<
                (TransferPreparation, PreparationAction),
                _,
            >(WalletClientError::SendAlreadyInProgress) && final(self)@ == old(self)@,
            requested is Ok && old(self)@.running && old(self)@.secret_ref is Some
                && !old(self)@.send_active && old(self)@.resolution is None
                && old(self)@.resolution_generation == u64::MAX ==> r == Err::<
                (TransferPreparation, PreparationAction),
                _,
            >(WalletClientError::IdentifierExhausted) && final(self)@ == old(self)@,
            requested is Ok && old(self)@.running && old(self)@.secret_ref is Some
                && !old(self)@.send_active && old(self)@.resolution is None
                && old(self)@.resolution_generation < u64::MAX && old(self)@.next_request_id
                == u64::MAX ==> r == Err::<(TransferPreparation, PreparationAction), _>(
                WalletClientError::IdentifierExhausted,
            ) && final(self)@ == (ClientView {
                resolution_generation: (old(self)@.resolution_generation + 1) as u64,
                ..old(self)@
            }),
            requested is Ok && old(self)@.running && old(self)@.secret_ref is Some
                && !old(self)@.send_active && old(self)@.resolution is None
                && old(self)@.resolution_generation < u64::MAX && old(self)@.next_request_id
                < u64::MAX ==> {
                &&& r matches Ok((p, a)) && p.generation == old(self)@.resolution_generation + 1
                    && p.requested_nanograms == requested->Ok_0 && p.account_request_id
                    == old(self)@.next_request_id && p.seqno_request_id == 0 && Some(p.secret_ref@)
                    == old(self)@.secret_ref && p.operation_id == operation_id && p.sync_utime == 0
                    && p.seqno == 0 && p.valid_until == 0 && a == (
                PreparationAction::BuildAccountRequest { request_id: p.account_request_id })
                &&& final(self)@ == (ClientView {
                    resolution_generation: (old(self)@.resolution_generation + 1) as u64,
                    next_request_id: (old(self)@.next_request_id + 1) as u64,
                    ..old(self)@
                })
            },
    {
        let requested_nanograms = match requested {
            Ok(total) => total,
            Err(_) => return Err(WalletClientError::InvalidSendRequest),
        };
        self.ensure_running()?;
        let secret_ref = match self.local_secret_ref() {
            Some(secret_ref) => secret_ref,
            None => return Err(WalletClientError::LocalSigningUnavailable),
        };
        if self.send_active() || self.resolution_active() {
            return Err(WalletClientError::SendAlreadyInProgress);
        }
        let generation = match self.claim_next_generation() {
            Some(generation) => generation,
            None => return Err(WalletClientError::IdentifierExhausted),
        };
        let account_request_id = self.allocate_request_id()?;
        let preparation = TransferPreparation {
            generation,
            requested_nanograms,
            account_request_id,
            seqno_request_id: 0,
            secret_ref,
            operation_id,
            sync_utime: 0,
            seqno: 0,
            valid_until: 0,
        };
        Ok((preparation, PreparationAction::BuildAccountRequest { request_id: account_request_id }))
    }

    /// Decides on building the account-state request: a failure is passed
    /// on (the slot was not claimed); otherwise the `seqno` request's
    /// identifier is taken and that request is to be built.
    pub fn settle_account_request(
        &mut self,
        preparation: &mut TransferPreparation,
        built: Result<(), WalletClientError>,
    ) -> (r: Result<PreparationAction, WalletClientError>)
        ensures
            built matches Err(e) ==> r == Err::<PreparationAction, _>(e) && final(self)@ == old(self)@
                && *final(preparation) == *old(preparation),
            built is Ok && old(self)@.next_request_id == u64::MAX ==> r == Err::<PreparationAction, _>(
                WalletClientError::IdentifierExhausted,
            ) && final(self)@ == old(self)@ && *final(preparation) == *old(preparation),
            built is Ok && old(self)@.next_request_id < u64::MAX ==> {
                &&& r == Ok::<PreparationAction, WalletClientError>(
                    PreparationAction::BuildSeqnoRequest { request_id: old(self)@.next_request_id },
                )
                &&& *final(preparation) == (TransferPreparation {
                    seqno_request_id: old(self)@.next_request_id,
                    ..*old(preparation)
                })
                &&& final(self)@ == (ClientView {
                    next_request_id: (old(self)@.next_request_id + 1) as u64,
                    ..old(self)@
                })
            },
    {
        built?;
        let seqno_request_id = self.allocate_request_id()?;
        preparation.seqno_request_id = seqno_request_id;
        Ok(PreparationAction::BuildSeqnoRequest { request_id: seqno_request_id })
    }

    /// Decides on building the `seqno` request: a failure is passed on (the
    /// slot was not claimed); otherwise the preparation claims the resolution
    /// slot and asks for the account state. The slot is claimed only while
    /// it is free and this preparation's generation is the latest handed
    /// out, which holds while the caller holds the client during setup.
    pub fn settle_seqno_request(
        &mut self,
        preparation: &TransferPreparation,
        built: Result<(), WalletClientError>,
    ) -> (r: Result<PreparationAction, WalletClientError>)
        ensures
            built matches Err(e) ==> r == Err::<PreparationAction, _>(e) && final(self)@ == old(self)@,
            built is Ok && old(self)@.resolution is None && old(self)@.resolution_generation
                == preparation.generation ==> r == Ok::<PreparationAction, WalletClientError>(
                PreparationAction::FetchAccount { request_id: preparation.account_request_id },
            ) && final(self)@ == (ClientView {
                resolution: Some(preparation.generation),
                ..old(self)@
            }),
            built is Ok && !(old(self)@.resolution is None && old(self)@.resolution_generation
                == preparation.generation) ==> r == Err::<PreparationAction, _>(
                WalletClientError::StateUnavailable,
            ) && final(self)@ == old(self)@,
    {
        built?;
        if self.resolution_active() || self.resolution_generation() != preparation.generation {
            return Err(WalletClientError::StateUnavailable);
        }
        self.activate_latest_resolution();
        Ok(PreparationAction::FetchAccount { request_id: preparation.account_request_id })
    }

    /// Decides on the account-state response.
    ///
    /// A request that failed outright abandons the preparation and passes
    /// its error on; an unreadable response fails it with the response's
    /// diagnostic. A readable state is refused when its balance cannot
    /// cover the exact total or when the account is frozen or of unknown
    /// status (both abandon the preparation); otherwise an active account
    /// needs its `seqno` fetched and an undeployed one starts at zero.
    pub fn settle_account_state(
        &mut self,
        preparation: &mut TransferPreparation,
        fetched: Result<Result<AccountSnapshot, String>, WalletClientError>,
    ) -> (r: Result<PreparationAction, WalletClientError>)
        ensures
            r is Err ==> final(self)@ == released(old(self)@, old(preparation).generation),
            !continues(r) ==> final(self)@.resolution != Some(old(preparation).generation),
            r is Ok ==> final(self)@ == old(self)@,
            r is Err ==> *final(preparation) == *old(preparation),
            fetched matches Err(e) ==> r == Err::<PreparationAction, _>(e),
            fetched matches Ok(Err(m)) ==> (r matches Err(WalletClientError::SendFailed { diagnostic })
                && diagnostic@ == bounded_text(m@, old(self)@.diagnostic_limit as nat)),
            fetched matches Ok(Ok(account)) ==> r == account_decision(
                old(preparation).requested_nanograms,
                account,
                old(preparation).seqno_request_id,
            ),
            fetched matches Ok(Ok(account)) ==> (old(preparation).requested_nanograms is Some
                && old(preparation).requested_nanograms->0 > account.balance_nanograms ==> r == Err::<
                PreparationAction,
                _,
            >(
                WalletClientError::InsufficientBalance {
                    available_nanograms: account.balance_nanograms,
                    requested_nanograms: old(preparation).requested_nanograms->0,
                },
            ) && final(self)@.resolution != Some(old(preparation).generation)),
            fetched matches Ok(Ok(account)) ==> (r is Ok ==> (old(preparation).requested_nanograms is None
                || old(preparation).requested_nanograms->0 <= account.balance_nanograms)),
            fetched matches Ok(Ok(account)) ==> ((old(preparation).requested_nanograms is None
                || old(preparation).requested_nanograms->0 <= account.balance_nanograms) ==> {
                &&& account.status == AccountStatus::Active ==> r == Ok::<
                    PreparationAction,
                    WalletClientError,
                >(PreparationAction::FetchSeqno { request_id: old(preparation).seqno_request_id })
                &&& (account.status == AccountStatus::Nonexistent || account.status
                    == AccountStatus::Uninitialized) ==> r == Ok::<PreparationAction, WalletClientError>(
                    PreparationAction::ResolveExpiration { sync_utime: account.sync_utime },
                )
                &&& (account.status == AccountStatus::Frozen || account.status
                    == AccountStatus::Unknown) ==> r == Err::<PreparationAction, WalletClientError>(
                    WalletClientError::SendAccountUnavailable { status: account.status },
                )
            }),
            fetched matches Ok(Ok(account)) ==> (r matches Ok(PreparationAction::FetchSeqno { .. })
                ==> *final(preparation) == (TransferPreparation {
                sync_utime: account.sync_utime,
                ..*old(preparation)
            })),
            fetched matches Ok(Ok(account)) ==> (r matches Ok(
                PreparationAction::ResolveExpiration { .. },
            ) ==> *final(preparation) == (TransferPreparation {
                sync_utime: account.sync_utime,
                seqno: 0,
                ..*old(preparation)
            })),
    {
        let generation = preparation.generation;
        let account = match fetched {
            Ok(Ok(account)) => account,
            Ok(Err(message)) => return Err(self.fail_transfer_preparation(generation, message)),
            Err(error) => {
                self.discard_transfer_preparation(generation);
                return Err(error);
            },
        };
        if let Some(requested_nanograms) = preparation.requested_nanograms {
            if requested_nanograms > account.balance_nanograms {
                self.discard_transfer_preparation(generation);
                return Err(
                    WalletClientError::InsufficientBalance {
                        available_nanograms: account.balance_nanograms,
                        requested_nanograms,
                    },
                );
            }
        }
        match account.status {
            AccountStatus::Active => {
                preparation.sync_utime = account.sync_utime;
                Ok(PreparationAction::FetchSeqno { request_id: preparation.seqno_request_id })
            },
            AccountStatus::Nonexistent | AccountStatus::Uninitialized => {
                preparation.sync_utime = account.sync_utime;
                preparation.seqno = 0;
                Ok(PreparationAction::ResolveExpiration { sync_utime: account.sync_utime })
            },
            AccountStatus::Frozen | AccountStatus::Unknown => {
                self.discard_transfer_preparation(generation);
                Err(WalletClientError::SendAccountUnavailable { status: account.status })
            },
        }
    }

    /// Decides on the `seqno` response of an active account: a failed
    /// request abandons the preparation and passes its error on; an
    /// unreadable response fails it with its diagnostic; a `seqno` is kept
    /// and the expiry is resolved next.
    pub fn settle_seqno(
        &mut self,
        preparation: &mut TransferPreparation,
        fetched: Result<Result<u32, String>, WalletClientError>,
    ) -> (r: Result<PreparationAction, WalletClientError>)
        ensures
            r is Err ==> final(self)@ == released(old(self)@, old(preparation).generation),
            !continues(r) ==> final(self)@.resolution != Some(old(preparation).generation),
            r is Ok ==> final(self)@ == old(self)@,
            r is Err ==> *final(preparation) == *old(preparation),
            fetched matches Err(e) ==> r == Err::<PreparationAction, _>(e),
            fetched matches Ok(Err(m)) ==> (r matches Err(WalletClientError::SendFailed { diagnostic })
                && diagnostic@ == bounded_text(m@, old(self)@.diagnostic_limit as nat)),
            fetched matches Ok(Ok(seqno)) ==> r == Ok::<PreparationAction, WalletClientError>(
                PreparationAction::ResolveExpiration { sync_utime: old(preparation).sync_utime },
            ) && *final(preparation) == (TransferPreparation { seqno, ..*old(preparation) }),
    {
        match fetched {
            Ok(Ok(seqno)) => {
                preparation.seqno = seqno;
                Ok(PreparationAction::ResolveExpiration { sync_utime: preparation.sync_utime })
            },
            Ok(Err(message)) => Err(self.fail_transfer_preparation(preparation.generation, message)),
            Err(error) => {
                self.discard_transfer_preparation(preparation.generation);
                Err(error)
            },
        }
    }

    /// Decides on the resolved expiration: a refusal fails the preparation
    /// with its diagnostic; an expiry is kept and the protected mnemonic is
    /// asked for, for signing, with the signing prompt.
    pub fn settle_expiration(
        &mut self,
        preparation: &mut TransferPreparation,
        resolved: Result<u32, String>,
    ) -> (r: Result<PreparationAction, WalletClientError>)
        ensures
            r is Err ==> final(self)@ == released(old(self)@, old(preparation).generation),
            !continues(r) ==> final(self)@.resolution != Some(old(preparation).generation),
            r is Ok ==> final(self)@ == old(self)@,
            r is Err ==> *final(preparation) == *old(preparation),
            resolved matches Err(m) ==> (r matches Err(WalletClientError::SendFailed { diagnostic })
                && diagnostic@ == bounded_text(m@, old(self)@.diagnostic_limit as nat)),
            resolved matches Ok(valid_until) ==> *final(preparation) == (TransferPreparation {
                valid_until,
                ..*old(preparation)
            }),
            resolved is Ok ==> (r matches Ok(PreparationAction::ReadSecret { read }) && read.secret_ref
                == old(preparation).secret_ref && read.reason == SecretAccessReason::SignTransfer
                && read.prompt@ == sign_transfer_prompt()),
    {
        match resolved {
            Ok(valid_until) => {
                preparation.valid_until = valid_until;
                let prompt = String::from_str("Authenticate to prepare this wallet transaction");
                proof {
                    reveal_strlit("Authenticate to prepare this wallet transaction");
                }
                let read = ProtectedSecretRead {
                    secret_ref: preparation.secret_ref.clone(),
                    reason: SecretAccessReason::SignTransfer,
                    prompt,
                };
                Ok(PreparationAction::ReadSecret { read })
            },
            Err(message) => Err(self.fail_transfer_preparation(preparation.generation, message)),
        }
    }

    /// Decides on reading the protected secret: a failed read fails the
    /// preparation with its diagnostic; after a successful read the
    /// preparation must still own the resolution slot, or it stops with
    /// `StateUnavailable` and changes nothing; then the source is derived.
    pub fn settle_secret_read(
        &mut self,
        preparation: &TransferPreparation,
        read: Result<(), String>,
    ) -> (r: Result<PreparationAction, WalletClientError>)
        ensures
            r is Err ==> final(self)@ == released(old(self)@, preparation.generation),
            !continues(r) ==> final(self)@.resolution != Some(preparation.generation),
            r is Ok ==> final(self)@ == old(self)@,
            read matches Err(m) ==> (r matches Err(WalletClientError::SendFailed { diagnostic })
                && diagnostic@ == bounded_text(m@, old(self)@.diagnostic_limit as nat)),
            read is Ok ==> (r is Ok <==> old(self)@.resolution == Some(preparation.generation)),
            read is Ok && r is Ok ==> r == Ok::<PreparationAction, WalletClientError>(
                PreparationAction::DeriveSource,
            ),
            read is Ok && r is Err ==> r == Err::<PreparationAction, _>(
                WalletClientError::StateUnavailable,
            ),
    {
        match read {
            Ok(()) => {
                self.ensure_transfer_preparation_current(preparation.generation)?;
                Ok(PreparationAction::DeriveSource)
            },
            Err(message) => Err(self.fail_transfer_preparation(preparation.generation, message)),
        }
    }

    /// Decides on the wallet derived from the unlocked mnemonic: no wallet
    /// at all means the secret is unusable (the preparation is abandoned);
    /// another wallet than `expected` fails the preparation; this wallet
    /// goes on to signing with the kept `seqno` and expiry.
    pub fn settle_source(
        &mut self,
        preparation: &TransferPreparation,
        derived: Result<AccountAddress, ()>,
        expected: &AccountAddress,
    ) -> (r: Result<PreparationAction, WalletClientError>)
        ensures
            r is Err ==> final(self)@ == released(old(self)@, preparation.generation),
            !continues(r) ==> final(self)@.resolution != Some(preparation.generation),
            r is Ok ==> final(self)@ == old(self)@,
            derived is Err ==> r == Err::<PreparationAction, _>(
                WalletClientError::InvalidProtectedSecret,
            ),
            derived matches Ok(a) ==> (r is Ok <==> a@ == expected@),
            r is Ok ==> r == Ok::<PreparationAction, WalletClientError>(
                PreparationAction::SignTransfer {
                    seqno: preparation.seqno,
                    valid_until: preparation.valid_until,
                },
            ),
            derived matches Ok(a) ==> (a@ != expected@ ==> (r matches Err(
                WalletClientError::SendFailed { diagnostic },
            ) && diagnostic@ == bounded_text(
                foreign_mnemonic_diagnostic(),
                old(self)@.diagnostic_limit as nat,
            ))),
    {
        let source = match derived {
            Ok(source) => source,
            Err(()) => {
                self.discard_transfer_preparation(preparation.generation);
                return Err(WalletClientError::InvalidProtectedSecret);
            },
        };
        if !source.same_account(expected) {
            let message = String::from_str("protected mnemonic does not belong to this wallet");
            proof {
                reveal_strlit("protected mnemonic does not belong to this wallet");
            }
            return Err(self.fail_transfer_preparation(preparation.generation, message));
        }
        Ok(
            PreparationAction::SignTransfer {
                seqno: preparation.seqno,
                valid_until: preparation.valid_until,
            },
        )
    }

    /// Decides on the signing of both delivery forms: a signing failure
    /// fails the preparation with a diagnostic naming the cause; otherwise
    /// the preparation is completed, provided it still owns the resolution
    /// slot, and both forms are returned with the one `seqno` and
    /// `valid_until` they share.
    pub fn settle_signing(
        &mut self,
        preparation: &TransferPreparation,
        signed: Result<(String, String), String>,
    ) -> (r: Result<PreparationAction, WalletClientError>)
        ensures
            final(self)@ == released(old(self)@, preparation.generation),
            !continues(r) ==> final(self)@.resolution != Some(preparation.generation),
            signed matches Err(m) ==> (r matches Err(WalletClientError::SendFailed { diagnostic })
                && diagnostic@ == bounded_text(
                signing_failure_prefix() + m@,
                old(self)@.diagnostic_limit as nat,
            )),
            signed is Ok ==> (r is Ok <==> old(self)@.resolution == Some(preparation.generation)),
            signed is Ok && r is Err ==> r == Err::<PreparationAction, _>(
                WalletClientError::StateUnavailable,
            ),
            signed matches Ok(boc) ==> (r is Ok ==> r == Ok::<PreparationAction, WalletClientError>(
                PreparationAction::Finished {
                    transfer: PreparedTransfer {
                        operation_id: preparation.operation_id,
                        external_boc: boc.0,
                        internal_boc: boc.1,
                        seqno: preparation.seqno,
                        valid_until: preparation.valid_until,
                    },
                },
            )),
    {
        let (external_boc, internal_boc) = match signed {
            Ok(pair) => pair,
            Err(cause) => {
                let message = String::from_str("failed to prepare transfer messages: ").concat(
                    cause.as_str(),
                );
                proof {
                    reveal_strlit("failed to prepare transfer messages: ");
                }
                return Err(self.fail_transfer_preparation(preparation.generation, message));
            },
        };
        self.complete_transfer_preparation(preparation.generation)?;
        let transfer = PreparedTransfer {
            operation_id: preparation.operation_id.clone(),
            external_boc,
            internal_boc,
            seqno: preparation.seqno,
            valid_until: preparation.valid_until,
        };
        Ok(PreparationAction::Finished { transfer })
    }
}

// ---------------------------------------------------------------------------
// Laws
// ---------------------------------------------------------------------------

/// A known exact total that the balance cannot cover is refused, with the
/// balance and the total, whatever the account's status.
pub proof fn lemma_uncoverable_total_is_refused(
    requested: u64,
    account: AccountSnapshot,
    seqno_request_id: u64,
)
    requires
        requested > account.balance_nanograms,
    ensures
        account_decision(Some(requested), account, seqno_request_id) == Err::<
            PreparationAction,
            WalletClientError,
        >(
            WalletClientError::InsufficientBalance {
                available_nanograms: account.balance_nanograms,
                requested_nanograms: requested,
            },
        ),
{
}

/// Where the total is unknown or covered, the account's status decides: an
/// active account needs its `seqno`, an undeployed one goes on to the
/// expiry from its sync time, and a frozen or unknown one cannot send.
/// Only an uncoverable total is refused for its amount.
pub proof fn lemma_coverable_total_goes_by_status(
    requested: Option<u64>,
    account: AccountSnapshot,
    seqno_request_id: u64,
)
    ensures
        (requested is None || requested->0 <= account.balance_nanograms) ==> {
            &&& account.status == AccountStatus::Active ==> account_decision(
                requested,
                account,
                seqno_request_id,
            ) == Ok::<PreparationAction, WalletClientError>(
                PreparationAction::FetchSeqno { request_id: seqno_request_id },
            )
            &&& (account.status == AccountStatus::Nonexistent || account.status
                == AccountStatus::Uninitialized) ==> account_decision(
                requested,
                account,
                seqno_request_id,
            ) == Ok::<PreparationAction, WalletClientError>(
                PreparationAction::ResolveExpiration { sync_utime: account.sync_utime },
            )
            &&& (account.status == AccountStatus::Frozen || account.status == AccountStatus::Unknown)
                ==> account_decision(requested, account, seqno_request_id) == Err::<
                PreparationAction,
                WalletClientError,
            >(WalletClientError::SendAccountUnavailable { status: account.status })
        },
        account_decision(requested, account, seqno_request_id) matches Err(
            WalletClientError::InsufficientBalance { .. },
        ) ==> requested is Some && requested->0 > account.balance_nanograms,
{
}

/// The three setup steps together claim the slot as `begun` describes: the
/// next generation, two request identifiers, and the slot held by that
/// generation.
pub proof fn lemma_setup_claims_the_slot(v: ClientView)
    requires
        can_begin(v),
    ensures
        ({
            let started = ClientView {
                resolution_generation: (v.resolution_generation + 1) as u64,
                next_request_id: (v.next_request_id + 1) as u64,
                ..v
            };
            let both_built = ClientView {
                next_request_id: (started.next_request_id + 1) as u64,
                ..started
            };
            ClientView { resolution: Some(both_built.resolution_generation), ..both_built }
        }) == begun(v),
{
}

/// However a preparation ends (completed, discarded or failed), the client
/// it began on is idle again: only the generation and request counters
/// have advanced, and another preparation may begin while they last.
pub proof fn lemma_ended_preparation_leaves_client_idle(v: ClientView)
    requires
        can_begin(v),
    ensures
        released(begun(v), (v.resolution_generation + 1) as u64) == (ClientView {
            resolution_generation: (v.resolution_generation + 1) as u64,
            next_request_id: (v.next_request_id + 2) as u64,
            ..v
        }),
        v.resolution_generation + 1 < u64::MAX && v.next_request_id + 2 < u64::MAX - 1 ==> can_begin(
            released(begun(v), (v.resolution_generation + 1) as u64),
        ),
{
}

/// A preparation superseded by a newer one can no longer end it: every
/// generation handed out before a preparation begins differs from the new
/// one, so releasing it leaves the new preparation in progress.
pub proof fn lemma_superseded_preparation_cannot_release(v: ClientView, stale: u64)
    requires
        can_begin(v),
        stale <= v.resolution_generation,
    ensures
        released(begun(v), stale) == begun(v),
        begun(v).resolution == Some((v.resolution_generation + 1) as u64),
{
}

/// Releasing a generation twice is the same as releasing it once, so a
/// failure that abandons a preparation already abandoned changes nothing;
/// and releasing frees at most the resolution slot: the send in progress,
/// the counters and the configuration are untouched.
pub proof fn lemma_release_is_idempotent(v: ClientView, generation: u64)
    ensures
        released(released(v, generation), generation) == released(v, generation),
        released(v, generation).resolution != Some(generation),
        released(v, generation) == (ClientView { resolution: released(v, generation).resolution, ..v }),
{
}

/// A generation that has ended never holds the slot again: beginning a new
/// preparation, releasing any generation, allocating a request identifier,
/// stopping the client or marking a send keep it retired, so a completed
/// preparation cannot be completed, or found current, a second time.
pub proof fn lemma_retired_generation_never_returns(v: ClientView, generation: u64, other: u64)
    requires
        retired(v, generation),
    ensures
        can_begin(v) ==> retired(begun(v), generation),
        retired(released(v, other), generation),
        v.next_request_id < u64::MAX ==> retired(
            ClientView { next_request_id: (v.next_request_id + 1) as u64, ..v },
            generation,
        ),
        retired(ClientView { running: false, ..v }, generation),
        forall|active: bool| #[trigger] retired(ClientView { send_active: active, ..v }, generation),
{
}

/// The generation a preparation completes is retired once completed, for
/// any client whose slot holds only its latest generation.
pub proof fn lemma_completed_generation_is_retired(v: ClientView, generation: u64)
    requires
        well_formed(v),
        v.resolution == Some(generation),
    ensures
        retired(released(v, generation), generation),
{
}

} // verus!
