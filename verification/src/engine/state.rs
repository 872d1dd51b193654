//! The wallet client's shared state: its lifecycle, signing configuration,
//! the operation in flight and its identifier counters.
use vstd::prelude::*;

verus! {

/// On-chain status of a wallet account.
#[derive(Clone, Copy, Debug, PartialEq, Eq, Structural)]
pub enum AccountStatus {
    Active,
    Nonexistent,
    Uninitialized,
    Frozen,
    Unknown,
}

/// Errors reported by the wallet client.
#[derive(Clone, Debug)]
pub enum WalletClientError {
    /// The transfer request is malformed (its exact total cannot be computed).
    InvalidSendRequest,
    /// This wallet has no protected mnemonic on this device.
    LocalSigningUnavailable,
    /// A send or another resolution is already in progress.
    SendAlreadyInProgress,
    /// An identifier counter is exhausted.
    IdentifierExhausted,
    /// The client state changed under the operation.
    StateUnavailable,
    /// The client has been shut down.
    ClientStopped,
    /// The account cannot cover the requested amount.
    InsufficientBalance { available_nanograms: u64, requested_nanograms: u64 },
    /// The account cannot send in its current status.
    SendAccountUnavailable { status: AccountStatus },
    /// The protected secret is not a usable mnemonic.
    InvalidProtectedSecret,
    /// The operation failed; the diagnostic says why.
    SendFailed { diagnostic: String },
    /// A provider request failed before a response could be read.
    Network { diagnostic: String },
}

/// What verification sees of a wallet client.
pub struct ClientView {
    /// The client has not been shut down.
    pub running: bool,
    /// The reference to this wallet's protected mnemonic, if it has one here.
    pub secret_ref: Option<Seq<char>>,
    /// A send is in progress.
    pub send_active: bool,
    /// The generation of the resolution in progress, if any.
    pub resolution: Option<u64>,
    /// The last resolution generation handed out.
    pub resolution_generation: u64,
    /// The next provider request identifier.
    pub next_request_id: u64,
    /// How many characters of a failure diagnostic are kept.
    pub diagnostic_limit: usize,
}

/// The wallet client's mutable state.
pub struct WalletClient {
    running: bool,
    local_secret_ref: Option<String>,
    send_active: bool,
    active_resolution: Option<u64>,
    resolution_generation: u64,
    next_request_id: u64,
    diagnostic_limit: usize,
}

pub open spec fn string_option_view(s: Option<String>) -> Option<Seq<char>> {
    match s {
        Some(s) => Some(s@),
        None => None,
    }
}

/// The first `limit` characters of `message`.
pub open spec fn bounded_text(message: Seq<char>, limit: nat) -> Seq<char> {
    if message.len() <= limit {
        message
    } else {
        message.take(limit as int)
    }
}

/// Only the last generation handed out can be the resolution in progress.
pub open spec fn well_formed(v: ClientView) -> bool {
    v.resolution matches Some(g) ==> g == v.resolution_generation
}

impl WalletClient {
    #[verifier::type_invariant]
    spec fn latest_resolution_only(&self) -> bool {
        self.active_resolution matches Some(g) ==> g == self.resolution_generation
    }
}

impl View for WalletClient {
    type V = ClientView;

    closed spec fn view(&self) -> ClientView {
        ClientView {
            running: self.running,
            secret_ref: string_option_view(self.local_secret_ref),
            send_active: self.send_active,
            resolution: self.active_resolution,
            resolution_generation: self.resolution_generation,
            next_request_id: self.next_request_id,
            diagnostic_limit: self.diagnostic_limit,
        }
    }
}

impl WalletClient {
    /// A running client with nothing in flight, keeping at most
    /// `diagnostic_limit` characters of each failure diagnostic.
    pub fn new(local_secret_ref: Option<String>, diagnostic_limit: usize) -> (c: WalletClient)
        ensures
            c@ == (ClientView {
                running: true,
                secret_ref: string_option_view(local_secret_ref),
                send_active: false,
                resolution: None,
                resolution_generation: 0,
                next_request_id: 0,
                diagnostic_limit,
            }),
    {
        WalletClient {
            running: true,
            local_secret_ref,
            send_active: false,
            active_resolution: None,
            resolution_generation: 0,
            next_request_id: 0,
            diagnostic_limit,
        }
    }

    /// Bounds a failure diagnostic: its first `diagnostic_limit` characters.
    pub fn bounded_diagnostic(&self, message: String) -> (r: String)
        ensures
            r@ == bounded_text(message@, self@.diagnostic_limit as nat),
    {
        let length = message.as_str().unicode_len();
        if length <= self.diagnostic_limit {
            message
        } else {
            let kept = message.as_str().substring_char(0, self.diagnostic_limit);
            String::from_str(kept)
        }
    }

    /// Shuts the client down; nothing else changes.
    pub fn stop(&mut self)
        ensures
            final(self)@ == (ClientView { running: false, ..old(self)@ }),
    {
        proof {
            use_type_invariant(&*self);
        }
        self.running = false;
    }

    /// Records whether a send is in progress; nothing else changes.
    pub fn set_send_active(&mut self, active: bool)
        ensures
            final(self)@ == (ClientView { send_active: active, ..old(self)@ }),
    {
        proof {
            use_type_invariant(&*self);
        }
        self.send_active = active;
    }

    /// Whether the client is still running.
    pub fn ensure_running(&self) -> (r: Result<(), WalletClientError>)
        ensures
            r matches Ok(_) <==> self@.running,
            r matches Err(e) ==> e == WalletClientError::ClientStopped,
    {
        if self.running {
            Ok(())
        } else {
            Err(WalletClientError::ClientStopped)
        }
    }

    /// Whether `generation` is the resolution in progress.
    pub fn is_current_resolution(&self, generation: u64) -> (r: bool)
        ensures
            r == (self@.resolution == Some(generation)),
    {
        match self.active_resolution {
            Some(g) => g == generation,
            None => false,
        }
    }

    /// Hands out the next provider request identifier.
    pub fn allocate_request_id(&mut self) -> (r: Result<u64, WalletClientError>)
        ensures
            old(self)@.next_request_id < u64::MAX ==> {
                &&& r matches Ok(id) && id == old(self)@.next_request_id
                &&& final(self)@ == (ClientView {
                    next_request_id: (old(self)@.next_request_id + 1) as u64,
                    ..old(self)@
                })
            },
            old(self)@.next_request_id == u64::MAX ==> {
                &&& r matches Err(e) && e == WalletClientError::IdentifierExhausted
                &&& final(self)@ == old(self)@
            },
    {
        proof {
            use_type_invariant(&*self);
        }
        match self.next_request_id.checked_add(1) {
            Some(next) => {
                let id = self.next_request_id;
                self.next_request_id = next;
                Ok(id)
            },
            None => Err(WalletClientError::IdentifierExhausted),
        }
    }

    /// Reference to this wallet's protected mnemonic, if present.
    pub fn local_secret_ref(&self) -> (r: Option<String>)
        ensures
            string_option_view(r) == self@.secret_ref,
    {
        match &self.local_secret_ref {
            Some(s) => Some(s.clone()),
            None => None,
        }
    }

    /// Takes the next resolution generation while none is in progress.
    pub(crate) fn claim_next_generation(&mut self) -> (r: Option<u64>)
        requires
            old(self)@.resolution is None,
        ensures
            old(self)@.resolution_generation < u64::MAX ==> r == Some(
                (old(self)@.resolution_generation + 1) as u64,
            ) && final(self)@ == (ClientView {
                resolution_generation: (old(self)@.resolution_generation + 1) as u64,
                ..old(self)@
            }),
            old(self)@.resolution_generation == u64::MAX ==> r is None && final(self)@ == old(self)@,
    {
        match self.resolution_generation.checked_add(1) {
            Some(generation) => {
                self.resolution_generation = generation;
                Some(generation)
            },
            None => None,
        }
    }

    /// Makes the last generation handed out the resolution in progress.
    pub(crate) fn activate_latest_resolution(&mut self)
        ensures
            final(self)@ == (ClientView { resolution: Some(old(self)@.resolution_generation), ..old(self)@ }),
    {
        self.active_resolution = Some(self.resolution_generation);
    }

    /// Ends the resolution in progress, if any.
    pub(crate) fn clear_resolution(&mut self)
        ensures
            final(self)@ == (ClientView { resolution: None, ..old(self)@ }),
    {
        self.active_resolution = None;
    }

    /// Only the last generation handed out can be the resolution in progress.
    pub(crate) fn resolution_is_latest(&self)
        ensures
            well_formed(self@),
    {
        proof {
            use_type_invariant(self);
        }
    }

    /// The last resolution generation handed out.
    pub fn resolution_generation(&self) -> (r: u64)
        ensures
            r == self@.resolution_generation,
    {
        self.resolution_generation
    }

    /// Whether a send is in progress.
    pub fn send_active(&self) -> (r: bool)
        ensures
            r == self@.send_active,
    {
        self.send_active
    }

    /// Whether a resolution is in progress.
    pub fn resolution_active(&self) -> (r: bool)
        ensures
            r == self@.resolution is Some,
    {
        self.active_resolution.is_some()
    }
}

} // verus!
