use wallet_engine::{
    AccountAddress, AccountSnapshot, AccountStatus, InvalidAmount, PreparationAction,
    SecretAccessReason, TransferPreparation, WalletClient, WalletClientError,
};

fn client() -> WalletClient {
    WalletClient::new(Some("secret-ref".to_string()), 256)
}

fn begin(client: &mut WalletClient, requested: Option<u64>) -> TransferPreparation {
    let (mut preparation, action) =
        client.begin_transfer_preparation(Ok(requested), "op-1".to_string()).expect("preparation begins");
    assert!(matches!(action, PreparationAction::BuildAccountRequest { request_id } if request_id == preparation.account_request_id));
    let action = client.settle_account_request(&mut preparation, Ok(())).expect("seqno id");
    assert!(matches!(action, PreparationAction::BuildSeqnoRequest { request_id } if request_id == preparation.seqno_request_id));
    let action = client.settle_seqno_request(&preparation, Ok(())).expect("slot claimed");
    assert!(matches!(action, PreparationAction::FetchAccount { request_id } if request_id == preparation.account_request_id));
    preparation
}

fn address(byte: u8) -> AccountAddress {
    AccountAddress { workchain: 0, hash: vec![byte; 32] }
}

fn account(balance_nanograms: u64, status: AccountStatus) -> AccountSnapshot {
    AccountSnapshot { balance_nanograms, status, sync_utime: 1_699_999_000 }
}

#[test]
fn begin_claims_the_next_generation_and_two_request_ids() {
    let mut c = client();
    let p = begin(&mut c, Some(5));
    assert_eq!(p.generation, 1);
    assert_eq!(p.account_request_id, 0);
    assert_eq!(p.seqno_request_id, 1);
    assert_eq!(p.requested_nanograms, Some(5));
    assert_eq!(p.secret_ref, "secret-ref");
    assert_eq!(p.operation_id, "op-1");
    assert!(c.resolution_active());
    assert!(c.is_current_resolution(1));
    assert_eq!(c.resolution_generation(), 1);
}

#[test]
fn begin_refuses_malformed_requests_before_anything_else() {
    let mut c = client();
    c.stop();
    assert!(matches!(
        c.begin_transfer_preparation(Err(InvalidAmount), "op".to_string()),
        Err(WalletClientError::InvalidSendRequest)
    ));
    assert!(matches!(
        c.begin_transfer_preparation(Ok(None), "op".to_string()),
        Err(WalletClientError::ClientStopped)
    ));
    assert_eq!(c.resolution_generation(), 0);
}

#[test]
fn begin_requires_a_local_secret() {
    let mut c = WalletClient::new(None, 256);
    assert!(matches!(
        c.begin_transfer_preparation(Ok(None), "op".to_string()),
        Err(WalletClientError::LocalSigningUnavailable)
    ));
    assert!(!c.resolution_active());
}

#[test]
fn only_one_operation_at_a_time() {
    let mut c = client();
    let _p = begin(&mut c, None);
    assert!(matches!(
        c.begin_transfer_preparation(Ok(None), "op".to_string()),
        Err(WalletClientError::SendAlreadyInProgress)
    ));
    let mut d = client();
    d.set_send_active(true);
    assert!(matches!(
        d.begin_transfer_preparation(Ok(None), "op".to_string()),
        Err(WalletClientError::SendAlreadyInProgress)
    ));
    assert_eq!(d.resolution_generation(), 0);
}

#[test]
fn stale_generations_cannot_end_the_current_preparation() {
    let mut c = client();
    let first = begin(&mut c, None);
    c.discard_transfer_preparation(first.generation);
    let second = begin(&mut c, None);
    assert_eq!(second.generation, 2);
    c.discard_transfer_preparation(first.generation);
    assert!(c.is_current_resolution(2));
    assert!(matches!(c.complete_transfer_preparation(first.generation), Err(WalletClientError::StateUnavailable)));
    assert!(matches!(c.ensure_transfer_preparation_current(first.generation), Err(WalletClientError::StateUnavailable)));
    let e = c.fail_transfer_preparation(first.generation, "late".to_string());
    assert!(matches!(e, WalletClientError::SendFailed { ref diagnostic } if diagnostic == "late"));
    assert!(c.is_current_resolution(2));
    assert!(c.ensure_transfer_preparation_current(2).is_ok());
    assert!(c.complete_transfer_preparation(2).is_ok());
    assert!(!c.resolution_active());
}

#[test]
fn a_completed_preparation_completes_only_once() {
    let mut c = client();
    let p = begin(&mut c, None);
    assert!(c.complete_transfer_preparation(p.generation).is_ok());
    let _next = begin(&mut c, None);
    assert!(matches!(c.complete_transfer_preparation(p.generation), Err(WalletClientError::StateUnavailable)));
    assert!(matches!(c.ensure_transfer_preparation_current(p.generation), Err(WalletClientError::StateUnavailable)));
}

#[test]
fn fail_releases_the_slot_and_reports_the_message() {
    let mut c = client();
    let p = begin(&mut c, None);
    let e = c.fail_transfer_preparation(p.generation, "boom".to_string());
    assert!(matches!(e, WalletClientError::SendFailed { ref diagnostic } if diagnostic == "boom"));
    assert!(!c.resolution_active());
    let again = begin(&mut c, None);
    assert_eq!(again.generation, 2);
    assert_eq!(again.account_request_id, 2);
}

#[test]
fn insufficient_balance_is_refused_and_released() {
    let mut c = client();
    let mut p = begin(&mut c, Some(100));
    let r = c.settle_account_state(&mut p, Ok(Ok(account(99, AccountStatus::Active))));
    assert!(matches!(
        r,
        Err(WalletClientError::InsufficientBalance { available_nanograms: 99, requested_nanograms: 100 })
    ));
    assert!(!c.resolution_active());
}

#[test]
fn exact_balance_suffices_for_an_active_account() {
    let mut c = client();
    let mut p = begin(&mut c, Some(100));
    let r = c.settle_account_state(&mut p, Ok(Ok(account(100, AccountStatus::Active))));
    assert!(matches!(r, Ok(PreparationAction::FetchSeqno { request_id: 1 })));
    assert_eq!(p.sync_utime, 1_699_999_000);
    assert!(c.is_current_resolution(p.generation));
}

#[test]
fn undeployed_accounts_start_at_seqno_zero_without_amount() {
    for status in [AccountStatus::Nonexistent, AccountStatus::Uninitialized] {
        let mut c = client();
        let mut p = begin(&mut c, None);
        let r = c.settle_account_state(&mut p, Ok(Ok(account(0, status))));
        assert!(matches!(r, Ok(PreparationAction::ResolveExpiration { sync_utime: 1_699_999_000 })));
        assert_eq!(p.seqno, 0);
        assert!(c.is_current_resolution(p.generation));
    }
}

#[test]
fn frozen_and_unknown_accounts_cannot_send() {
    for status in [AccountStatus::Frozen, AccountStatus::Unknown] {
        let mut c = client();
        let mut p = begin(&mut c, None);
        let r = c.settle_account_state(&mut p, Ok(Ok(account(10, status))));
        assert!(matches!(r, Err(WalletClientError::SendAccountUnavailable { status: s }) if s == status));
        assert!(!c.resolution_active());
    }
}

#[test]
fn request_failures_pass_through_and_unreadable_responses_fail() {
    let mut c = client();
    let mut p = begin(&mut c, None);
    let r = c.settle_account_state(&mut p, Err(WalletClientError::Network { diagnostic: "timeout".to_string() }));
    assert!(matches!(r, Err(WalletClientError::Network { ref diagnostic }) if diagnostic == "timeout"));
    assert!(!c.resolution_active());

    let mut p = begin(&mut c, None);
    let r = c.settle_account_state(&mut p, Ok(Err("bad json".to_string())));
    assert!(matches!(r, Err(WalletClientError::SendFailed { ref diagnostic }) if diagnostic == "bad json"));
    assert!(!c.resolution_active());

    let mut p = begin(&mut c, None);
    assert!(matches!(c.settle_account_state(&mut p, Ok(Ok(account(5, AccountStatus::Active)))), Ok(_)));
    let r = c.settle_seqno(&mut p, Ok(Ok(7)));
    assert!(matches!(r, Ok(PreparationAction::ResolveExpiration { sync_utime: 1_699_999_000 })));
    assert_eq!(p.seqno, 7);
    let r = c.settle_seqno(&mut p, Ok(Err("no seqno".to_string())));
    assert!(matches!(r, Err(WalletClientError::SendFailed { ref diagnostic }) if diagnostic == "no seqno"));
    assert!(!c.resolution_active());
}

#[test]
fn the_secret_is_asked_for_once_the_expiry_is_known() {
    let mut c = client();
    let mut p = begin(&mut c, None);
    let r = c.settle_expiration(&mut p, Ok(1_700_000_000));
    match r {
        Ok(PreparationAction::ReadSecret { read }) => {
            assert_eq!(read.secret_ref, "secret-ref");
            assert_eq!(read.reason, SecretAccessReason::SignTransfer);
            assert_eq!(read.prompt, "Authenticate to prepare this wallet transaction");
        }
        _ => panic!("expected a secret read"),
    }
    assert_eq!(p.valid_until, 1_700_000_000);
    assert!(matches!(c.settle_secret_read(&p, Ok(())), Ok(PreparationAction::DeriveSource)));
    let r = c.settle_secret_read(&p, Err("user cancelled".to_string()));
    assert!(matches!(r, Err(WalletClientError::SendFailed { ref diagnostic }) if diagnostic == "user cancelled"));
    assert!(matches!(c.settle_secret_read(&p, Ok(())), Err(WalletClientError::StateUnavailable)));

    let mut p = begin(&mut c, None);
    let r = c.settle_expiration(&mut p, Err("expired".to_string()));
    assert!(matches!(r, Err(WalletClientError::SendFailed { ref diagnostic }) if diagnostic == "expired"));
}

#[test]
fn source_must_be_this_wallet() {
    let mut c = client();
    let mut p = begin(&mut c, None);
    p.seqno = 3;
    p.valid_until = 44;
    let r = c.settle_source(&p, Ok(address(1)), &address(1));
    assert!(matches!(r, Ok(PreparationAction::SignTransfer { seqno: 3, valid_until: 44 })));
    assert!(c.is_current_resolution(p.generation));
    let r = c.settle_source(&p, Ok(address(2)), &address(1));
    assert!(matches!(r, Err(WalletClientError::SendFailed { ref diagnostic })
        if diagnostic == "protected mnemonic does not belong to this wallet"));
    assert!(!c.resolution_active());

    let p = begin(&mut c, None);
    assert!(matches!(c.settle_source(&p, Err(()), &address(1)), Err(WalletClientError::InvalidProtectedSecret)));
    assert!(!c.resolution_active());
}

#[test]
fn signing_completes_with_shared_seqno_and_expiry() {
    let mut c = client();
    let mut p = begin(&mut c, None);
    p.seqno = 7;
    p.valid_until = 1_700_000_000;
    let r = c.settle_signing(&p, Ok(("ext".to_string(), "int".to_string())));
    let prepared = match r {
        Ok(PreparationAction::Finished { transfer }) => transfer,
        _ => panic!("expected a prepared transfer"),
    };
    assert_eq!(prepared.operation_id, "op-1");
    assert_eq!(prepared.external_boc, "ext");
    assert_eq!(prepared.internal_boc, "int");
    assert_eq!(prepared.seqno, 7);
    assert_eq!(prepared.valid_until, 1_700_000_000);
    assert!(!c.resolution_active());

    let p = begin(&mut c, None);
    let r = c.settle_signing(&p, Err("cell overflow".to_string()));
    assert!(matches!(r, Err(WalletClientError::SendFailed { ref diagnostic })
        if diagnostic == "failed to prepare transfer messages: cell overflow"));
    assert!(!c.resolution_active());
}

#[test]
fn signing_after_being_superseded_is_refused() {
    let mut c = client();
    let p = begin(&mut c, None);
    c.discard_transfer_preparation(p.generation);
    let r = c.settle_signing(&p, Ok(("e".to_string(), "i".to_string())));
    assert!(matches!(r, Err(WalletClientError::StateUnavailable)));
}

#[test]
fn a_whole_preparation_runs_in_order_and_frees_the_slot() {
    let mut c = client();
    let mut p = begin(&mut c, Some(10));
    let mut action = c.settle_account_state(&mut p, Ok(Ok(account(50, AccountStatus::Active)))).unwrap();
    assert!(matches!(action, PreparationAction::FetchSeqno { .. }));
    action = c.settle_seqno(&mut p, Ok(Ok(9))).unwrap();
    assert!(matches!(action, PreparationAction::ResolveExpiration { .. }));
    action = c.settle_expiration(&mut p, Ok(1_700_000_600)).unwrap();
    assert!(matches!(action, PreparationAction::ReadSecret { .. }));
    action = c.settle_secret_read(&p, Ok(())).unwrap();
    assert!(matches!(action, PreparationAction::DeriveSource));
    action = c.settle_source(&p, Ok(address(1)), &address(1)).unwrap();
    assert!(matches!(action, PreparationAction::SignTransfer { seqno: 9, valid_until: 1_700_000_600 }));
    action = c.settle_signing(&p, Ok(("x".to_string(), "y".to_string()))).unwrap();
    assert!(matches!(action, PreparationAction::Finished { ref transfer } if transfer.seqno == 9));
    assert!(!c.resolution_active());
}

#[test]
fn request_ids_advance_across_preparations() {
    let mut c = client();
    assert_eq!(c.allocate_request_id().ok(), Some(0));
    let p = begin(&mut c, None);
    assert_eq!((p.account_request_id, p.seqno_request_id), (1, 2));
    assert!(c.ensure_running().is_ok());
    c.stop();
    assert!(matches!(c.ensure_running(), Err(WalletClientError::ClientStopped)));
    assert_eq!(c.local_secret_ref().as_deref(), Some("secret-ref"));
    assert!(!c.send_active());
}

#[test]
fn discarding_twice_changes_nothing_more() {
    let mut c = client();
    let p = begin(&mut c, None);
    c.discard_transfer_preparation(p.generation);
    c.discard_transfer_preparation(p.generation);
    assert!(!c.resolution_active());
    assert_eq!(c.resolution_generation(), 1);
    assert!(matches!(c.complete_transfer_preparation(p.generation), Err(WalletClientError::StateUnavailable)));
    assert!(!c.send_active());
}

#[test]
fn failed_request_building_passes_the_error_on_without_claiming_the_slot() {
    let mut c = client();
    let (mut p, _) = c.begin_transfer_preparation(Ok(None), "op".to_string()).unwrap();
    let r = c.settle_account_request(&mut p, Err(WalletClientError::Network { diagnostic: "no url".to_string() }));
    assert!(matches!(r, Err(WalletClientError::Network { .. })));
    assert!(!c.resolution_active());
    assert_eq!(c.resolution_generation(), 1);
    // Only the account request's identifier was taken.
    assert_eq!(c.allocate_request_id().ok(), Some(1));

    let (mut p, _) = c.begin_transfer_preparation(Ok(None), "op".to_string()).unwrap();
    assert!(c.settle_account_request(&mut p, Ok(())).is_ok());
    let r = c.settle_seqno_request(&p, Err(WalletClientError::StateUnavailable));
    assert!(matches!(r, Err(WalletClientError::StateUnavailable)));
    assert!(!c.resolution_active());
}

#[test]
fn the_slot_is_claimed_only_by_the_latest_setup() {
    let mut c = client();
    let (mut first, _) = c.begin_transfer_preparation(Ok(None), "a".to_string()).unwrap();
    assert!(c.settle_account_request(&mut first, Ok(())).is_ok());
    let (mut second, _) = c.begin_transfer_preparation(Ok(None), "b".to_string()).unwrap();
    assert!(c.settle_account_request(&mut second, Ok(())).is_ok());
    assert!(matches!(c.settle_seqno_request(&first, Ok(())), Err(WalletClientError::StateUnavailable)));
    assert!(matches!(c.settle_seqno_request(&second, Ok(())), Ok(PreparationAction::FetchAccount { .. })));
    assert!(c.is_current_resolution(second.generation));
}

#[test]
fn failure_diagnostics_are_bounded() {
    let mut c = WalletClient::new(Some("secret-ref".to_string()), 10);
    let p = begin(&mut c, None);
    let e = c.fail_transfer_preparation(p.generation, "short".to_string());
    assert!(matches!(e, WalletClientError::SendFailed { ref diagnostic } if diagnostic == "short"));
    let e = c.fail_transfer_preparation(p.generation, "exactly-10".to_string());
    assert!(matches!(e, WalletClientError::SendFailed { ref diagnostic } if diagnostic == "exactly-10"));
    let e = c.fail_transfer_preparation(p.generation, "considerably longer".to_string());
    assert!(matches!(e, WalletClientError::SendFailed { ref diagnostic } if diagnostic == "considerab"));
    assert_eq!(c.bounded_diagnostic("ééééééééééé".to_string()), "éééééééééé");

    let p = begin(&mut c, None);
    let r = c.settle_signing(&p, Err("cell overflow".to_string()));
    assert!(matches!(r, Err(WalletClientError::SendFailed { ref diagnostic }) if diagnostic == "failed to "));
    let p = begin(&mut c, None);
    let r = c.settle_source(&p, Ok(address(2)), &address(1));
    assert!(matches!(r, Err(WalletClientError::SendFailed { ref diagnostic }) if diagnostic == "protected "));
}
