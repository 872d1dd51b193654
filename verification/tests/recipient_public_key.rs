use ton::ton_core::cell::TonHash;
use ton::ton_core::types::TonAddress;
use ton::ton_wallet::{
    KeyPair, TonWallet, WalletVersion, WALLET_ID_DEFAULT, WALLET_V5R1_ID_DEFAULT,
    WALLET_V5R1_ID_DEFAULT_TESTNET,
};
use wallet_engine::{
    decide_rev00, recipient_among, v5_workchain_id, verify_recipient_public_key, AccountAddress,
    EncryptedCommentError, Network, TonAddressString,
};

type TestResult = Result<(), Box<dyn std::error::Error>>;

const PUBLIC_KEY: [u8; 32] = [0x5a; 32];

fn spell(address: &TonAddress, network: Network) -> Result<TonAddressString, Box<dyn std::error::Error>> {
    let text = address.to_base64(network == Network::Mainnet, true, true);
    TonAddressString::parse(text).map_err(|_| "address spelling refused".into())
}

fn wallet_address(
    version: WalletVersion,
    workchain: i32,
    wallet_id: i32,
    network: Network,
) -> Result<TonAddressString, Box<dyn std::error::Error>> {
    let wallet = TonWallet::new_with_params(
        version,
        KeyPair {
            public_key: PUBLIC_KEY,
            secret_key: [0; 64],
        },
        workchain,
        wallet_id,
    )?;
    spell(&wallet.address, network)
}

fn raw_spelling(recipient: &TonAddressString) -> Result<String, Box<dyn std::error::Error>> {
    let address = recipient.as_address();
    Ok(TonAddress::new(address.workchain, TonHash::from_slice(&address.hash)?).to_hex())
}

#[test]
fn binds_all_supported_initial_wallet_versions_on_both_networks() -> TestResult {
    for network in [Network::Mainnet, Network::Testnet] {
        for version in [
            WalletVersion::V1R1,
            WalletVersion::V1R2,
            WalletVersion::V1R3,
            WalletVersion::V2R1,
            WalletVersion::V2R2,
            WalletVersion::V3R1,
            WalletVersion::V3R2,
            WalletVersion::V4R1,
            WalletVersion::V4R2,
        ] {
            let recipient = wallet_address(version, 0, WALLET_ID_DEFAULT, network)?;
            verify_recipient_public_key(&recipient, &PUBLIC_KEY, network, None).map_err(|e| format!("{e:?}"))?;
            assert!(matches!(
                verify_recipient_public_key(&recipient, &[0x33; 32], network, None),
                Err(EncryptedCommentError::RecipientPublicKeyMismatch)
            ));
        }
        let v5_id = match network {
            Network::Mainnet => WALLET_V5R1_ID_DEFAULT,
            Network::Testnet => WALLET_V5R1_ID_DEFAULT_TESTNET,
        };
        // The `ton` crate used here ships no Wallet rev00 contract, so no rev00
        // address is supplied; the rev00 step is covered by the tests below.
        for (version, wallet_id) in [(WalletVersion::V5R1, v5_id)] {
            let recipient = wallet_address(version, 0, wallet_id, network)?;
            verify_recipient_public_key(&recipient, &PUBLIC_KEY, network, None).map_err(|e| format!("{e:?}"))?;
            assert!(matches!(
                verify_recipient_public_key(&recipient, &[0x33; 32], network, None),
                Err(EncryptedCommentError::RecipientPublicKeyMismatch)
            ));
            let other_network = match network {
                Network::Mainnet => Network::Testnet,
                Network::Testnet => Network::Mainnet,
            };
            assert!(matches!(
                verify_recipient_public_key(&recipient, &PUBLIC_KEY, other_network, None),
                Err(EncryptedCommentError::RecipientPublicKeyMismatch)
            ));
        }
    }
    Ok(())
}

#[test]
fn binds_workchain_aware_standard_ids_and_address_spellings() -> TestResult {
    for (version, wallet_id) in [
        (WalletVersion::V3R2, 698_983_190),
        (WalletVersion::V4R2, 698_983_190),
        // Values independently pinned by the official V5 wallet-ID module.
        (WalletVersion::V5R1, 8_388_369),
    ] {
        let recipient = wallet_address(version, -1, wallet_id, Network::Mainnet)?;
        verify_recipient_public_key(&recipient, &PUBLIC_KEY, Network::Mainnet, None).map_err(|e| format!("{e:?}"))?;
        let raw = TonAddressString::parse(raw_spelling(&recipient)?).map_err(|_| "raw spelling refused")?;
        verify_recipient_public_key(&raw, &PUBLIC_KEY, Network::Mainnet, None).map_err(|e| format!("{e:?}"))?;
    }
    let recipient = wallet_address(WalletVersion::V5R1, -1, 8_388_605, Network::Testnet)?;
    verify_recipient_public_key(&recipient, &PUBLIC_KEY, Network::Testnet, None).map_err(|e| format!("{e:?}"))?;
    Ok(())
}

#[test]
fn rejects_nondefault_ids_unknown_contracts_and_unrelated_addresses() -> TestResult {
    let custom = wallet_address(WalletVersion::V4R2, 0, 42, Network::Mainnet)?;
    assert!(matches!(
        verify_recipient_public_key(&custom, &PUBLIC_KEY, Network::Mainnet, None),
        Err(EncryptedCommentError::RecipientPublicKeyMismatch)
    ));
    let unsupported = wallet_address(WalletVersion::HLV2R2, 0, WALLET_ID_DEFAULT, Network::Mainnet)?;
    assert!(matches!(
        verify_recipient_public_key(&unsupported, &PUBLIC_KEY, Network::Mainnet, None),
        Err(EncryptedCommentError::RecipientPublicKeyMismatch)
    ));
    let unrelated = spell(&TonAddress::new(0, TonHash::from_slice(&[0x11; 32])?), Network::Mainnet)?;
    assert!(matches!(
        verify_recipient_public_key(&unrelated, &PUBLIC_KEY, Network::Mainnet, None),
        Err(EncryptedCommentError::RecipientPublicKeyMismatch)
    ));
    Ok(())
}

#[test]
fn v5_workchain_id_places_the_workchain_byte_after_the_tag_bit() {
    assert_eq!(v5_workchain_id(WALLET_V5R1_ID_DEFAULT, -1), Some(8_388_369));
    assert_eq!(v5_workchain_id(WALLET_V5R1_ID_DEFAULT_TESTNET, -1), Some(8_388_605));
    assert_eq!(v5_workchain_id(WALLET_V5R1_ID_DEFAULT, 0), Some(WALLET_V5R1_ID_DEFAULT));
    assert_eq!(v5_workchain_id(0, 1), Some(0x0080_0000));
    assert_eq!(v5_workchain_id(0, 127), Some(0x3F80_0000));
    assert_eq!(v5_workchain_id(0, -128), Some(0x4000_0000));
}

#[test]
fn v5_workchain_id_refuses_workchains_outside_int8() {
    assert_eq!(v5_workchain_id(WALLET_V5R1_ID_DEFAULT, 128), None);
    assert_eq!(v5_workchain_id(WALLET_V5R1_ID_DEFAULT, -129), None);
    assert_eq!(v5_workchain_id(WALLET_V5R1_ID_DEFAULT, i32::MAX), None);
}

#[test]
fn masterchain_legacy_wallet_with_default_id_is_bound() -> TestResult {
    let recipient = wallet_address(WalletVersion::V4R2, -1, WALLET_ID_DEFAULT, Network::Mainnet)?;
    verify_recipient_public_key(&recipient, &PUBLIC_KEY, Network::Mainnet, None).map_err(|e| format!("{e:?}"))?;
    let recipient = wallet_address(WalletVersion::V5R1, -1, WALLET_V5R1_ID_DEFAULT, Network::Mainnet)?;
    verify_recipient_public_key(&recipient, &PUBLIC_KEY, Network::Mainnet, None).map_err(|e| format!("{e:?}"))?;
    Ok(())
}

#[test]
fn default_initial_state_is_bound_in_any_workchain() -> TestResult {
    // The state-init hash does not depend on the workchain, so the default
    // V4 state of workchain zero is also that key's wallet in the masterchain.
    let zero = wallet_address(WalletVersion::V4R2, 0, WALLET_ID_DEFAULT, Network::Mainnet)?;
    let hash = TonHash::from_slice(&zero.as_address().hash)?;
    let moved = spell(&TonAddress::new(-1, hash), Network::Mainnet)?;
    verify_recipient_public_key(&moved, &PUBLIC_KEY, Network::Mainnet, None).map_err(|e| format!("{e:?}"))?;
    // A workchain-aware masterchain ID belongs to the masterchain only.
    let offset = wallet_address(WalletVersion::V4R2, -1, 698_983_190, Network::Mainnet)?;
    let hash = TonHash::from_slice(&offset.as_address().hash)?;
    let in_zero = spell(&TonAddress::new(0, hash), Network::Mainnet)?;
    assert!(matches!(
        verify_recipient_public_key(&in_zero, &PUBLIC_KEY, Network::Mainnet, None),
        Err(EncryptedCommentError::RecipientPublicKeyMismatch)
    ));
    Ok(())
}

#[test]
fn address_spellings_parse_to_the_same_account() -> TestResult {
    let recipient = wallet_address(WalletVersion::V3R2, 0, WALLET_ID_DEFAULT, Network::Mainnet)?;
    let raw = TonAddressString::parse(raw_spelling(&recipient)?).map_err(|_| "raw spelling refused")?;
    assert!(raw.as_address().same_account(recipient.as_address()));
    assert_eq!(recipient.as_address().hash.len(), 32);
    assert!(raw.as_str().starts_with("0:"));
    assert!(TonAddressString::parse("not an address".to_string()).is_err());
    Ok(())
}

#[test]
fn supplied_rev00_address_binds_in_workchain_zero_only() -> TestResult {
    let rev00 = TonAddress::new(0, TonHash::from_slice(&[0x11; 32])?);
    let recipient = spell(&rev00, Network::Mainnet)?;
    let supplied = AccountAddress { workchain: 0, hash: vec![0x11; 32] };
    verify_recipient_public_key(&recipient, &PUBLIC_KEY, Network::Mainnet, Some(Ok(supplied.clone())))
        .map_err(|e| format!("{e:?}"))?;
    assert!(matches!(
        verify_recipient_public_key(&recipient, &PUBLIC_KEY, Network::Mainnet, None),
        Err(EncryptedCommentError::RecipientPublicKeyMismatch)
    ));
    let other = AccountAddress { workchain: 0, hash: vec![0x22; 32] };
    assert!(matches!(
        verify_recipient_public_key(&recipient, &PUBLIC_KEY, Network::Mainnet, Some(Ok(other))),
        Err(EncryptedCommentError::RecipientPublicKeyMismatch)
    ));
    let master = spell(&TonAddress::new(-1, TonHash::from_slice(&[0x11; 32])?), Network::Mainnet)?;
    let master_supplied = AccountAddress { workchain: -1, hash: vec![0x11; 32] };
    assert!(matches!(
        verify_recipient_public_key(&master, &PUBLIC_KEY, Network::Mainnet, Some(Ok(master_supplied))),
        Err(EncryptedCommentError::RecipientPublicKeyMismatch)
    ));
    Ok(())
}

#[test]
fn rev00_failure_matters_only_where_it_is_reached() -> TestResult {
    let unrelated = spell(&TonAddress::new(0, TonHash::from_slice(&[0x11; 32])?), Network::Mainnet)?;
    assert!(matches!(
        verify_recipient_public_key(&unrelated, &PUBLIC_KEY, Network::Mainnet, Some(Err(()))),
        Err(EncryptedCommentError::CellEncoding)
    ));
    let standard = wallet_address(WalletVersion::V2R2, 0, WALLET_ID_DEFAULT, Network::Mainnet)?;
    verify_recipient_public_key(&standard, &PUBLIC_KEY, Network::Mainnet, Some(Err(())))
        .map_err(|e| format!("{e:?}"))?;
    let master = spell(&TonAddress::new(-1, TonHash::from_slice(&[0x11; 32])?), Network::Mainnet)?;
    assert!(matches!(
        verify_recipient_public_key(&master, &PUBLIC_KEY, Network::Mainnet, Some(Err(()))),
        Err(EncryptedCommentError::RecipientPublicKeyMismatch)
    ));
    Ok(())
}

#[test]
fn recipient_among_compares_whole_addresses() {
    let a = AccountAddress { workchain: 0, hash: vec![1; 32] };
    let b = AccountAddress { workchain: -1, hash: vec![1; 32] };
    let c = AccountAddress { workchain: 0, hash: vec![2; 32] };
    assert!(recipient_among(&a, &[c.clone(), a.clone()]));
    assert!(!recipient_among(&a, &[b.clone(), c.clone()]));
    assert!(!recipient_among(&a, &[]));
}

#[test]
fn rev00_decision_on_given_addresses() {
    let zero = AccountAddress { workchain: 0, hash: vec![1; 32] };
    let master = AccountAddress { workchain: -1, hash: vec![1; 32] };
    assert!(decide_rev00(&zero, Some(Ok(zero.clone()))).is_ok());
    assert!(matches!(decide_rev00(&zero, Some(Err(()))), Err(EncryptedCommentError::CellEncoding)));
    assert!(matches!(decide_rev00(&zero, None), Err(EncryptedCommentError::RecipientPublicKeyMismatch)));
    assert!(matches!(
        decide_rev00(&master, Some(Ok(master.clone()))),
        Err(EncryptedCommentError::RecipientPublicKeyMismatch)
    ));
}
