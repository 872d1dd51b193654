use wallet_engine::{Boc, CreateEncryptedCommentRequest, DecryptCommentRequest, TonAddressString};

const SENDER: &str = "0:5a5a5a5a5a5a5a5a5a5a5a5a5a5a5a5a5a5a5a5a5a5a5a5a5a5a5a5a5a5a5a5a";

#[test]
fn requests_carry_their_fields() {
    let recipient = TonAddressString::parse(SENDER.to_string()).expect("raw address");
    let create = CreateEncryptedCommentRequest {
        recipient: recipient.clone(),
        comment: "hello".to_string(),
        recipient_public_key: Some(vec![0x5a; 32]),
    };
    assert_eq!(create.recipient.as_str(), SENDER);
    assert_eq!(create.recipient.as_address().workchain, 0);
    assert_eq!(create.recipient.as_address().hash, vec![0x5a; 32]);
    let decrypt = DecryptCommentRequest { sender: recipient, body: Boc::new("te6cc".to_string()) };
    assert_eq!(decrypt.body.as_str(), "te6cc");
    assert_eq!(decrypt.sender.as_address().hash.len(), 32);
}

#[test]
fn malformed_raw_addresses_are_refused() {
    assert!(TonAddressString::parse("0:5a".to_string()).is_err());
    assert!(TonAddressString::parse("x:5a5a".to_string()).is_err());
    assert!(TonAddressString::parse(String::new()).is_err());
}
