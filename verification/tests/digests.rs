use inclusion_proof::{Digest, Failure, TxDataRequest};

fn counting_bytes() -> [u8; 32] {
    let mut bytes = [0u8; 32];
    for (i, byte) in bytes.iter_mut().enumerate() {
        *byte = (i as u8) * 7 + 3;
    }
    bytes
}

#[test]
fn from_bytes_takes_exactly_thirty_two_bytes() {
    let bytes = counting_bytes();
    assert_eq!(Digest::from_bytes(&bytes), Ok(Digest::new(bytes)));
    assert_eq!(Digest::from_bytes(&bytes).unwrap().bytes, bytes);
}

#[test]
fn from_bytes_rejects_other_lengths() {
    let bytes = counting_bytes();
    assert_eq!(Digest::from_bytes(&bytes[..31]), Err(Failure::InvalidInput));
    assert_eq!(Digest::from_bytes(&[]), Err(Failure::InvalidInput));
    let mut long = bytes.to_vec();
    long.push(1);
    assert_eq!(Digest::from_bytes(&long), Err(Failure::InvalidInput));
}

#[test]
fn to_vec_gives_the_bytes_back() {
    let bytes = counting_bytes();
    assert_eq!(Digest::new(bytes).to_vec(), bytes.to_vec());
}

#[test]
fn same_as_compares_every_byte() {
    let bytes = counting_bytes();
    let digest = Digest::new(bytes);
    assert!(digest.same_as(&Digest::new(bytes)));
    for i in 0..32 {
        let mut other = bytes;
        other[i] ^= 1;
        assert!(!digest.same_as(&Digest::new(other)));
    }
}

#[test]
fn parse_decodes_base58() {
    // Each leading `1` of base58 text stands for one zero byte.
    assert_eq!(
        Digest::parse("11111111111111111111111111111111"),
        Ok(Digest::new([0u8; 32]))
    );
    let mut bytes = [0u8; 32];
    bytes[31] = 1;
    assert_eq!(
        Digest::parse("11111111111111111111111111111112"),
        Ok(Digest::new(bytes))
    );
}

#[test]
fn parse_reads_what_was_encoded() {
    let bytes = counting_bytes();
    let text = bs58::encode(bytes).into_string();
    assert_eq!(Digest::parse(&text), Ok(Digest::new(bytes)));
    let all_set = [255u8; 32];
    let text = bs58::encode(all_set).into_string();
    assert_eq!(Digest::parse(&text), Ok(Digest::new(all_set)));
}

#[test]
fn parse_rejects_text_outside_the_alphabet() {
    assert_eq!(Digest::parse("0OIl"), Err(Failure::InvalidInput));
    assert_eq!(
        Digest::parse("1111111111111111111111111111111!"),
        Err(Failure::InvalidInput)
    );
    assert_eq!(Digest::parse("caf\u{e9}"), Err(Failure::InvalidInput));
}

#[test]
fn parse_rejects_text_of_another_length() {
    assert_eq!(Digest::parse(""), Err(Failure::InvalidInput));
    // Valid base58 for eight bytes.
    assert_eq!(Digest::parse("he11owor1d"), Err(Failure::InvalidInput));
    assert_eq!(
        Digest::parse("1111111111111111111111111111111"),
        Err(Failure::InvalidInput)
    );
    assert_eq!(
        Digest::parse("111111111111111111111111111111111"),
        Err(Failure::InvalidInput)
    );
    let text = bs58::encode([9u8; 33]).into_string();
    assert_eq!(Digest::parse(&text), Err(Failure::InvalidInput));
}

#[test]
fn request_names_its_digest() {
    let bytes = counting_bytes();
    let request = TxDataRequest::new(bs58::encode(bytes).into_string());
    assert_eq!(request.identifier(), Ok(Digest::new(bytes)));
    let request = TxDataRequest::new(String::from("not base58"));
    assert_eq!(request.identifier(), Err(Failure::InvalidInput));
}

#[test]
fn failures_have_their_own_labels() {
    assert_eq!(Failure::InvalidInput.label(), "invalid input");
    assert_eq!(Failure::NotFound.label(), "not found");
    assert_eq!(Failure::Unavailable.label(), "unavailable");
    assert_eq!(Failure::IntegrityMismatch.label(), "integrity mismatch");
    assert_ne!(Failure::NotFound.label(), Failure::IntegrityMismatch.label());
}
