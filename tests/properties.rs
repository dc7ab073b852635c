use cert_registry::contract::{AuthContext, CertificateNFT};
use cert_registry::encoding::{
    build_certificate_message, concatenate_bytes, message_fits, number_to_string_bytes,
    string_to_bytes,
};
use cert_registry::errors::Error;
use cert_registry::events::Event;
use cert_registry::signature::{
    generate_keypair, keccak256_digest, recovered_key_matches, recovery_id, sign,
    verify_issuer_signature,
};
use cert_registry::types::{Address, CertificateMetadata};

fn auth_by(who: &Address) -> AuthContext {
    AuthContext::new(vec![who.clone()])
}

fn signed(recipient: &Address, course: &str, sk: &[u8; 32], pk: [u8; 65]) -> CertificateMetadata {
    let mut m = CertificateMetadata {
        course_id: course.to_string(),
        issued_date: 1_700_000_000,
        issuer: pk,
        metadata_uri: "ipfs://meta".to_string(),
        signature: [0u8; 65],
        recipient: recipient.clone(),
    };
    m.signature = sign(&m, sk).unwrap();
    m
}

fn mint(nft: &mut CertificateNFT, m: &CertificateMetadata) -> Result<u32, Error> {
    nft.mint_certificate(
        m.recipient.clone(),
        m.course_id.clone(),
        m.metadata_uri.clone(),
        m.issuer,
        m.issued_date,
        m.signature,
    )
}

fn registry_with_issuer(admin: &Address, pk: [u8; 65]) -> CertificateNFT {
    let mut nft = CertificateNFT::new("Certificates".to_string(), "CERT".to_string());
    nft.initialize(&auth_by(admin), admin.clone()).unwrap();
    nft.add_issuer(&auth_by(admin), pk).unwrap();
    nft
}

#[test]
fn decimal_digits_of_numbers() {
    assert_eq!(number_to_string_bytes(0), b"0".to_vec());
    assert_eq!(number_to_string_bytes(7), b"7".to_vec());
    assert_eq!(number_to_string_bytes(12), vec![49, 50]);
    assert_eq!(number_to_string_bytes(1000), b"1000".to_vec());
    assert_eq!(number_to_string_bytes(u64::MAX), b"18446744073709551615".to_vec());
}

#[test]
fn strings_and_concatenation() {
    assert_eq!(string_to_bytes(""), Vec::<u8>::new());
    assert_eq!(string_to_bytes("é1"), vec![0xc3, 0xa9, 0x31]);
    let parts = vec![b"ab".to_vec(), Vec::new(), b"c".to_vec()];
    assert_eq!(concatenate_bytes(&parts), b"abc".to_vec());
    assert_eq!(concatenate_bytes(&Vec::new()), Vec::<u8>::new());
}

#[test]
fn canonical_message_layout() {
    let recipient = Address::from_str("GABC");
    let m = build_certificate_message(&recipient, "c1", "u", 5);
    assert_eq!(m, b"\x19Tradoxus Signed Message:\n8c1GABCu5".to_vec());
    let empty = build_certificate_message(&Address::from_str(""), "", "", 0);
    assert_eq!(empty, b"\x19Tradoxus Signed Message:\n10".to_vec());
    let long = build_certificate_message(&recipient, "course-1234", "ipfs://x", 1234567890);
    assert_eq!(long, b"\x19Tradoxus Signed Message:\n33course-1234GABCipfs://x1234567890".to_vec());
    assert!(message_fits(&recipient, "c1", "u"));
}

#[test]
fn recovery_ids() {
    assert_eq!(recovery_id(0), Some(0));
    assert_eq!(recovery_id(1), Some(1));
    assert_eq!(recovery_id(27), Some(0));
    assert_eq!(recovery_id(28), Some(1));
    assert_eq!(recovery_id(2), None);
    assert_eq!(recovery_id(29), None);
}

#[test]
fn keccak_of_empty_message() {
    let expected = hex::decode("c5d2460186f7233c927e7db2dcc703c0e500b653ca82273b7bfad8045d85a470").unwrap();
    assert_eq!(keccak256_digest(&[]).to_vec(), expected);
}

#[test]
fn recovered_key_comparison() {
    let key = [4u8; 65];
    let mut other = key;
    other[64] = 5;
    assert!(recovered_key_matches(&key, &Some(key)));
    assert!(!recovered_key_matches(&key, &Some(other)));
    assert!(!recovered_key_matches(&key, &None));
}

#[test]
fn sign_then_verify_round_trip() {
    for course in ["", "c1", "course:solidity-bootcamp-2025", "ünïcode"] {
        let (sk, pk) = generate_keypair();
        let m = signed(&Address::from_str("GRECIPIENT"), course, &sk, pk);
        let msg = build_certificate_message(&m.recipient, &m.course_id, &m.metadata_uri, m.issued_date);
        assert!(verify_issuer_signature(&pk, &m.signature, &msg));
        let (_, other_pk) = generate_keypair();
        assert!(!verify_issuer_signature(&other_pk, &m.signature, &msg));
    }
}

#[test]
fn tampered_fields_fail_verification() {
    let (sk, pk) = generate_keypair();
    let m = signed(&Address::from_str("GRECIPIENT"), "c1", &sk, pk);
    let msg = build_certificate_message(&m.recipient, &m.course_id, &m.metadata_uri, m.issued_date);
    for i in 0..msg.len() {
        let mut tampered = msg.clone();
        tampered[i] ^= 0x01;
        assert!(!verify_issuer_signature(&pk, &m.signature, &tampered));
    }
    let other_date =
        build_certificate_message(&m.recipient, &m.course_id, &m.metadata_uri, m.issued_date + 1);
    assert!(!verify_issuer_signature(&pk, &m.signature, &other_date));
    let other_recipient =
        build_certificate_message(&Address::from_str("GRECIPIENS"), &m.course_id, &m.metadata_uri, m.issued_date);
    assert!(!verify_issuer_signature(&pk, &m.signature, &other_recipient));
}

#[test]
fn recovery_id_conventions_verify_alike() {
    let (sk, pk) = generate_keypair();
    let m = signed(&Address::from_str("GRECIPIENT"), "c1", &sk, pk);
    let msg = build_certificate_message(&m.recipient, &m.course_id, &m.metadata_uri, m.issued_date);
    let raw = m.signature;
    assert!(raw[64] <= 1);
    let mut shifted = raw;
    shifted[64] = raw[64] + 27;
    assert!(verify_issuer_signature(&pk, &raw, &msg));
    assert!(verify_issuer_signature(&pk, &shifted, &msg));
    let mut flipped = raw;
    flipped[64] = 1 - raw[64];
    let mut flipped_shifted = flipped;
    flipped_shifted[64] += 27;
    assert_eq!(
        verify_issuer_signature(&pk, &flipped, &msg),
        verify_issuer_signature(&pk, &flipped_shifted, &msg)
    );
    let mut malformed = raw;
    malformed[64] = 5;
    assert!(!verify_issuer_signature(&pk, &malformed, &msg));
}

#[test]
fn malformed_scalars_do_not_panic() {
    let (_, pk) = generate_keypair();
    let zero = [0u8; 65];
    assert!(!verify_issuer_signature(&pk, &zero, b"hello"));
    let mut high = [0xffu8; 65];
    high[64] = 0;
    assert!(!verify_issuer_signature(&pk, &high, b"hello"));
}

#[test]
fn add_issuer_twice_and_remove_absent() {
    let admin = Address::from_str("GADMIN");
    let (_, pk) = generate_keypair();
    let mut nft = registry_with_issuer(&admin, pk);
    assert_eq!(nft.add_issuer(&auth_by(&admin), pk), Err(Error::IssuerAlreadySet));
    assert_eq!(nft.remove_issuer(&auth_by(&admin), pk), Ok(()));
    assert_eq!(nft.remove_issuer(&auth_by(&admin), pk), Err(Error::IssuerNotFound));
    assert_eq!(nft.add_issuer(&auth_by(&admin), pk), Ok(()));
}

#[test]
fn remove_keeps_other_issuers() {
    let admin = Address::from_str("GADMIN");
    let (_, a) = generate_keypair();
    let (sk_b, b) = generate_keypair();
    let mut nft = registry_with_issuer(&admin, a);
    nft.add_issuer(&auth_by(&admin), b).unwrap();
    nft.remove_issuer(&auth_by(&admin), a).unwrap();
    let recipient = Address::from_str("GR");
    let m = signed(&recipient, "c", &sk_b, b);
    assert_eq!(mint(&mut nft, &m), Ok(0));
}

#[test]
fn two_phase_admin_transfer() {
    let admin = Address::from_str("GADMIN");
    let b = Address::from_str("GBOB");
    let c = Address::from_str("GCAROL");
    let mut nft = CertificateNFT::new("n".to_string(), "s".to_string());
    assert_eq!(nft.transfer_admin(&auth_by(&admin), b.clone()), Err(Error::NotAdmin));
    assert_eq!(nft.add_issuer(&auth_by(&admin), [4u8; 65]), Err(Error::NotAdmin));
    assert_eq!(nft.initialize(&AuthContext::new(vec![]), admin.clone()), Err(Error::Unauthorized));
    nft.initialize(&auth_by(&admin), admin.clone()).unwrap();
    assert_eq!(nft.accept_admin(&auth_by(&admin)), Err(Error::NoPendingAdmin));
    assert_eq!(nft.accept_admin(&auth_by(&b)), Err(Error::NoPendingAdmin));
    assert_eq!(Error::NoPendingAdmin.code(), 108);
    nft.transfer_admin(&auth_by(&admin), c.clone()).unwrap();
    nft.transfer_admin(&auth_by(&admin), b.clone()).unwrap();
    assert_eq!(nft.accept_admin(&auth_by(&c)), Err(Error::Unauthorized));
    assert_eq!(nft.accept_admin(&auth_by(&admin)), Err(Error::Unauthorized));
    assert_eq!(nft.accept_admin(&auth_by(&b)), Ok(()));
    assert_eq!(nft.accept_admin(&auth_by(&b)), Err(Error::NoPendingAdmin));
    assert_eq!(nft.transfer_admin(&auth_by(&admin), c.clone()), Err(Error::Unauthorized));
    assert_eq!(nft.transfer_admin(&auth_by(&b), c), Ok(()));
    match nft.events().last() {
        Some(Event::AdminTransferInitiated { new_admin }) => assert_eq!(new_admin.as_str(), "GCAROL"),
        other => panic!("unexpected event {:?}", other),
    }
}

#[test]
fn mint_ids_are_sequential() {
    let admin = Address::from_str("GADMIN");
    let (sk, pk) = generate_keypair();
    let mut nft = registry_with_issuer(&admin, pk);
    let recipients = ["GA", "GB", "GA", "GC", "GA"];
    for (n, r) in recipients.iter().enumerate() {
        let m = signed(&Address::from_str(r), &format!("course-{}", n), &sk, pk);
        assert_eq!(mint(&mut nft, &m), Ok(n as u32));
    }
    assert_eq!(nft.issued_certificates(), 5);
    assert_eq!(nft.user_issued_certificates(&Address::from_str("GA")), 3);
    assert_eq!(nft.user_issued_certificates(&Address::from_str("GB")), 1);
    assert_eq!(nft.user_issued_certificates(&Address::from_str("GZ")), 0);
    assert_eq!(nft.owner_of(3).unwrap().as_str(), "GC");
    let detail = nft.certificate_metadata(1).unwrap();
    assert_eq!(detail.owner.as_str(), "GB");
    assert_eq!(detail.metadata.course_id, "course-1");
    match nft.events().last() {
        Some(Event::Mint { to, certificate_id }) => {
            assert_eq!(to.as_str(), "GA");
            assert_eq!(*certificate_id, 4);
        }
        other => panic!("unexpected event {:?}", other),
    }
}

#[test]
fn mint_scenario_for_one_recipient() {
    let a = Address::from_str("GADMIN");
    let r = Address::from_str("GRECIPIENT");
    let (sk, pub_i) = generate_keypair();
    let mut nft = CertificateNFT::new("n".to_string(), "s".to_string());
    nft.initialize(&auth_by(&a), a.clone()).unwrap();
    nft.add_issuer(&auth_by(&a), pub_i).unwrap();
    let first = signed(&r, "c1", &sk, pub_i);
    assert_eq!(mint(&mut nft, &first), Ok(0));
    assert_eq!(nft.owner_of(0).unwrap(), r);
    assert_eq!(nft.user_issued_certificates(&r), 1);
    let second = signed(&r, "c2", &sk, pub_i);
    assert_eq!(mint(&mut nft, &second), Ok(1));
    assert_eq!(nft.user_issued_certificates(&r), 2);
    assert_eq!(nft.name(), "n");
    assert_eq!(nft.symbol(), "s");
}

#[test]
fn mint_by_unlisted_issuer_changes_nothing() {
    let a = Address::from_str("GADMIN");
    let (_, listed) = generate_keypair();
    let (sk, unlisted) = generate_keypair();
    let mut nft = registry_with_issuer(&a, listed);
    let events_before = nft.events().len();
    let m = signed(&Address::from_str("GR"), "c1", &sk, unlisted);
    assert_eq!(mint(&mut nft, &m), Err(Error::NotIssuer));
    assert_eq!(nft.issued_certificates(), 0);
    assert_eq!(nft.user_issued_certificates(&m.recipient), 0);
    assert_eq!(nft.owner_of(0).unwrap_err(), Error::CertificateNotFound);
    assert_eq!(nft.events().len(), events_before);
}

#[test]
fn verify_tampered_bytes_and_unknown_id() {
    let a = Address::from_str("GADMIN");
    let (sk, pk) = generate_keypair();
    let mut nft = registry_with_issuer(&a, pk);
    let m = signed(&Address::from_str("GR"), "c1", &sk, pk);
    assert_eq!(mint(&mut nft, &m), Ok(0));
    let mut bytes = build_certificate_message(&m.recipient, &m.course_id, &m.metadata_uri, m.issued_date);
    assert_eq!(nft.verify_certificate(0, &bytes), Ok(true));
    let last = bytes.len() - 1;
    bytes[last] ^= 0x02;
    assert_eq!(nft.verify_certificate(0, &bytes), Ok(false));
    assert_eq!(nft.verify_certificate(999, &bytes), Err(Error::CertificateNotFound));
    assert_eq!(nft.certificate_metadata(999).unwrap_err(), Error::CertificateNotFound);
}

#[test]
fn error_codes() {
    let all = [
        (Error::AlreadyInitialized, 100),
        (Error::NotAdmin, 101),
        (Error::NotIssuer, 102),
        (Error::CertificateNotFound, 103),
        (Error::Unauthorized, 104),
        (Error::InvalidSignature, 105),
        (Error::IssuerAlreadySet, 106),
        (Error::IssuerNotFound, 107),
        (Error::NoPendingAdmin, 108),
        (Error::InvalidData, 109),
    ];
    for (e, code) in all {
        assert_eq!(e.code(), code);
    }
}
