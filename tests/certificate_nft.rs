use cert_registry::contract::{AuthContext, CertificateNFT};
use cert_registry::encoding::build_certificate_message;
use cert_registry::errors::Error;
use cert_registry::events::Event;
use cert_registry::signature::{generate_keypair, sign, verify_issuer_signature};
use cert_registry::types::{Address, CertificateMetadata};
use rand::RngCore;

const COURSE: &str = "course:solidity-bootcamp-2025";
const WRONG_COURSE: &str = "course:solidity-bootcamp-2030";
const METADATA_URI: &str = "ipfs://QmZkN8nsyK5cWmKL9BfEzDvDU1DqYKdEgqPtAGh8qMhjBd";

struct TestContext {
    nft_address: Address,
    admin: Address,
    client: CertificateNFT,
}

fn address(strkey: &str) -> Address {
    Address::from_str(strkey)
}

fn auth_by(who: &Address) -> AuthContext {
    AuthContext::new(vec![who.clone()])
}

fn gen_random_bytes() -> [u8; 65] {
    let mut bytes = [0u8; 65];
    rand::rngs::OsRng.fill_bytes(&mut bytes);
    bytes
}

impl TestContext {
    fn new() -> Self {
        let admin = address("GADMINAAAAAAAAAAAAAAAAAAAAAAAAAAAAAAAAAAAAAAAAAAAAAAAAAA");
        let nft_address = address("CCONTRACTAAAAAAAAAAAAAAAAAAAAAAAAAAAAAAAAAAAAAAAAAAAAAAA");
        let mut client = CertificateNFT::new(
            "Traxodus Cerficates".to_string(),
            "TxCerts".to_string(),
        );
        client.initialize(&auth_by(&admin), admin.clone()).unwrap();
        TestContext { nft_address, admin, client }
    }
}

fn metadata(recipient: &Address, issuer: [u8; 65], course: &str) -> CertificateMetadata {
    CertificateMetadata {
        course_id: course.to_string(),
        issued_date: 0,
        issuer,
        metadata_uri: METADATA_URI.to_string(),
        signature: gen_random_bytes(),
        recipient: recipient.clone(),
    }
}

fn mint(ctx: &mut TestContext, m: &CertificateMetadata) -> Result<u32, Error> {
    ctx.client.mint_certificate(
        m.recipient.clone(),
        m.course_id.clone(),
        m.metadata_uri.clone(),
        m.issuer,
        m.issued_date,
        m.signature,
    )
}

#[test]
fn init_only_once() {
    let mut ctx = TestContext::new();
    let r = ctx.client.initialize(&auth_by(&ctx.admin), ctx.admin.clone());
    assert_eq!(r, Err(Error::AlreadyInitialized));
    assert_eq!(Error::AlreadyInitialized.code(), 100);
}

#[test]
fn test_transfer_admin() {
    let mut ctx = TestContext::new();
    let new_admin = address("GNEWADMIN");
    assert_eq!(ctx.client.transfer_admin(&auth_by(&ctx.admin), new_admin.clone()), Ok(()));
    match ctx.client.events().last() {
        Some(Event::AdminTransferInitiated { new_admin: a }) => assert_eq!(*a, new_admin),
        other => panic!("unexpected event {:?}", other),
    }
}

#[test]
fn test_claim_admin() {
    let mut ctx = TestContext::new();
    let new_admin = address("GNEWADMIN");
    ctx.client.transfer_admin(&auth_by(&ctx.admin), new_admin.clone()).unwrap();
    assert_eq!(ctx.client.accept_admin(&auth_by(&new_admin)), Ok(()));
    // the new admin now holds the role
    let issuer = gen_random_bytes();
    assert_eq!(ctx.client.add_issuer(&auth_by(&ctx.admin), issuer), Err(Error::Unauthorized));
    assert_eq!(ctx.client.add_issuer(&auth_by(&new_admin), issuer), Ok(()));
}

#[test]
fn test_set_admin_fail() {
    let mut ctx = TestContext::new();
    let new_admin = address("GNEWADMIN");
    let r = ctx.client.transfer_admin(&auth_by(&ctx.nft_address), new_admin);
    assert_eq!(r, Err(Error::Unauthorized));
}

#[test]
fn test_claim_admin_fail() {
    let mut ctx = TestContext::new();
    let new_admin = address("GNEWADMIN");
    let fake_admin = address("GFAKEADMIN");
    ctx.client.transfer_admin(&auth_by(&ctx.admin), new_admin).unwrap();
    assert_eq!(ctx.client.accept_admin(&auth_by(&fake_admin)), Err(Error::Unauthorized));
}

#[test]
fn test_admin_add_issuer() {
    let mut ctx = TestContext::new();
    let new_issuer = gen_random_bytes();
    assert_eq!(ctx.client.add_issuer(&auth_by(&ctx.admin), new_issuer), Ok(()));
    match ctx.client.events().last() {
        Some(Event::IssuerAdded { count }) => assert_eq!(*count, 1),
        other => panic!("unexpected event {:?}", other),
    }
}

#[test]
fn test_admin_add_issuer_fail() {
    let mut ctx = TestContext::new();
    let fake_admin = address("GFAKEADMIN");
    let new_issuer = gen_random_bytes();
    assert_eq!(ctx.client.add_issuer(&auth_by(&fake_admin), new_issuer), Err(Error::Unauthorized));
}

#[test]
fn test_add_issuer_fails_if_already_exists() {
    let mut ctx = TestContext::new();
    let new_issuer = gen_random_bytes();
    ctx.client.add_issuer(&auth_by(&ctx.admin), new_issuer).unwrap();
    let r = ctx.client.add_issuer(&auth_by(&ctx.admin), new_issuer);
    assert_eq!(r, Err(Error::IssuerAlreadySet));
    assert_eq!(r.unwrap_err().code(), 106);
}

#[test]
fn test_admin_remove_issuer() {
    let mut ctx = TestContext::new();
    let new_issuer = gen_random_bytes();
    ctx.client.add_issuer(&auth_by(&ctx.admin), new_issuer).unwrap();
    assert_eq!(ctx.client.remove_issuer(&auth_by(&ctx.admin), new_issuer), Ok(()));
    match ctx.client.events().last() {
        Some(Event::IssuerRemoved { count }) => assert_eq!(*count, 0),
        other => panic!("unexpected event {:?}", other),
    }
}

#[test]
fn test_admin_remove_issuer_fail() {
    let mut ctx = TestContext::new();
    let fake_admin = address("GFAKEADMIN");
    let new_issuer = gen_random_bytes();
    ctx.client.add_issuer(&auth_by(&ctx.admin), new_issuer).unwrap();
    let r = ctx.client.remove_issuer(&auth_by(&fake_admin), new_issuer);
    assert_eq!(r, Err(Error::Unauthorized));
}

#[test]
fn test_add_issuer_fails_if_not_found() {
    let mut ctx = TestContext::new();
    let rand_issuer = gen_random_bytes();
    let r = ctx.client.remove_issuer(&auth_by(&ctx.admin), rand_issuer);
    assert_eq!(r, Err(Error::IssuerNotFound));
    assert_eq!(r.unwrap_err().code(), 107);
}

#[test]
fn test_signature() {
    let (sk, pk) = generate_keypair();
    let recipient = address("GRECIPIENT");
    let m = metadata(&recipient, pk, COURSE);
    let signature = sign(&m, &sk).unwrap();
    let message = build_certificate_message(&m.recipient, &m.course_id, &m.metadata_uri, m.issued_date);
    assert!(verify_issuer_signature(&pk, &signature, &message));
}

#[test]
fn test_mint_certificate() {
    let mut ctx = TestContext::new();
    let (sk, new_issuer) = generate_keypair();
    ctx.client.add_issuer(&auth_by(&ctx.admin), new_issuer).unwrap();
    let recipient = address("GRECIPIENT");
    let mut m = metadata(&recipient, new_issuer, COURSE);
    m.signature = sign(&m, &sk).unwrap();

    let certificate_id = mint(&mut ctx, &m).unwrap();

    let issued_certificates = ctx.client.issued_certificates();
    let certificate_owner = ctx.client.owner_of(certificate_id).unwrap();
    let user_issued_certificate = ctx.client.user_issued_certificates(&m.recipient);

    assert_eq!(certificate_owner, m.recipient);
    assert_eq!(issued_certificates, 1);
    assert_eq!(user_issued_certificate, 1);
}

#[test]
fn test_mint_certificate_invalid_signature() {
    let mut ctx = TestContext::new();
    let (sk, new_issuer) = generate_keypair();
    ctx.client.add_issuer(&auth_by(&ctx.admin), new_issuer).unwrap();
    let recipient = address("GRECIPIENT");
    let mut m = metadata(&recipient, new_issuer, COURSE);
    m.signature = sign(&m, &sk).unwrap();
    m.course_id = WRONG_COURSE.to_string();

    let r = mint(&mut ctx, &m);
    assert_eq!(r, Err(Error::InvalidSignature));
    assert_eq!(r.unwrap_err().code(), 105);
}

#[test]
fn test_mint_certificate_failed_not_issuer() {
    let mut ctx = TestContext::new();
    let (sk, new_issuer) = generate_keypair();
    let recipient = address("GRECIPIENT");
    let mut m = metadata(&recipient, new_issuer, COURSE);
    m.signature = sign(&m, &sk).unwrap();

    let r = mint(&mut ctx, &m);
    assert_eq!(r, Err(Error::NotIssuer));
    assert_eq!(r.unwrap_err().code(), 102);
}

#[test]
fn test_verify_certificate() {
    let mut ctx = TestContext::new();
    let (sk, new_issuer) = generate_keypair();
    ctx.client.add_issuer(&auth_by(&ctx.admin), new_issuer).unwrap();
    let recipient = address("GRECIPIENT");
    let mut m = metadata(&recipient, new_issuer, COURSE);
    m.signature = sign(&m, &sk).unwrap();
    let certificate_id = mint(&mut ctx, &m).unwrap();

    let certificate_data =
        build_certificate_message(&m.recipient, &m.course_id, &m.metadata_uri, m.issued_date);
    let verified = ctx.client.verify_certificate(certificate_id, &certificate_data);
    assert_eq!(verified, Ok(true));
}

#[test]
fn test_verify_certificate_failed() {
    let mut ctx = TestContext::new();
    let (sk, new_issuer) = generate_keypair();
    ctx.client.add_issuer(&auth_by(&ctx.admin), new_issuer).unwrap();
    let recipient = address("GRECIPIENT");
    let mut m = metadata(&recipient, new_issuer, COURSE);
    m.signature = sign(&m, &sk).unwrap();
    let certificate_id = mint(&mut ctx, &m).unwrap();

    let certificate_data =
        build_certificate_message(&m.recipient, WRONG_COURSE, &m.metadata_uri, m.issued_date);
    let verified = ctx.client.verify_certificate(certificate_id, &certificate_data);
    assert_eq!(verified, Ok(false));
}

#[test]
fn test_verify_certificate_failed_certificate_not_found() {
    let ctx = TestContext::new();
    let recipient = address("GRECIPIENT");
    let empty_bytes = gen_random_bytes();
    let m = metadata(&recipient, empty_bytes, COURSE);
    let certificate_id = 20;
    let certificate_data =
        build_certificate_message(&m.recipient, &m.course_id, &m.metadata_uri, m.issued_date);
    let r = ctx.client.verify_certificate(certificate_id, &certificate_data);
    assert_eq!(r, Err(Error::CertificateNotFound));
    assert_eq!(r.unwrap_err().code(), 103);
}
