//! Certificate registry with verifiable, issuer-signed credentials.
//!
//! An admin authorizes issuers by public key; anyone holding a payload that an
//! authorized issuer signed may mint it. Each certificate keeps its signature, so it
//! can be checked again later against the bytes that were signed.
use vstd::prelude::*;
use crate::encoding::{
    build_certificate_message, certificate_fits, certificate_message, message_fits,
};
use crate::errors::Error;
use crate::events::{Event, EventRecord, Events};
use crate::signature::{bytes65_equal, signature_valid, verify_issuer_signature};
use crate::storage::{keys_view, register_count, RegistryState, Storage};
use crate::types::{Address, CertificateDetail, CertificateMetadata, CertificateRecord};

verus! {

/// The identities that authorized the current call.
pub struct AuthContext {
    signers: Vec<Address>,
}

impl View for AuthContext {
    type V = Seq<Seq<char>>;

    closed spec fn view(&self) -> Seq<Seq<char>> {
        self.signers@.map_values(|a: Address| a@)
    }
}

impl AuthContext {
    /// A call authorized by exactly the identities in `signers`.
    pub fn new(signers: Vec<Address>) -> (r: AuthContext)
        ensures
            r@ == signers@.map_values(|a: Address| a@),
    {
        AuthContext { signers }
    }

    /// Succeeds when `who` authorized the current call, and fails with `Unauthorized`
    /// otherwise.
    pub fn assert_caller_is(&self, who: &Address) -> (r: Result<(), Error>)
        ensures
            r == (if self@.contains(who@) {
                Ok::<(), Error>(())
            } else {
                Err(Error::Unauthorized)
            }),
    {
        let mut i: usize = 0;
        while i < self.signers.len()
            invariant
                i <= self.signers@.len(),
                forall|j: int| 0 <= j < i ==> self@[j] != who@,
            decreases self.signers@.len() - i,
        {
            if self.signers[i].same_as(who) {
                assert(self@[i as int] == who@);
                return Ok(());
            }
            i = i + 1;
        }
        Err(Error::Unauthorized)
    }
}

/// The registry's state together with the notifications it has published.
pub ghost struct NftState {
    pub registry: RegistryState,
    pub events: Seq<EventRecord>,
}

/// The invariant of the registry: one owner and one record per issued id, each record
/// owned by its recipient; no issuer listed twice; per-recipient counts bounded by the
/// total; and nothing but the name and symbol before initialization.
pub open spec fn registry_wf(s: RegistryState) -> bool {
    &&& s.owners.len() == s.counter
    &&& s.certificates.len() == s.counter
    &&& s.issuers.no_duplicates()
    &&& forall|who: Seq<char>| register_count(s.register, who) <= s.counter
    &&& forall|i: int| 0 <= i < s.counter ==> #[trigger] s.owners[i] == s.certificates[i].recipient
    &&& s.admin is None ==> s.issuers.len() == 0 && s.counter == 0 && s.pending_admin is None
}

/// Whether the admin-only operations may proceed: an admin exists and authorized the call.
pub open spec fn admin_check(s: RegistryState, auth: Seq<Seq<char>>) -> Result<(), Error> {
    match s.admin {
        None => Err(Error::NotAdmin),
        Some(a) => if auth.contains(a) {
            Ok(())
        } else {
            Err(Error::Unauthorized)
        },
    }
}

/// The state after `initialize(admin)`, or its failure.
pub open spec fn initialize_outcome(
    s: RegistryState,
    auth: Seq<Seq<char>>,
    admin: Seq<char>,
) -> Result<RegistryState, Error> {
    if s.admin is Some {
        Err(Error::AlreadyInitialized)
    } else if !auth.contains(admin) {
        Err(Error::Unauthorized)
    } else {
        Ok(RegistryState { admin: Some(admin), issuers: Seq::empty(), counter: 0, ..s })
    }
}

/// The state after `transfer_admin(new_admin)`, or its failure.
pub open spec fn transfer_admin_outcome(
    s: RegistryState,
    auth: Seq<Seq<char>>,
    new_admin: Seq<char>,
) -> Result<RegistryState, Error> {
    match admin_check(s, auth) {
        Err(e) => Err(e),
        Ok(_) => Ok(RegistryState { pending_admin: Some(new_admin), ..s }),
    }
}

/// The state after `accept_admin()`, or its failure.
pub open spec fn accept_admin_outcome(s: RegistryState, auth: Seq<Seq<char>>) -> Result<
    RegistryState,
    Error,
> {
    match s.pending_admin {
        None => Err(Error::NoPendingAdmin),
        Some(p) => if auth.contains(p) {
            Ok(RegistryState { admin: Some(p), pending_admin: None, ..s })
        } else {
            Err(Error::Unauthorized)
        },
    }
}

/// The state after `add_issuer(key)`, or its failure.
pub open spec fn add_issuer_outcome(s: RegistryState, auth: Seq<Seq<char>>, key: Seq<u8>) -> Result<
    RegistryState,
    Error,
> {
    match admin_check(s, auth) {
        Err(e) => Err(e),
        Ok(_) => if s.issuers.contains(key) {
            Err(Error::IssuerAlreadySet)
        } else {
            Ok(RegistryState { issuers: s.issuers.push(key), ..s })
        },
    }
}

/// The state after `remove_issuer(key)`, or its failure.
pub open spec fn remove_issuer_outcome(
    s: RegistryState,
    auth: Seq<Seq<char>>,
    key: Seq<u8>,
) -> Result<RegistryState, Error> {
    match admin_check(s, auth) {
        Err(e) => Err(e),
        Ok(_) => if !s.issuers.contains(key) {
            Err(Error::IssuerNotFound)
        } else {
            Ok(RegistryState { issuers: s.issuers.remove_value(key), ..s })
        },
    }
}

/// The state after minting the certificate `c` (whose id is the current counter), or
/// its failure.
pub open spec fn mint_outcome(s: RegistryState, c: CertificateRecord) -> Result<
    RegistryState,
    Error,
> {
    if !s.issuers.contains(c.issuer) {
        Err(Error::NotIssuer)
    } else if !certificate_fits(c.recipient, c.course_id, c.metadata_uri) {
        Err(Error::InvalidData)
    } else if !signature_valid(
        c.issuer,
        c.signature,
        certificate_message(c.recipient, c.course_id, c.metadata_uri, c.issued_date),
    ) {
        Err(Error::InvalidSignature)
    } else {
        Ok(
            RegistryState {
                counter: (s.counter + 1) as u32,
                owners: s.owners.push(c.recipient),
                certificates: s.certificates.push(c),
                register: s.register.push(
                    (c.recipient, (register_count(s.register, c.recipient) + 1) as u32),
                ),
                ..s
            },
        )
    }
}

/// A copy of a list of keys.
fn copy_keys(keys: &Vec<[u8; 65]>) -> (r: Vec<[u8; 65]>)
    ensures
        r@ == keys@,
{
    let mut out: Vec<[u8; 65]> = Vec::new();
    let mut i: usize = 0;
    while i < keys.len()
        invariant
            i <= keys@.len(),
            out@ == keys@.subrange(0, i as int),
        decreases keys@.len() - i,
    {
        out.push(keys[i]);
        assert(keys@.subrange(0, i + 1) =~= keys@.subrange(0, i as int).push(keys@[i as int]));
        i = i + 1;
    }
    assert(keys@.subrange(0, i as int) =~= keys@);
    out
}

/// The position of the first key in `keys` equal to `key`.
fn first_index_of(keys: &Vec<[u8; 65]>, key: &[u8; 65]) -> (r: Option<usize>)
    ensures
        match r {
            Some(i) => keys_view(keys@).index_of_first(key@) == Some(i as int),
            None => !keys_view(keys@).contains(key@),
        },
{
    let ghost view = keys_view(keys@);
    let mut i: usize = 0;
    while i < keys.len()
        invariant
            i <= keys@.len(),
            view == keys_view(keys@),
            forall|j: int| 0 <= j < i ==> view[j] != key@,
        decreases keys@.len() - i,
    {
        if bytes65_equal(&keys[i], key) {
            proof {
                view.index_of_first_ensures(key@);
                assert(view[i as int] == key@);
            }
            return Some(i);
        }
        i = i + 1;
    }
    None
}

/// The certificate registry: persisted state and published notifications.
pub struct CertificateNFT {
    storage: Storage,
    events: Events,
}

impl View for CertificateNFT {
    type V = NftState;

    closed spec fn view(&self) -> NftState {
        NftState { registry: self.storage@, events: self.events@ }
    }
}

impl CertificateNFT {
    /// The invariant of the registry.
    pub open spec fn wf(&self) -> bool {
        registry_wf(self@.registry)
    }

    /// A registry with the given display name and symbol, not yet initialized.
    pub fn new(name: String, symbol: String) -> (r: CertificateNFT)
        ensures
            r.wf(),
            r@.registry == (RegistryState {
                name: name@,
                symbol: symbol@,
                admin: None,
                pending_admin: None,
                issuers: Seq::empty(),
                counter: 0,
                owners: Seq::empty(),
                certificates: Seq::empty(),
                register: Seq::empty(),
            }),
            r@.events == Seq::<EventRecord>::empty(),
    {
        let storage = Storage::new(name, symbol);
        let events = Events::new();
        CertificateNFT { storage, events }
    }

    fn require_admin(&self, auth: &AuthContext) -> (r: Result<(), Error>)
        ensures
            r == admin_check(self@.registry, auth@),
    {
        match self.storage.get_admin() {
            None => Err(Error::NotAdmin),
            Some(admin) => auth.assert_caller_is(&admin),
        }
    }

    /// Initializes the registry with its admin. Can only be called once, with the
    /// admin's authorization.
    pub fn initialize(&mut self, auth: &AuthContext, admin: Address) -> (r: Result<(), Error>)
        requires
            old(self).wf(),
        ensures
            final(self).wf(),
            match initialize_outcome(old(self)@.registry, auth@, admin@) {
                Ok(next) => r is Ok && final(self)@ == (NftState {
                    registry: next,
                    events: old(self)@.events,
                }),
                Err(e) => r == Err::<(), Error>(e) && final(self)@ == old(self)@,
            },
    {
        if self.storage.get_admin().is_some() {
            return Err(Error::AlreadyInitialized);
        }
        match auth.assert_caller_is(&admin) {
            Err(e) => return Err(e),
            Ok(()) => {},
        }
        self.storage.set_admin(&admin);
        self.storage.set_issuers(Vec::new());
        self.storage.set_token_counter(0);
        proof {
            assert(keys_view(Seq::<[u8; 65]>::empty()) =~= Seq::<Seq<u8>>::empty());
            assert(self@.registry =~= initialize_outcome(old(self)@.registry, auth@, admin@)->Ok_0);
        }
        Ok(())
    }

    /// Offers the admin role to `new_admin`; the current admin stays until it is
    /// accepted. A later offer replaces an earlier one.
    pub fn transfer_admin(&mut self, auth: &AuthContext, new_admin: Address) -> (r: Result<
        (),
        Error,
    >)
        requires
            old(self).wf(),
        ensures
            final(self).wf(),
            match transfer_admin_outcome(old(self)@.registry, auth@, new_admin@) {
                Ok(next) => r is Ok && final(self)@ == (NftState {
                    registry: next,
                    events: old(self)@.events.push(
                        EventRecord::AdminTransferInitiated { new_admin: new_admin@ },
                    ),
                }),
                Err(e) => r == Err::<(), Error>(e) && final(self)@ == old(self)@,
            },
    {
        match self.require_admin(auth) {
            Err(e) => return Err(e),
            Ok(()) => {},
        }
        self.storage.set_pending_admin(&new_admin);
        self.events.admin_transfer_initiated(&new_admin);
        Ok(())
    }

    /// Takes the admin role offered by `transfer_admin`, with the candidate's
    /// authorization.
    pub fn accept_admin(&mut self, auth: &AuthContext) -> (r: Result<(), Error>)
        requires
            old(self).wf(),
        ensures
            final(self).wf(),
            match accept_admin_outcome(old(self)@.registry, auth@) {
                Ok(next) => r is Ok && final(self)@ == (NftState {
                    registry: next,
                    events: old(self)@.events.push(
                        EventRecord::AdminTransferCompleted {
                            new_admin: old(self)@.registry.pending_admin->Some_0,
                        },
                    ),
                }),
                Err(e) => r == Err::<(), Error>(e) && final(self)@ == old(self)@,
            },
    {
        let pending_admin = match self.storage.get_pending_admin() {
            None => return Err(Error::NoPendingAdmin),
            Some(p) => p,
        };
        match auth.assert_caller_is(&pending_admin) {
            Err(e) => return Err(e),
            Ok(()) => {},
        }
        self.storage.set_admin(&pending_admin);
        self.storage.clear_pending_admin();
        self.events.admin_transfer_completed(&pending_admin);
        Ok(())
    }

    /// Adds `issuer` to the allow-list, with the admin's authorization. A key already
    /// listed is refused.
    pub fn add_issuer(&mut self, auth: &AuthContext, issuer: [u8; 65]) -> (r: Result<(), Error>)
        requires
            old(self).wf(),
        ensures
            final(self).wf(),
            match add_issuer_outcome(old(self)@.registry, auth@, issuer@) {
                Ok(next) => r is Ok && final(self)@ == (NftState {
                    registry: next,
                    events: old(self)@.events.push(
                        EventRecord::IssuerAdded { count: next.issuers.len() as u32 },
                    ),
                }),
                Err(e) => r == Err::<(), Error>(e) && final(self)@ == old(self)@,
            },
    {
        match self.require_admin(auth) {
            Err(e) => return Err(e),
            Ok(()) => {},
        }
        let mut issuers = copy_keys(self.storage.get_issuers());
        if first_index_of(&issuers, &issuer).is_some() {
            proof {
                keys_view(issuers@).index_of_first_ensures(issuer@);
            }
            return Err(Error::IssuerAlreadySet);
        }
        issuers.push(issuer);
        let count = #[verifier::truncate] (issuers.len() as u32);
        proof {
            assert(keys_view(issuers@) =~= old(self)@.registry.issuers.push(issuer@));
        }
        self.storage.set_issuers(issuers);
        self.events.add_issuer(count);
        Ok(())
    }

    /// Removes `issuer` from the allow-list, with the admin's authorization. A key not
    /// listed is refused.
    pub fn remove_issuer(&mut self, auth: &AuthContext, issuer: [u8; 65]) -> (r: Result<(), Error>)
        requires
            old(self).wf(),
        ensures
            final(self).wf(),
            match remove_issuer_outcome(old(self)@.registry, auth@, issuer@) {
                Ok(next) => r is Ok && final(self)@ == (NftState {
                    registry: next,
                    events: old(self)@.events.push(
                        EventRecord::IssuerRemoved { count: next.issuers.len() as u32 },
                    ),
                }),
                Err(e) => r == Err::<(), Error>(e) && final(self)@ == old(self)@,
            },
    {
        match self.require_admin(auth) {
            Err(e) => return Err(e),
            Ok(()) => {},
        }
        let mut issuers = copy_keys(self.storage.get_issuers());
        let index = match first_index_of(&issuers, &issuer) {
            None => return Err(Error::IssuerNotFound),
            Some(i) => i,
        };
        let ghost before = keys_view(issuers@);
        proof {
            before.index_of_first_ensures(issuer@);
        }
        issuers.remove(index);
        let count = #[verifier::truncate] (issuers.len() as u32);
        proof {
            assert(keys_view(issuers@) =~= before.remove(index as int));
            assert(before.remove_value(issuer@) == before.remove(index as int));
            lemma_remove_keeps_distinct(before, index as int);
        }
        self.storage.set_issuers(issuers);
        self.events.remove_issuer(count);
        Ok(())
    }
    /// Mints a certificate: the issuer key must be on the allow-list and the signature
    /// must verify over the canonical message of the other fields. Returns the new id,
    /// the counter's value before the call.
    pub fn mint_certificate(
        &mut self,
        recipient: Address,
        course_id: String,
        metadata_uri: String,
        issuer: [u8; 65],
        issued_date: u64,
        signature: [u8; 65],
    ) -> (r: Result<u32, Error>)
        requires
            old(self).wf(),
            old(self)@.registry.counter < u32::MAX,
        ensures
            final(self).wf(),
            match mint_outcome(
                old(self)@.registry,
                (CertificateRecord {
                    course_id: course_id@,
                    issued_date,
                    issuer: issuer@,
                    metadata_uri: metadata_uri@,
                    signature: signature@,
                    recipient: recipient@,
                }),
            ) {
                Ok(next) => r == Ok::<u32, Error>(old(self)@.registry.counter) && final(self)@ == (
                NftState {
                    registry: next,
                    events: old(self)@.events.push(
                        EventRecord::Mint {
                            to: recipient@,
                            certificate_id: old(self)@.registry.counter,
                        },
                    ),
                }),
                Err(e) => r == Err::<u32, Error>(e) && final(self)@ == old(self)@,
            },
    {
        if first_index_of(self.storage.get_issuers(), &issuer).is_none() {
            return Err(Error::NotIssuer);
        }
        proof {
            self@.registry.issuers.index_of_first_ensures(issuer@);
        }
        let certificate_id = self.storage.get_token_counter();
        if !message_fits(&recipient, course_id.as_str(), metadata_uri.as_str()) {
            return Err(Error::InvalidData);
        }
        let message = build_certificate_message(
            &recipient,
            course_id.as_str(),
            metadata_uri.as_str(),
            issued_date,
        );
        if !verify_issuer_signature(&issuer, &signature, message.as_slice()) {
            return Err(Error::InvalidSignature);
        }
        let ghost old_register = self@.registry.register;
        let ghost old_counter = self@.registry.counter;
        let metadata = CertificateMetadata {
            course_id,
            issued_date,
            issuer,
            metadata_uri,
            signature,
            recipient: recipient.clone(),
        };
        self.storage.set_certificate_metadata(certificate_id, &metadata);
        self.storage.set_certificate_owner(certificate_id, &recipient);
        self.storage.register_new_certificate(&recipient);
        self.storage.set_token_counter(certificate_id + 1);
        self.events.mint(&recipient, certificate_id);
        proof {
            let s = self@.registry;
            assert forall|who: Seq<char>| register_count(s.register, who) <= s.counter by {
                assert(s.register.drop_last() =~= old_register);
                assert(register_count(old_register, who) <= old_counter);
                assert(register_count(old_register, recipient@) <= old_counter);
            }
        }
        Ok(certificate_id)
    }

    /// Checks `certificate_data` against the signature and issuer key stored with
    /// certificate `certificate_id`: `Ok(false)` where it does not match.
    pub fn verify_certificate(&self, certificate_id: u32, certificate_data: &[u8]) -> (r: Result<
        bool,
        Error,
    >)
        requires
            self.wf(),
        ensures
            r == (if certificate_id < self@.registry.counter {
                Ok::<bool, Error>(
                    signature_valid(
                        self@.registry.certificates[certificate_id as int].issuer,
                        self@.registry.certificates[certificate_id as int].signature,
                        certificate_data@,
                    ),
                )
            } else {
                Err(Error::CertificateNotFound)
            }),
    {
        match self.storage.get_certificate_metadata(certificate_id) {
            None => Err(Error::CertificateNotFound),
            Some(cert) => Ok(verify_issuer_signature(&cert.issuer, &cert.signature, certificate_data)),
        }
    }

    /// The display name given at construction.
    pub fn name(&self) -> (r: String)
        ensures
            r@ == self@.registry.name,
    {
        self.storage.get_name()
    }

    /// The display symbol given at construction.
    pub fn symbol(&self) -> (r: String)
        ensures
            r@ == self@.registry.symbol,
    {
        self.storage.get_symbol()
    }

    /// The number of certificates minted so far.
    pub fn issued_certificates(&self) -> (r: u32)
        ensures
            r == self@.registry.counter,
    {
        self.storage.get_token_counter()
    }

    /// The owner of certificate `certificate_id`.
    pub fn owner_of(&self, certificate_id: u32) -> (r: Result<Address, Error>)
        requires
            self.wf(),
        ensures
            match r {
                Ok(a) => certificate_id < self@.registry.counter && a@
                    == self@.registry.owners[certificate_id as int],
                Err(e) => certificate_id >= self@.registry.counter && e == Error::CertificateNotFound,
            },
    {
        match self.storage.get_certificate_owner(certificate_id) {
            None => Err(Error::CertificateNotFound),
            Some(owner) => Ok(owner),
        }
    }

    /// The owner and metadata of certificate `certificate_id`.
    pub fn certificate_metadata(&self, certificate_id: u32) -> (r: Result<CertificateDetail, Error>)
        requires
            self.wf(),
        ensures
            match r {
                Ok(d) => certificate_id < self@.registry.counter && d.owner@
                    == self@.registry.owners[certificate_id as int] && d.metadata@
                    == self@.registry.certificates[certificate_id as int],
                Err(e) => certificate_id >= self@.registry.counter && e == Error::CertificateNotFound,
            },
    {
        let owner = match self.storage.get_certificate_owner(certificate_id) {
            None => return Err(Error::CertificateNotFound),
            Some(o) => o,
        };
        match self.storage.get_certificate_metadata(certificate_id) {
            None => Err(Error::CertificateNotFound),
            Some(metadata) => Ok(CertificateDetail { owner, metadata }),
        }
    }

    /// The number of certificates issued to `address`.
    pub fn user_issued_certificates(&self, address: &Address) -> (r: u32)
        ensures
            r == register_count(self@.registry.register, address@),
    {
        self.storage.certificates_issued_to_user(address)
    }

    /// The notifications published so far, oldest first.
    pub fn events(&self) -> (r: &Vec<Event>)
        ensures
            r@.map_values(|e: Event| e@) == self@.events,
    {
        self.events.published()
    }
}

proof fn lemma_remove_keeps_distinct(s: Seq<Seq<u8>>, i: int)
    requires
        s.no_duplicates(),
        0 <= i < s.len(),
    ensures
        s.remove(i).no_duplicates(),
{
    let t = s.remove(i);
    assert forall|a: int, b: int| 0 <= a < t.len() && 0 <= b < t.len() && a != b implies t[a]
        != t[b] by {
        let a0 = if a < i { a } else { a + 1 };
        let b0 = if b < i { b } else { b + 1 };
        assert(t[a] == s[a0]);
        assert(t[b] == s[b0]);
    }
}

/// The state and the ids handed out after attempting to mint `certs` one after the
/// other from `s`: a failed attempt changes nothing and hands out no id.
pub open spec fn mint_all(s: RegistryState, certs: Seq<CertificateRecord>) -> (
    RegistryState,
    Seq<u32>,
)
    decreases certs.len(),
{
    if certs.len() == 0 {
        (s, Seq::empty())
    } else {
        let prev = mint_all(s, certs.drop_last());
        match mint_outcome(prev.0, certs.last()) {
            Ok(next) => (next, prev.1.push(prev.0.counter)),
            Err(_) => prev,
        }
    }
}

/// Adding the same issuer key twice: the second call fails with `IssuerAlreadySet`.
pub proof fn lemma_add_issuer_twice(s: RegistryState, auth: Seq<Seq<char>>, key: Seq<u8>)
    requires
        add_issuer_outcome(s, auth, key) is Ok,
    ensures
        add_issuer_outcome(add_issuer_outcome(s, auth, key)->Ok_0, auth, key) == Err::<
            RegistryState,
            Error,
        >(Error::IssuerAlreadySet),
{
    let t = add_issuer_outcome(s, auth, key)->Ok_0;
    assert(t.issuers[s.issuers.len() as int] == key);
}

/// Removing a key that is not on the allow-list fails with `IssuerNotFound` once the
/// admin has authorized the call.
pub proof fn lemma_remove_absent_issuer(s: RegistryState, auth: Seq<Seq<char>>, key: Seq<u8>)
    requires
        admin_check(s, auth) is Ok,
        !s.issuers.contains(key),
    ensures
        remove_issuer_outcome(s, auth, key) == Err::<RegistryState, Error>(Error::IssuerNotFound),
{
}

/// Before any transfer of the admin role, accepting it fails with `NoPendingAdmin`,
/// whoever calls: initialization leaves no candidate.
pub proof fn lemma_accept_before_transfer(
    s: RegistryState,
    init_auth: Seq<Seq<char>>,
    admin: Seq<char>,
    auth: Seq<Seq<char>>,
)
    requires
        registry_wf(s),
        initialize_outcome(s, init_auth, admin) is Ok,
    ensures
        accept_admin_outcome(initialize_outcome(s, init_auth, admin)->Ok_0, auth) == Err::<
            RegistryState,
            Error,
        >(Error::NoPendingAdmin),
{
}

/// After `transfer_admin(candidate)`, `accept_admin` succeeds exactly for a call that
/// the candidate authorized, and then the candidate is admin with nothing pending; any
/// other call fails with `Unauthorized`.
pub proof fn lemma_transfer_then_accept(
    s: RegistryState,
    transfer_auth: Seq<Seq<char>>,
    candidate: Seq<char>,
    auth: Seq<Seq<char>>,
)
    requires
        transfer_admin_outcome(s, transfer_auth, candidate) is Ok,
    ensures
        ({
            let t = transfer_admin_outcome(s, transfer_auth, candidate)->Ok_0;
            &&& accept_admin_outcome(t, auth) is Ok <==> auth.contains(candidate)
            &&& !auth.contains(candidate) ==> accept_admin_outcome(t, auth) == Err::<
                RegistryState,
                Error,
            >(Error::Unauthorized)
            &&& auth.contains(candidate) ==> accept_admin_outcome(t, auth)->Ok_0.admin == Some(
                candidate,
            ) && accept_admin_outcome(t, auth)->Ok_0.pending_admin is None
        }),
{
}

/// Successful mints take ids in call order: attempting to mint `certs` one after the
/// other from a registry whose counter is `c`, failed attempts interleaved, the
/// successful ones return `c, c + 1, ...` and leave the counter at `c` plus their
/// number (from a fresh registry: `0 .. N - 1`, and `N` issued).
pub proof fn lemma_mint_ids_in_order(s: RegistryState, certs: Seq<CertificateRecord>)
    requires
        s.counter + certs.len() <= u32::MAX,
    ensures
        ({
            let (t, ids) = mint_all(s, certs);
            &&& ids.len() <= certs.len()
            &&& forall|i: int| 0 <= i < ids.len() ==> ids[i] == s.counter + i
            &&& t.counter == s.counter + ids.len()
        }),
    decreases certs.len(),
{
    if certs.len() > 0 {
        lemma_mint_ids_in_order(s, certs.drop_last());
    }
}

/// A key that is not on the allow-list cannot mint, whatever the signature: the call
/// fails with `NotIssuer` and changes nothing.
pub proof fn lemma_unlisted_issuer_cannot_mint(s: RegistryState, c: CertificateRecord)
    requires
        !s.issuers.contains(c.issuer),
    ensures
        mint_outcome(s, c) == Err::<RegistryState, Error>(Error::NotIssuer),
{
}

/// Whether `c` is a correctly signed payload for the key `key`.
pub open spec fn signed_payload(c: CertificateRecord, key: Seq<u8>) -> bool {
    &&& c.issuer == key
    &&& certificate_fits(c.recipient, c.course_id, c.metadata_uri)
    &&& signature_valid(
        c.issuer,
        c.signature,
        certificate_message(c.recipient, c.course_id, c.metadata_uri, c.issued_date),
    )
}

/// After initialization and the admin's adding of an issuer key, two correctly signed
/// payloads of that key for one recipient mint as ids 0 and 1; the first is owned by
/// the recipient, whose count is then 1, and 2 after the second.
pub proof fn lemma_first_two_mints(
    s: RegistryState,
    auth: Seq<Seq<char>>,
    admin: Seq<char>,
    key: Seq<u8>,
    first: CertificateRecord,
    second: CertificateRecord,
)
    requires
        registry_wf(s),
        initialize_outcome(s, auth, admin) is Ok,
        add_issuer_outcome(initialize_outcome(s, auth, admin)->Ok_0, auth, key) is Ok,
        signed_payload(first, key),
        signed_payload(second, key),
        first.recipient == second.recipient,
    ensures
        ({
            let ready = add_issuer_outcome(initialize_outcome(s, auth, admin)->Ok_0, auth, key)->Ok_0;
            let one = mint_outcome(ready, first);
            &&& ready.counter == 0
            &&& one is Ok
            &&& one->Ok_0.owners[0] == first.recipient
            &&& register_count(one->Ok_0.register, first.recipient) == 1
            &&& one->Ok_0.counter == 1
            &&& mint_outcome(one->Ok_0, second) is Ok
            &&& register_count(mint_outcome(one->Ok_0, second)->Ok_0.register, first.recipient)
                == 2
        }),
{
    let ready = add_issuer_outcome(initialize_outcome(s, auth, admin)->Ok_0, auth, key)->Ok_0;
    assert(register_count(s.register, first.recipient) <= s.counter);
    assert(ready.issuers[0] == key);
    let one = mint_outcome(ready, first)->Ok_0;
    assert(one.register.drop_last() =~= ready.register);
    assert(one.issuers[0] == key);
    let two = mint_outcome(one, second)->Ok_0;
    assert(two.register.drop_last() =~= one.register);
}

} // verus!
