use vstd::prelude::*;
use crate::types::{Address, CertificateMetadata, CertificateRecord};

verus! {

/// Everything the registry keeps, as plain values.
pub ghost struct RegistryState {
    pub name: Seq<char>,
    pub symbol: Seq<char>,
    pub admin: Option<Seq<char>>,
    pub pending_admin: Option<Seq<char>>,
    pub issuers: Seq<Seq<u8>>,
    pub counter: u32,
    pub owners: Seq<Seq<char>>,
    pub certificates: Seq<CertificateRecord>,
    /// Per-recipient issuance counts; the latest entry for a recipient holds its count.
    pub register: Seq<(Seq<char>, u32)>,
}

/// The number of certificates issued to `who` according to `register`: the count of its
/// latest entry, or zero where it has none.
pub open spec fn register_count(register: Seq<(Seq<char>, u32)>, who: Seq<char>) -> nat
    decreases register.len(),
{
    if register.len() == 0 {
        0
    } else if register.last().0 == who {
        register.last().1 as nat
    } else {
        register_count(register.drop_last(), who)
    }
}

/// The byte views of a list of keys.
pub open spec fn keys_view(keys: Seq<[u8; 65]>) -> Seq<Seq<u8>> {
    keys.map_values(|k: [u8; 65]| k@)
}

/// The identity views of an optional address.
pub open spec fn address_option(a: Option<Address>) -> Option<Seq<char>> {
    match a {
        Some(x) => Some(x@),
        None => None,
    }
}

/// The registry's persisted state: admin role, issuer allow-list, id counter and the
/// certificates with their owners and per-recipient counts.
pub struct Storage {
    admin: Option<Address>,
    pending_admin: Option<Address>,
    name: String,
    symbol: String,
    issuers: Vec<[u8; 65]>,
    counter: u32,
    owners: Vec<Address>,
    certificates: Vec<CertificateMetadata>,
    register: Vec<(Address, u32)>,
}

impl View for Storage {
    type V = RegistryState;

    closed spec fn view(&self) -> RegistryState {
        RegistryState {
            name: self.name@,
            symbol: self.symbol@,
            admin: address_option(self.admin),
            pending_admin: address_option(self.pending_admin),
            issuers: keys_view(self.issuers@),
            counter: self.counter,
            owners: self.owners@.map_values(|a: Address| a@),
            certificates: self.certificates@.map_values(|c: CertificateMetadata| c@),
            register: self.register@.map_values(|e: (Address, u32)| (e.0@, e.1)),
        }
    }
}

impl Storage {
    /// A store with the given display name and symbol and nothing else.
    pub fn new(name: String, symbol: String) -> (r: Storage)
        ensures
            r@ == (RegistryState {
                name: name@,
                symbol: symbol@,
                admin: None,
                pending_admin: None,
                issuers: Seq::empty(),
                counter: 0,
                owners: Seq::empty(),
                certificates: Seq::empty(),
                register: Seq::empty(),
            }),
    {
        let r = Storage {
            admin: None,
            pending_admin: None,
            name,
            symbol,
            issuers: Vec::new(),
            counter: 0,
            owners: Vec::new(),
            certificates: Vec::new(),
            register: Vec::new(),
        };
        assert(r@.issuers =~= Seq::<Seq<u8>>::empty());
        assert(r@.owners =~= Seq::<Seq<char>>::empty());
        assert(r@.certificates =~= Seq::<CertificateRecord>::empty());
        assert(r@.register =~= Seq::<(Seq<char>, u32)>::empty());
        r
    }

    /// Makes `admin` the admin.
    pub fn set_admin(&mut self, admin: &Address)
        ensures
            final(self)@ == (RegistryState { admin: Some(admin@), ..old(self)@ }),
    {
        self.admin = Some(admin.clone());
    }

    /// The admin, once there is one.
    pub fn get_admin(&self) -> (r: Option<Address>)
        ensures
            address_option(r) == self@.admin,
    {
        match &self.admin {
            Some(a) => Some(a.clone()),
            None => None,
        }
    }

    /// Makes `address` the candidate for the admin role.
    pub fn set_pending_admin(&mut self, address: &Address)
        ensures
            final(self)@ == (RegistryState { pending_admin: Some(address@), ..old(self)@ }),
    {
        self.pending_admin = Some(address.clone());
    }

    /// The candidate for the admin role, if any.
    pub fn get_pending_admin(&self) -> (r: Option<Address>)
        ensures
            address_option(r) == self@.pending_admin,
    {
        match &self.pending_admin {
            Some(a) => Some(a.clone()),
            None => None,
        }
    }

    /// Forgets the candidate for the admin role.
    pub fn clear_pending_admin(&mut self)
        ensures
            final(self)@ == (RegistryState { pending_admin: None, ..old(self)@ }),
    {
        self.pending_admin = None;
    }

    /// Sets the display name.
    pub fn set_name(&mut self, name: &str)
        ensures
            final(self)@ == (RegistryState { name: name@, ..old(self)@ }),
    {
        self.name = name.to_owned();
    }

    /// The display name.
    pub fn get_name(&self) -> (r: String)
        ensures
            r@ == self@.name,
    {
        self.name.clone()
    }

    /// Sets the display symbol.
    pub fn set_symbol(&mut self, symbol: &str)
        ensures
            final(self)@ == (RegistryState { symbol: symbol@, ..old(self)@ }),
    {
        self.symbol = symbol.to_owned();
    }

    /// The display symbol.
    pub fn get_symbol(&self) -> (r: String)
        ensures
            r@ == self@.symbol,
    {
        self.symbol.clone()
    }

    /// Replaces the issuer allow-list.
    pub fn set_issuers(&mut self, issuers: Vec<[u8; 65]>)
        ensures
            final(self)@ == (RegistryState { issuers: keys_view(issuers@), ..old(self)@ }),
    {
        self.issuers = issuers;
    }

    /// The issuer allow-list, in order of addition.
    pub fn get_issuers(&self) -> (r: &Vec<[u8; 65]>)
        ensures
            keys_view(r@) == self@.issuers,
    {
        &self.issuers
    }

    /// Sets the next certificate id.
    pub fn set_token_counter(&mut self, count: u32)
        ensures
            final(self)@ == (RegistryState { counter: count, ..old(self)@ }),
    {
        self.counter = count;
    }

    /// The next certificate id, which is also the number issued.
    pub fn get_token_counter(&self) -> (r: u32)
        ensures
            r == self@.counter,
    {
        self.counter
    }

    /// Records the owner of certificate `certificate_id`, the next one or one already held.
    pub fn set_certificate_owner(&mut self, certificate_id: u32, owner: &Address)
        requires
            certificate_id <= old(self)@.owners.len(),
        ensures
            final(self)@ == (RegistryState {
                owners: if certificate_id == old(self)@.owners.len() {
                    old(self)@.owners.push(owner@)
                } else {
                    old(self)@.owners.update(certificate_id as int, owner@)
                },
                ..old(self)@
            }),
    {
        let ghost before = self.owners@;
        if (certificate_id as usize) == self.owners.len() {
            self.owners.push(owner.clone());
        } else {
            self.owners.set(certificate_id as usize, owner.clone());
        }
        assert(self@.owners =~= (if certificate_id == before.len() {
            old(self)@.owners.push(owner@)
        } else {
            old(self)@.owners.update(certificate_id as int, owner@)
        }));
    }

    /// The owner of certificate `certificate_id`, if it exists.
    pub fn get_certificate_owner(&self, certificate_id: u32) -> (r: Option<Address>)
        ensures
            address_option(r) == (if certificate_id < self@.owners.len() {
                Some(self@.owners[certificate_id as int])
            } else {
                None::<Seq<char>>
            }),
    {
        if (certificate_id as usize) < self.owners.len() {
            Some(self.owners[certificate_id as usize].clone())
        } else {
            None
        }
    }

    /// Records the metadata of certificate `certificate_id`, the next one or one already held.
    pub fn set_certificate_metadata(&mut self, certificate_id: u32, metadata: &CertificateMetadata)
        requires
            certificate_id <= old(self)@.certificates.len(),
        ensures
            final(self)@ == (RegistryState {
                certificates: if certificate_id == old(self)@.certificates.len() {
                    old(self)@.certificates.push(metadata@)
                } else {
                    old(self)@.certificates.update(certificate_id as int, metadata@)
                },
                ..old(self)@
            }),
    {
        let ghost before = self.certificates@;
        if (certificate_id as usize) == self.certificates.len() {
            self.certificates.push(metadata.clone());
        } else {
            self.certificates.set(certificate_id as usize, metadata.clone());
        }
        assert(self@.certificates =~= (if certificate_id == before.len() {
            old(self)@.certificates.push(metadata@)
        } else {
            old(self)@.certificates.update(certificate_id as int, metadata@)
        }));
    }

    /// The metadata of certificate `certificate_id`, if it exists.
    pub fn get_certificate_metadata(&self, certificate_id: u32) -> (r: Option<CertificateMetadata>)
        ensures
            match r {
                Some(m) => certificate_id < self@.certificates.len() && m@
                    == self@.certificates[certificate_id as int],
                None => certificate_id >= self@.certificates.len(),
            },
    {
        if (certificate_id as usize) < self.certificates.len() {
            Some(self.certificates[certificate_id as usize].clone())
        } else {
            None
        }
    }

    /// Counts one more certificate issued to `address`.
    pub fn register_new_certificate(&mut self, address: &Address)
        requires
            register_count(old(self)@.register, address@) < u32::MAX,
        ensures
            final(self)@ == (RegistryState {
                register: old(self)@.register.push(
                    (address@, (register_count(old(self)@.register, address@) + 1) as u32),
                ),
                ..old(self)@
            }),
    {
        let count = self.certificates_issued_to_user(address);
        self.register.push((address.clone(), count + 1));
        assert(self@.register =~= old(self)@.register.push((address@, (count + 1) as u32)));
    }

    /// The number of certificates issued to `address`.
    pub fn certificates_issued_to_user(&self, address: &Address) -> (r: u32)
        ensures
            r == register_count(self@.register, address@),
    {
        let ghost entries = self@.register;
        let mut i: usize = self.register.len();
        assert(entries.subrange(0, i as int) =~= entries);
        while i > 0
            invariant
                i <= self.register@.len(),
                entries == self@.register,
                register_count(entries, address@) == register_count(
                    entries.subrange(0, i as int),
                    address@,
                ),
            decreases i,
        {
            let entry = &self.register[i - 1];
            let ghost prefix = entries.subrange(0, i as int);
            assert(prefix.drop_last() =~= entries.subrange(0, i - 1));
            assert(prefix.last() == (entry.0@, entry.1));
            if entry.0.same_as(address) {
                return entry.1;
            }
            i = i - 1;
        }
        0
    }
}

} // verus!
