use vstd::prelude::*;

verus! {

/// An account identity, held by its canonical string form (a strkey such as `G...`).
#[derive(Debug)]
pub struct Address {
    strkey: String,
}

impl View for Address {
    type V = Seq<char>;

    closed spec fn view(&self) -> Seq<char> {
        self.strkey@
    }
}

impl Address {
    /// The identity whose canonical string form is `strkey`.
    pub fn from_string(strkey: String) -> (r: Address)
        ensures
            r@ == strkey@,
    {
        Address { strkey }
    }

    /// The identity whose canonical string form is `strkey`.
    pub fn from_str(strkey: &str) -> (r: Address)
        ensures
            r@ == strkey@,
    {
        Address { strkey: strkey.to_owned() }
    }

    /// The canonical string form of this identity.
    pub fn as_str(&self) -> (r: &str)
        ensures
            r@ == self@,
    {
        self.strkey.as_str()
    }

    /// The canonical string form of this identity, as an owned string.
    pub fn to_string(&self) -> (r: String)
        ensures
            r@ == self@,
    {
        self.strkey.clone()
    }

    /// Whether two identities are the same.
    pub fn same_as(&self, other: &Address) -> (r: bool)
        ensures
            r == (self@ == other@),
    {
        self.strkey == other.strkey
    }
}

impl Clone for Address {
    fn clone(&self) -> (r: Self)
        ensures
            r@ == self@,
    {
        Address { strkey: self.strkey.clone() }
    }
}

impl PartialEq for Address {
    fn eq(&self, other: &Address) -> (r: bool) {
        self.strkey == other.strkey
    }
}

impl vstd::std_specs::cmp::PartialEqSpecImpl for Address {
    open spec fn obeys_eq_spec() -> bool {
        true
    }

    open spec fn eq_spec(&self, other: &Address) -> bool {
        self@ == other@
    }
}

impl Eq for Address {
}


/// What a certificate holds, as plain values.
pub ghost struct CertificateRecord {
    pub course_id: Seq<char>,
    pub issued_date: u64,
    pub issuer: Seq<u8>,
    pub metadata_uri: Seq<char>,
    pub signature: Seq<u8>,
    pub recipient: Seq<char>,
}

/// The metadata of a certificate: its fields and the issuer's signature over them.
#[derive(Debug)]
pub struct CertificateMetadata {
    /// The ID of the course
    pub course_id: String,
    /// Completion date in UNIX timestamp format
    pub issued_date: u64,
    /// The issuer's uncompressed public key
    pub issuer: [u8; 65],
    /// URI pointing to full certificate metadata (e.g., IPFS URL)
    pub metadata_uri: String,
    /// 65-byte ECDSA signature (r + s + v) of the hashed message
    pub signature: [u8; 65],
    /// Address of recipient
    pub recipient: Address,
}

impl View for CertificateMetadata {
    type V = CertificateRecord;

    open spec fn view(&self) -> CertificateRecord {
        CertificateRecord {
            course_id: self.course_id@,
            issued_date: self.issued_date,
            issuer: self.issuer@,
            metadata_uri: self.metadata_uri@,
            signature: self.signature@,
            recipient: self.recipient@,
        }
    }
}

impl Clone for CertificateMetadata {
    fn clone(&self) -> (r: Self)
        ensures
            r@ == self@,
    {
        CertificateMetadata {
            course_id: self.course_id.clone(),
            issued_date: self.issued_date,
            issuer: self.issuer,
            metadata_uri: self.metadata_uri.clone(),
            signature: self.signature,
            recipient: self.recipient.clone(),
        }
    }
}

/// A certificate together with its owner.
#[derive(Debug)]
pub struct CertificateDetail {
    pub owner: Address,
    pub metadata: CertificateMetadata,
}

} // verus!
