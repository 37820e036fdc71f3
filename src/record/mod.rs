use vstd::prelude::*;
use crate::error::Error;
use crate::name::{name_text, name_to_text, no_nul_char, nul_free, presentation};

pub mod a;
pub mod aaaa;
pub mod class;
pub mod cname;
pub mod mx;
pub mod ns;
pub mod ptr;
pub mod soa;
pub mod srv;
pub mod tlsa;
pub mod txt;

pub use self::a::A;
pub use self::aaaa::AAAA;
pub use self::class::Class;
pub use self::cname::CNAME;
pub use self::mx::MX;
pub use self::ns::NS;
pub use self::ptr::PTR;
pub use self::soa::SOA;
pub use self::srv::SRV;
pub use self::tlsa::TLSA;
pub use self::txt::TXT;

verus! {

/// A record as the section walk finds it: its owner name in dotted form, the
/// fixed fields, and where its data lies in the message.
pub struct RawView {
    pub name: Seq<u8>,
    pub type_tag: u16,
    pub class: u16,
    pub ttl: u32,
    pub rdata_start: int,
    pub rdlength: int,
}

impl RawView {
    /// The record's data lies inside the message.
    pub open spec fn within(self, buf: Seq<u8>) -> bool {
        &&& 0 <= self.rdata_start
        &&& 0 <= self.rdlength
        &&& self.rdata_start + self.rdlength <= buf.len() <= usize::MAX
    }

    /// The position just after the record.
    pub open spec fn next(self) -> int {
        self.rdata_start + self.rdlength
    }
}

/// A record located in a message, before its data is decoded. Question
/// entries carry no time to live and no data.
pub struct RawRecord {
    /// The owner name, its labels joined by dots.
    pub name: Vec<u8>,
    pub type_tag: u16,
    pub class: u16,
    pub ttl: u32,
    /// Where the record's data starts in the message.
    pub rdata_start: usize,
    pub rdlength: u16,
}

impl View for RawRecord {
    type V = RawView;

    open spec fn view(&self) -> RawView {
        RawView {
            name: self.name@,
            type_tag: self.type_tag,
            class: self.class,
            ttl: self.ttl,
            rdata_start: self.rdata_start as int,
            rdlength: self.rdlength as int,
        }
    }
}

/// The data of one kind of record, decoded from a record of that type.
pub trait RecordData: Sized {
    /// The type code that a record must carry to be read as this kind.
    spec fn spec_type_code() -> u16;

    /// The error with which decoding the record's data fails, if it does.
    spec fn spec_error(buf: Seq<u8>, raw: RawView) -> Option<Error>;

    /// `v` is what the record's data decodes to.
    spec fn spec_decodes(buf: Seq<u8>, raw: RawView, v: Self) -> bool;

    /// A record of another type is refused as such, and decoding data never
    /// fails with an index error.
    proof fn lemma_error_kinds(buf: Seq<u8>, raw: RawView)
        ensures
            raw.type_tag != Self::spec_type_code() ==> Self::spec_error(buf, raw) == Some(
                Error::WrongRRType,
            ),
            !(Self::spec_error(buf, raw) matches Some(Error::NoSuchSectionIndex(_, _))),
    ;

    /// The type of record that this kind is read from.
    fn get_record_type() -> (r: RecordType)
        ensures
            r.spec_code() == Self::spec_type_code(),
    ;

    /// Decodes the data of a record; names in it are read against the whole
    /// message.
    fn extract(msg: &[u8], rr: &RawRecord) -> (r: Result<Self, Error>)
        requires
            rr@.within(msg@),
        ensures
            match r {
                Ok(v) => Self::spec_error(msg@, rr@) == None::<Error> && Self::spec_decodes(
                    msg@,
                    rr@,
                    v,
                ),
                Err(e) => Self::spec_error(msg@, rr@) == Some(e),
            },
    ;
}

/// A DNS response record of a particular type.
#[derive(Debug, Clone)]
pub struct Record<T> {
    pub name: String,
    pub class: Class,
    pub ttl: u32,
    pub data: T,
}

impl<T: RecordData> Record<T> {
    /// The error with which decoding the record fails, if it does: an unknown
    /// class first, then what the data's decoding says.
    pub open spec fn spec_error(buf: Seq<u8>, raw: RawView) -> Option<Error> {
        match Class::spec_from_code(raw.class) {
            None => Some(Error::UnknownClass(raw.class)),
            Some(_) => T::spec_error(buf, raw),
        }
    }

    /// This record is what the raw record decodes to.
    pub open spec fn spec_decodes(self, buf: Seq<u8>, raw: RawView) -> bool {
        &&& self.name@ == name_text(raw.name)
        &&& Class::spec_from_code(raw.class) == Some(self.class)
        &&& self.ttl == raw.ttl
        &&& T::spec_decodes(buf, raw, self.data)
    }

    /// A record of a known class but of another type is refused as of the
    /// wrong type, not decoded as a `T`.
    pub proof fn lemma_wrong_type(buf: Seq<u8>, raw: RawView)
        requires
            Class::spec_from_code(raw.class) is Some,
            raw.type_tag != T::spec_type_code(),
        ensures
            Self::spec_error(buf, raw) == Some(Error::WrongRRType),
    {
        T::lemma_error_kinds(buf, raw);
    }

    /// Decodes a located record into its typed form.
    pub fn extract(msg: &[u8], rr: &RawRecord) -> (r: Result<Record<T>, Error>)
        requires
            rr@.within(msg@),
        ensures
            match r {
                Ok(rec) => {
                    &&& Self::spec_error(msg@, rr@) == None::<Error>
                    &&& rec.spec_decodes(msg@, rr@)
                    &&& nul_free(presentation(rr@.name)) ==> no_nul_char(rec.name@)
                },
                Err(e) => Self::spec_error(msg@, rr@) == Some(e),
            },
    {
        let name = name_to_text(&rr.name);
        let class = match Class::from_rr_class(rr.class) {
            Ok(c) => c,
            Err(e) => return Err(e),
        };
        let data = match T::extract(msg, rr) {
            Ok(d) => d,
            Err(e) => return Err(e),
        };
        Ok(Record { name, class, ttl: rr.ttl, data })
    }
}

/// The type of a resource record, as a sixteen-bit code on the wire.
#[derive(Debug, Clone, Copy, PartialEq, Eq, Structural)]
#[allow(non_camel_case_types)]
pub enum RecordType {
    /// RFC 1035 - Host Address
    A,
    /// RFC 1035 - Authoritative Name Server
    NS,
    /// RFC 1035 - Mail Destination (Obsolete, use MX)
    MD,
    /// RFC 1035 - Mail Forwarder (Obsolete, use MX)
    MF,
    /// RFC 1035, 4035, 6604 - Canonical Name for an Alias
    CNAME,
    /// RFC 1035, 1982, 2181, 2308 - Start of a Zone of Authority
    SOA,
    /// RFC 1035 - Mailbox Domain Name (EXPERIMENTAL)
    MB,
    /// RFC 1035 - Mail Group Member (EXPERIMENTAL)
    MG,
    /// RFC 1035 - Mail Rename Domain Name (EXPERIMENTAL)
    MR,
    /// RFC 1035 - A null resource record (EXPERIMENTAL)
    NULL,
    /// RFC 1035 - A well known service description
    WKS,
    /// RFC 1035 - A domain name pointer
    PTR,
    /// RFC 1035 - Host information
    HINFO,
    /// RFC 1035 - Mailbox or mail list information
    MINFO,
    /// RFC 1035 - Mail exchange
    MX,
    /// RFC 1035 - Text strings
    TXT,
    /// RFC 1183 - Responsible Person
    RP,
    /// RFC 1183, 6895 - AFS Database Location (Deprecated by RFC5864)
    AFSDB,
    /// RFC 1183 - X.25 Addresses (EXPERIMENTAL)
    X25,
    /// RFC 1183 - ISDN Addresses (EXPERIMENTAL)
    ISDN,
    /// RFC 1183 - Route Through (EXPERIMENTAL)
    RT,
    /// RFC 1706 - Network Service Access Protocol
    NSAP,
    /// RFC 1706 - Network Service Access Protocol PTR
    NSAP_PTR,
    /// RFC 2535 (Obsolete), 2931 - Signautre
    SIG,
    /// RFC 2535 (Obsolete) - Key
    KEY,
    /// RFC 2163, 3597 - Pointer to X.400/RFC822 mapping information
    PX,
    /// RFC 1712 - Geographical location
    GPOS,
    /// RFC 3596 - IPv6 Address
    AAAA,
    /// RFC 1876 - Location Information
    LOC,
    /// RFC 2535 (Obsolete) - Non-existant Names and Types
    NXT,
    /// https://tools.ietf.org/html/draft-ietf-nimrod-dns-00 - Endpoint Identifier
    EID,
    /// https://tools.ietf.org/html/draft-ietf-nimrod-dns-00 - Nimrod Locator
    NIMLOC,
    /// RFC 2782, 6335 - Service Location
    SRV,
    ATMA,
    NAPTR,
    KX,
    CERT,
    A6,
    /// RFC 2672, 6604 - Delegation Name
    DNAME,
    SINK,
    /// RFC 6891, 6895 - Option
    OPT,
    APL,
    /// RFC 4033, 4034, 4035, 4509 - Delegation signer
    DS,
    /// RFC 4255 -SSH Public Key Fingerprint
    SSHFP,
    /// IPsec Key
    IPSECKEY,
    /// RFC 4033, 4034, 4035, 5702 - DNSSEC signature
    RRSIG,
    /// RFC 4033, 4034, 4035, 4470 - Next Secure record
    NSEC,
    /// RFC 4033, 4034, 4035, 5702 - DNS Key
    DNSKEY,
    /// RFC 4701 - DHCP identifier
    DHCID,
    /// RFC 5155 - Next Secure record version 3
    NSEC3,
    /// RFC 5155 - NSEC3 parameters
    NSEC3PARAM,
    /// RFC 6698 - TLSA certificate association
    TLSA,
    /// RFC 5205 - Host Identity Protocol
    HIP,
    /// Child DS - RFC 7344
    CDS,
    /// Child DNSKEY - RFC 7344
    CDNSKEY,
    /// RFC 2930 - Transtion Key record
    TKEY,
    /// RFC 2845, 3645, 4635, 6895 - Transaction Signature
    TSIG,
    /// RFC 1995 - Incremental Zone Transfer
    IXFR,
    /// RFC 1035, 5936 - A request for a transfer of an entire zone
    AXFR,
    /// RFC 1035 - A request for mailbox-related records (MB, MG or MR)
    MAILB,
    /// RFC 1035 - A request for mail agent RRs (Obsolete - see MX)
    MAILA,
    /// RFC 1035 - A request for all records
    ANY,
    /// ALSO URI=256, see RFC 7553
    ZXFR,
    /// RFC 6844 - Certification Authority Authorization
    CAA,
    /// DNSSEC Trust Authorities
    TA,
    /// RFC 4431 - DNSSEC Lookaside Validation record
    DLV,
}

impl RecordType {
    /// The type's code on the wire.
    pub open spec fn spec_code(self) -> u16 {
        match self {
            RecordType::A => 1,
            RecordType::NS => 2,
            RecordType::MD => 3,
            RecordType::MF => 4,
            RecordType::CNAME => 5,
            RecordType::SOA => 6,
            RecordType::MB => 7,
            RecordType::MG => 8,
            RecordType::MR => 9,
            RecordType::NULL => 10,
            RecordType::WKS => 11,
            RecordType::PTR => 12,
            RecordType::HINFO => 13,
            RecordType::MINFO => 14,
            RecordType::MX => 15,
            RecordType::TXT => 16,
            RecordType::RP => 17,
            RecordType::AFSDB => 18,
            RecordType::X25 => 19,
            RecordType::ISDN => 20,
            RecordType::RT => 21,
            RecordType::NSAP => 22,
            RecordType::NSAP_PTR => 23,
            RecordType::SIG => 24,
            RecordType::KEY => 25,
            RecordType::PX => 26,
            RecordType::GPOS => 27,
            RecordType::AAAA => 28,
            RecordType::LOC => 29,
            RecordType::NXT => 30,
            RecordType::EID => 31,
            RecordType::NIMLOC => 32,
            RecordType::SRV => 33,
            RecordType::ATMA => 34,
            RecordType::NAPTR => 35,
            RecordType::KX => 36,
            RecordType::CERT => 37,
            RecordType::A6 => 38,
            RecordType::DNAME => 39,
            RecordType::SINK => 40,
            RecordType::OPT => 41,
            RecordType::APL => 42,
            RecordType::DS => 43,
            RecordType::SSHFP => 44,
            RecordType::IPSECKEY => 45,
            RecordType::RRSIG => 46,
            RecordType::NSEC => 47,
            RecordType::DNSKEY => 48,
            RecordType::DHCID => 49,
            RecordType::NSEC3 => 50,
            RecordType::NSEC3PARAM => 51,
            RecordType::TLSA => 52,
            RecordType::HIP => 55,
            RecordType::CDS => 59,
            RecordType::CDNSKEY => 60,
            RecordType::TKEY => 249,
            RecordType::TSIG => 250,
            RecordType::IXFR => 251,
            RecordType::AXFR => 252,
            RecordType::MAILB => 253,
            RecordType::MAILA => 254,
            RecordType::ANY => 255,
            RecordType::ZXFR => 256,
            RecordType::CAA => 257,
            RecordType::TA => 32768,
            RecordType::DLV => 32769,
        }
    }

    /// The type's code on the wire.
    pub fn code(&self) -> (r: u16)
        ensures
            r == self.spec_code(),
    {
        match self {
            RecordType::A => 1,
            RecordType::NS => 2,
            RecordType::MD => 3,
            RecordType::MF => 4,
            RecordType::CNAME => 5,
            RecordType::SOA => 6,
            RecordType::MB => 7,
            RecordType::MG => 8,
            RecordType::MR => 9,
            RecordType::NULL => 10,
            RecordType::WKS => 11,
            RecordType::PTR => 12,
            RecordType::HINFO => 13,
            RecordType::MINFO => 14,
            RecordType::MX => 15,
            RecordType::TXT => 16,
            RecordType::RP => 17,
            RecordType::AFSDB => 18,
            RecordType::X25 => 19,
            RecordType::ISDN => 20,
            RecordType::RT => 21,
            RecordType::NSAP => 22,
            RecordType::NSAP_PTR => 23,
            RecordType::SIG => 24,
            RecordType::KEY => 25,
            RecordType::PX => 26,
            RecordType::GPOS => 27,
            RecordType::AAAA => 28,
            RecordType::LOC => 29,
            RecordType::NXT => 30,
            RecordType::EID => 31,
            RecordType::NIMLOC => 32,
            RecordType::SRV => 33,
            RecordType::ATMA => 34,
            RecordType::NAPTR => 35,
            RecordType::KX => 36,
            RecordType::CERT => 37,
            RecordType::A6 => 38,
            RecordType::DNAME => 39,
            RecordType::SINK => 40,
            RecordType::OPT => 41,
            RecordType::APL => 42,
            RecordType::DS => 43,
            RecordType::SSHFP => 44,
            RecordType::IPSECKEY => 45,
            RecordType::RRSIG => 46,
            RecordType::NSEC => 47,
            RecordType::DNSKEY => 48,
            RecordType::DHCID => 49,
            RecordType::NSEC3 => 50,
            RecordType::NSEC3PARAM => 51,
            RecordType::TLSA => 52,
            RecordType::HIP => 55,
            RecordType::CDS => 59,
            RecordType::CDNSKEY => 60,
            RecordType::TKEY => 249,
            RecordType::TSIG => 250,
            RecordType::IXFR => 251,
            RecordType::AXFR => 252,
            RecordType::MAILB => 253,
            RecordType::MAILA => 254,
            RecordType::ANY => 255,
            RecordType::ZXFR => 256,
            RecordType::CAA => 257,
            RecordType::TA => 32768,
            RecordType::DLV => 32769,
        }
    }
}

} // verus!
