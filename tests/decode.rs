use resolv::name::decompress_name;
use resolv::record::{RawRecord, A, AAAA, CNAME, MX, NS, PTR, SOA, SRV, TLSA, TXT};
use resolv::{
    set_option, Class, Error, Flags, Record, RecordData, RecordType, ResolutionError,
    ResolverOption, Response, Section,
};

const IN: u16 = 1;

fn header(id: u16, flags: u16, qd: u16, an: u16, ns: u16, ar: u16) -> Vec<u8> {
    let mut v = Vec::new();
    for w in [id, flags, qd, an, ns, ar] {
        v.extend_from_slice(&w.to_be_bytes());
    }
    v
}

fn name(labels: &[&str]) -> Vec<u8> {
    let mut v = Vec::new();
    for l in labels {
        v.push(l.len() as u8);
        v.extend_from_slice(l.as_bytes());
    }
    v.push(0);
    v
}

fn question(owner: &[u8], rtype: u16, class: u16) -> Vec<u8> {
    let mut v = owner.to_vec();
    v.extend_from_slice(&rtype.to_be_bytes());
    v.extend_from_slice(&class.to_be_bytes());
    v
}

fn rr(owner: &[u8], rtype: u16, class: u16, ttl: u32, rdata: &[u8]) -> Vec<u8> {
    let mut v = question(owner, rtype, class);
    v.extend_from_slice(&ttl.to_be_bytes());
    v.extend_from_slice(&(rdata.len() as u16).to_be_bytes());
    v.extend_from_slice(rdata);
    v
}

/// A message with a question for example.com and the given answers; the
/// question's name starts at offset 12.
fn message(answers: &[Vec<u8>]) -> Vec<u8> {
    let mut v = header(0x1234, 0x8180, 1, answers.len() as u16, 0, 0);
    v.extend(question(&name(&["example", "com"]), 15, IN));
    for a in answers {
        v.extend_from_slice(a);
    }
    v
}

/// A pointer to the question's name.
fn to_question() -> Vec<u8> {
    vec![0xC0, 0x0C]
}

fn raw(type_tag: u16, rdata_start: usize, rdlength: u16) -> RawRecord {
    RawRecord { name: Vec::new(), type_tag, class: IN, ttl: 0, rdata_start, rdlength }
}

#[test]
fn flags_of_a_recursive_response() {
    let f = Flags(0x8180);
    assert!(f.question_response());
    assert_eq!(f.operation_code(), 0);
    assert!(f.recursion_desired());
    assert!(f.recursion_available());
    assert_eq!(f.response_code(), 0);
    assert!(!f.authoritative_answer());
    assert!(!f.truncation_occurred());
    assert!(!f.must_be_zero());
    assert!(!f.authentic_data());
    assert!(!f.checking_disabled());
}

#[test]
fn flags_every_field() {
    let f = Flags(0x7ff3);
    assert!(!f.question_response());
    assert_eq!(f.operation_code(), 15);
    assert!(f.authoritative_answer());
    assert!(f.truncation_occurred());
    assert!(f.recursion_desired());
    assert!(f.recursion_available());
    assert!(f.must_be_zero());
    assert!(f.authentic_data());
    assert!(f.checking_disabled());
    assert_eq!(f.response_code(), 3);
}

#[test]
fn self_pointer_is_an_error() {
    let mut buf = header(0, 0, 0, 0, 0, 0);
    buf.extend_from_slice(&[0xC0, 0x0C]);
    assert_eq!(decompress_name(&buf, 12).unwrap_err(), Error::UncompressError);
}

#[test]
fn pointer_loop_of_two_is_an_error() {
    let mut buf = header(0, 0, 0, 0, 0, 0);
    buf.extend_from_slice(&[0xC0, 0x0E, 0xC0, 0x0C]);
    assert_eq!(decompress_name(&buf, 12).unwrap_err(), Error::UncompressError);
}

#[test]
fn mx_rdata_literal_name() {
    let buf = vec![0x00, 0x0A, 0x04, b'm', b'a', b'i', b'l', 0x00];
    let mx = MX::extract(&buf, &raw(15, 0, 8)).unwrap();
    assert_eq!(mx.preference, 10);
    assert_eq!(mx.exchange, "mail");
}

#[test]
fn mx_negative_preference() {
    let buf = vec![0xFF, 0xFE, 0x00];
    let mx = MX::extract(&buf, &raw(15, 0, 3)).unwrap();
    assert_eq!(mx.preference, -2);
    assert_eq!(mx.exchange, ".");
}

#[test]
fn wrong_type_is_refused() {
    let buf = message(&[rr(&to_question(), 1, IN, 60, &[10, 0, 0, 1])]);
    let resp = Response::new(buf).unwrap();
    let r = resp.get_record::<AAAA>(Section::Answer, 0);
    assert_eq!(r.unwrap_err(), Error::WrongRRType);
    let a = resp.get_record::<A>(Section::Answer, 0).unwrap();
    assert_eq!(a.data.address, [10, 0, 0, 1]);
}

#[test]
fn iteration_keeps_only_the_type_in_order() {
    let answers = vec![
        rr(&to_question(), 1, IN, 1, &[1, 1, 1, 1]),
        rr(&to_question(), 15, IN, 2, &[0, 5, 0xC0, 0x0C]),
        rr(&to_question(), 1, IN, 3, &[2, 2, 2, 2]),
        rr(&to_question(), 16, IN, 4, &[2, b'h', b'i']),
        rr(&to_question(), 1, IN, 5, &[3, 3, 3, 3]),
    ];
    let resp = Response::new(message(&answers)).unwrap();
    let mut items = resp.answers::<A>();
    let mut seen = Vec::new();
    while let Some(rec) = items.next() {
        seen.push((rec.ttl, rec.data.address));
    }
    assert_eq!(seen, vec![(1, [1, 1, 1, 1]), (3, [2, 2, 2, 2]), (5, [3, 3, 3, 3])]);
    assert!(items.next().is_none());

    let mut mx = resp.answers::<MX>();
    let first = mx.next().unwrap();
    assert_eq!(first.data.preference, 5);
    assert_eq!(first.data.exchange, "example.com");
    assert!(mx.next().is_none());
}

#[test]
fn iteration_stops_at_a_broken_record() {
    let mut buf = message(&[rr(&to_question(), 1, IN, 1, &[1, 1, 1, 1])]);
    // The header claims a second answer that is not there.
    buf[7] = 2;
    let resp = Response::new(buf).unwrap();
    let mut items = resp.answers::<A>();
    assert!(items.next().is_some());
    assert!(items.next().is_none());
    assert!(items.next().is_none());
    assert!(items.next().is_none());
    assert_eq!(resp.get_record::<A>(Section::Answer, 1).unwrap_err(), Error::ParseError);
}

#[test]
fn soa_with_compressed_and_literal_names() {
    let mut rdata = to_question();
    rdata.extend(name(&["hostmaster", "example", "com"]));
    for v in [2024010101u32, 7200, 3600, 1209600, 300] {
        rdata.extend_from_slice(&v.to_be_bytes());
    }
    let resp = Response::new(message(&[rr(&to_question(), 6, IN, 900, &rdata)])).unwrap();
    let soa = resp.get_record::<SOA>(Section::Answer, 0).unwrap();
    assert_eq!(soa.data.mname, "example.com");
    assert_eq!(soa.data.rname, "hostmaster.example.com");
    assert_eq!(soa.data.serial, 2024010101);
    assert_eq!(soa.data.refresh, 7200);
    assert_eq!(soa.data.retry, 3600);
    assert_eq!(soa.data.expire, 1209600);
    assert_eq!(soa.data.minimum, 300);
    assert_eq!(soa.ttl, 900);
    assert_eq!(soa.name, "example.com");
}

#[test]
fn soa_with_literal_then_compressed_names() {
    let mut rdata = name(&["ns1", "example", "com"]);
    rdata.extend(to_question());
    for v in [1u32, 2, 3, 4, 0xFFFF_FFFF] {
        rdata.extend_from_slice(&v.to_be_bytes());
    }
    let resp = Response::new(message(&[rr(&to_question(), 6, IN, 0, &rdata)])).unwrap();
    let soa = resp.get_record::<SOA>(Section::Answer, 0).unwrap();
    assert_eq!(soa.data.mname, "ns1.example.com");
    assert_eq!(soa.data.rname, "example.com");
    assert_eq!(
        (soa.data.serial, soa.data.refresh, soa.data.retry, soa.data.expire, soa.data.minimum),
        (1, 2, 3, 4, 0xFFFF_FFFF)
    );
}

#[test]
fn soa_too_short_for_counters() {
    let mut rdata = to_question();
    rdata.extend(to_question());
    rdata.extend_from_slice(&[0; 19]);
    let resp = Response::new(message(&[rr(&to_question(), 6, IN, 0, &rdata)])).unwrap();
    assert_eq!(resp.get_record::<SOA>(Section::Answer, 0).unwrap_err(), Error::ParseError);
}

#[test]
fn index_against_count() {
    let resp = Response::new(message(&[rr(&to_question(), 1, IN, 1, &[1, 2, 3, 4])])).unwrap();
    assert_eq!(resp.get_section_count(Section::Question), 1);
    assert_eq!(resp.get_section_count(Section::Answer), 1);
    assert_eq!(resp.get_section_count(Section::Authority), 0);
    assert_eq!(resp.get_section_count(Section::Additional), 0);
    assert!(resp.get_record::<A>(Section::Answer, 0).is_ok());
    assert_eq!(
        resp.get_record::<A>(Section::Answer, 1).unwrap_err(),
        Error::NoSuchSectionIndex(Section::Answer, 1)
    );
    assert_eq!(
        resp.get_record::<A>(Section::Additional, 0).unwrap_err(),
        Error::NoSuchSectionIndex(Section::Additional, 0)
    );
}

#[test]
fn question_entries_are_read_without_data() {
    let resp = Response::new(message(&[])).unwrap();
    let q = resp.get_record::<MX>(Section::Question, 0);
    // A question entry carries no data, so an MX cannot be read from it.
    assert_eq!(q.unwrap_err(), Error::ParseError);
    let q = resp.get_record::<A>(Section::Question, 0);
    assert_eq!(q.unwrap_err(), Error::WrongRRType);
}

#[test]
fn header_fields() {
    let resp = Response::new(message(&[])).unwrap();
    assert_eq!(resp.get_id(), 0x1234);
    assert_eq!(resp.get_flags().0, 0x8180);
    assert!(resp.get_flags().question_response());
}

#[test]
fn short_header_does_not_parse() {
    assert_eq!(Response::new(vec![0; 11]).err(), Some(Error::ParseError));
    assert!(Response::new(vec![0; 12]).is_ok());
}

#[test]
fn unknown_class_is_refused() {
    let resp = Response::new(message(&[rr(&to_question(), 1, 7, 1, &[1, 2, 3, 4])])).unwrap();
    assert_eq!(resp.get_record::<A>(Section::Answer, 0).unwrap_err(), Error::UnknownClass(7));
}

#[test]
fn records_in_later_sections() {
    let mut buf = header(1, 0, 1, 1, 1, 1);
    buf.extend(question(&name(&["a", "b"]), 1, IN));
    buf.extend(rr(&to_question(), 5, IN, 10, &name(&["c", "d"])));
    buf.extend(rr(&to_question(), 2, IN, 20, &{
        let mut n = vec![2, b'n', b's'];
        n.extend(to_question());
        n
    }));
    buf.extend(rr(&name(&["x"]), 12, 255, 30, &name(&["ptr", "target"])));
    let resp = Response::new(buf).unwrap();
    let cname = resp.get_record::<CNAME>(Section::Answer, 0).unwrap();
    assert_eq!(cname.data.cname, "c.d");
    assert_eq!(cname.name, "a.b");
    let ns = resp.get_record::<NS>(Section::Authority, 0).unwrap();
    assert_eq!(ns.data.nsdname, "ns.a.b");
    assert_eq!(ns.ttl, 20);
    let ptr = resp.get_record::<PTR>(Section::Additional, 0).unwrap();
    assert_eq!(ptr.data.dname, "ptr.target");
    assert_eq!(ptr.name, "x");
    assert_eq!(ptr.class, Class::ANY);
    let mut it = resp.additional_records::<PTR>();
    assert_eq!(it.next().unwrap().ttl, 30);
    assert!(it.next().is_none());
    assert!(resp.authorities::<NS>().next().is_some());
    assert!(resp.questions::<A>().next().is_none());
}

#[test]
fn aaaa_record() {
    let addr: [u8; 16] = [0x20, 0x01, 0x0d, 0xb8, 0, 0, 0, 0, 0, 0, 0, 0, 0, 0, 0, 1];
    let resp = Response::new(message(&[rr(&to_question(), 28, IN, 1, &addr)])).unwrap();
    assert_eq!(resp.get_record::<AAAA>(Section::Answer, 0).unwrap().data.address, addr);
    let short = Response::new(message(&[rr(&to_question(), 28, IN, 1, &addr[..15])])).unwrap();
    assert_eq!(short.get_record::<AAAA>(Section::Answer, 0).unwrap_err(), Error::ParseError);
}

#[test]
fn srv_record() {
    let mut rdata = vec![0, 10, 0, 60, 0x14, 0x95];
    rdata.extend(name(&["sip", "example", "com"]));
    let resp = Response::new(message(&[rr(&to_question(), 33, IN, 1, &rdata)])).unwrap();
    let srv: Record<SRV> = resp.get_record(Section::Answer, 0).unwrap();
    assert_eq!(srv.data.priority, 10);
    assert_eq!(srv.data.weight, 60);
    assert_eq!(srv.data.port, 5269);
    assert_eq!(srv.data.name, "sip.example.com");
}

#[test]
fn txt_record() {
    let resp = Response::new(message(&[rr(&to_question(), 16, IN, 1, &[3, b'a', b'=', b'b'])])).unwrap();
    assert_eq!(resp.get_record::<TXT>(Section::Answer, 0).unwrap().data.dname, "a=b");
    let bad = Response::new(message(&[rr(&to_question(), 16, IN, 1, &[5, b'a'])])).unwrap();
    assert_eq!(bad.get_record::<TXT>(Section::Answer, 0).unwrap_err(), Error::ParseError);
}

#[test]
fn txt_lossy_text() {
    let resp = Response::new(message(&[rr(&to_question(), 16, IN, 1, &[2, b'a', 0xFF])])).unwrap();
    assert_eq!(resp.get_record::<TXT>(Section::Answer, 0).unwrap().data.dname, "a\u{FFFD}");
}

#[test]
fn tlsa_record() {
    let rdata = [3, 1, 1, 0xAB, 0xCD, 0xEF];
    let resp = Response::new(message(&[rr(&to_question(), 52, IN, 1, &rdata)])).unwrap();
    let t = resp.get_record::<TLSA>(Section::Answer, 0).unwrap().data;
    assert_eq!((t.usage, t.selector, t.matching_type), (3, 1, 1));
    assert_eq!(t.data, vec![0xAB, 0xCD, 0xEF]);
    let short = Response::new(message(&[rr(&to_question(), 52, IN, 1, &rdata[..2])])).unwrap();
    assert_eq!(short.get_record::<TLSA>(Section::Answer, 0).unwrap_err(), Error::ParseError);
}

#[test]
fn name_consumed_bytes() {
    let mut buf = header(0, 0, 0, 0, 0, 0);
    buf.extend(name(&["example", "com"]));
    buf.extend_from_slice(&[3, b'w', b'w', b'w', 0xC0, 0x0C]);
    assert_eq!(decompress_name(&buf, 12).unwrap(), ("example.com".to_string(), 13));
    assert_eq!(decompress_name(&buf, 25).unwrap(), ("www.example.com".to_string(), 6));
}

#[test]
fn root_name() {
    assert_eq!(decompress_name(&[0], 0).unwrap(), (".".to_string(), 1));
}

#[test]
fn name_errors() {
    // Pointer past the end of the message.
    assert_eq!(decompress_name(&[0xC0, 0x10], 0).unwrap_err(), Error::UncompressError);
    // Reserved label kind.
    assert_eq!(decompress_name(&[0x40, 0], 0).unwrap_err(), Error::UncompressError);
    // Label running past the end.
    assert_eq!(decompress_name(&[5, b'a', b'b'], 0).unwrap_err(), Error::UncompressError);
    // No root label before the end.
    assert_eq!(decompress_name(&[1, b'a'], 0).unwrap_err(), Error::UncompressError);
    // Offset outside the message.
    assert_eq!(decompress_name(&[0], 1).unwrap_err(), Error::UncompressError);
}

#[test]
fn longest_name() {
    let label = "a".repeat(63);
    let l = label.as_str();
    // Four labels of 63 octets and the root take 257 octets: too long.
    let too_long = name(&[l, l, l, l]);
    assert_eq!(decompress_name(&too_long, 0).unwrap_err(), Error::Unterminated);
    // Three of 63 and one of 61 take exactly 255.
    let short = "b".repeat(61);
    let longest = name(&[l, l, l, short.as_str()]);
    let (text, used) = decompress_name(&longest, 0).unwrap();
    assert_eq!(used, 255);
    assert_eq!(text.len(), 253);
}

#[test]
fn class_codes() {
    assert_eq!(Class::from_rr_class(1), Ok(Class::IN));
    assert_eq!(Class::from_rr_class(2), Ok(Class::CSNET));
    assert_eq!(Class::from_rr_class(3), Ok(Class::CHAOS));
    assert_eq!(Class::from_rr_class(4), Ok(Class::HS));
    assert_eq!(Class::from_rr_class(254), Ok(Class::NONE));
    assert_eq!(Class::from_rr_class(255), Ok(Class::ANY));
    assert_eq!(Class::from_rr_class(5), Err(Error::UnknownClass(5)));
    assert_eq!(Class::HS.code(), 4);
}

#[test]
fn record_type_codes() {
    assert_eq!(RecordType::MX.code(), 15);
    assert_eq!(RecordType::TLSA.code(), 52);
    assert_eq!(RecordType::DLV.code(), 32769);
    assert_eq!(SOA::get_record_type(), RecordType::SOA);
    assert_eq!(A::get_record_type().code(), 1);
}

#[test]
fn resolution_errors() {
    assert_eq!(ResolutionError::from_code(0), ResolutionError::Success);
    assert_eq!(ResolutionError::from_code(1), ResolutionError::HostNotFound);
    assert_eq!(ResolutionError::from_code(2), ResolutionError::TryAgain);
    assert_eq!(ResolutionError::from_code(3), ResolutionError::NoRecovery);
    assert_eq!(ResolutionError::from_code(4), ResolutionError::NoData);
    assert_eq!(ResolutionError::from_code(99), ResolutionError::HostNotFound);
    assert_eq!(Error::from(ResolutionError::NoData), Error::Resolver(ResolutionError::NoData));
    assert_eq!(ResolutionError::TryAgain.message(), "Host name lookup failure");
    assert_eq!(Error::WrongRRType.description(), "Wrong Resource Record type");
}

#[test]
fn resolver_option_bits() {
    assert_eq!(set_option(0, ResolverOption::Default, true), 0x2c0);
    assert_eq!(set_option(0x2c0, ResolverOption::Recurse, false), 0x280);
    assert_eq!(set_option(0x1, ResolverOption::UseEDNS0, true), 0x100001);
}

#[test]
fn iteration_stays_ended() {
    let resp = Response::new(message(&[rr(&to_question(), 1, IN, 1, &[1, 1, 1, 1])])).unwrap();
    let mut items = resp.answers::<A>();
    assert!(items.next().is_some());
    for _ in 0..3 {
        assert!(items.next().is_none());
    }
}

#[test]
fn zero_byte_in_label_is_escaped() {
    let buf = [3, b'a', 0, b'b', 3, b'c', b'o', b'm', 0];
    let (text, used) = decompress_name(&buf, 0).unwrap();
    assert_eq!(text, "a\\000b.com");
    assert_eq!(used, 9);
    assert!(!text.contains('\0'));
}

#[test]
fn owner_name_with_zero_byte() {
    let owner = [1, 0, 0];
    let resp = Response::new(message(&[rr(&owner, 1, IN, 1, &[1, 2, 3, 4])])).unwrap();
    assert_eq!(resp.get_record::<A>(Section::Answer, 0).unwrap().name, "\\000");
}

#[test]
fn name_payload_on_a_question_entry() {
    let mut buf = header(0, 0, 1, 1, 0, 0);
    buf.extend(question(&name(&["a"]), 5, IN));
    buf.extend(rr(&to_question(), 1, IN, 1, &[1, 2, 3, 4]));
    let resp = Response::new(buf).unwrap();
    assert_eq!(resp.get_record::<CNAME>(Section::Question, 0).unwrap_err(), Error::ParseError);
}

#[test]
fn name_running_past_its_data() {
    // The CNAME's data claims one byte, but its name takes three.
    let mut rec = rr(&to_question(), 5, IN, 1, &[1, b'x', 0]);
    let len_at = rec.len() - 5;
    rec[len_at] = 0;
    rec[len_at + 1] = 1;
    let resp = Response::new(message(&[rec])).unwrap();
    assert_eq!(resp.get_record::<CNAME>(Section::Answer, 0).unwrap_err(), Error::ParseError);

    let buf = vec![0x00, 0x0A, 0x04, b'm', b'a', b'i', b'l', 0x00];
    assert_eq!(MX::extract(&buf, &raw(15, 0, 7)).unwrap_err(), Error::ParseError);
    let mut srv = vec![0, 1, 0, 2, 0, 3];
    srv.extend(name(&["host"]));
    let n = srv.len() as u16;
    assert_eq!(SRV::extract(&srv, &raw(33, 0, n - 1)).unwrap_err(), Error::ParseError);
    assert_eq!(SRV::extract(&srv, &raw(33, 0, n)).unwrap().name, "host");
}
