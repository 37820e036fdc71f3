use vstd::prelude::*;
use super::{RawRecord, RawView, RecordData, RecordType};
use crate::error::Error;

verus! {

/// An IPv4 address record.
#[derive(Debug, Clone)]
pub struct A {
    /// The address's four octets, most significant first.
    pub address: [u8; 4],
}

impl RecordData for A {
    open spec fn spec_type_code() -> u16 {
        1
    }

    open spec fn spec_error(buf: Seq<u8>, raw: RawView) -> Option<Error> {
        if raw.type_tag != 1 {
            Some(Error::WrongRRType)
        } else if raw.rdlength < 4 {
            Some(Error::ParseError)
        } else {
            None
        }
    }

    open spec fn spec_decodes(buf: Seq<u8>, raw: RawView, v: A) -> bool {
        v.address@ == buf.subrange(raw.rdata_start, raw.rdata_start + 4)
    }

    proof fn lemma_error_kinds(buf: Seq<u8>, raw: RawView) {
    }

    fn get_record_type() -> (r: RecordType) {
        RecordType::A
    }

    fn extract(msg: &[u8], rr: &RawRecord) -> (r: Result<A, Error>) {
        if rr.type_tag != Self::get_record_type().code() {
            return Err(Error::WrongRRType);
        }
        if rr.rdlength < 4 {
            return Err(Error::ParseError);
        }
        let s = rr.rdata_start;
        let address = [msg[s], msg[s + 1], msg[s + 2], msg[s + 3]];
        assert(address@ =~= msg@.subrange(s as int, s + 4));
        Ok(A { address })
    }
}

} // verus!
