use vstd::prelude::*;
use super::{RawRecord, RawView, RecordData, RecordType};
use crate::error::Error;

verus! {

/// An IPv6 address record.
#[derive(Debug, Clone)]
pub struct AAAA {
    /// The address's sixteen octets, most significant first.
    pub address: [u8; 16],
}

impl RecordData for AAAA {
    open spec fn spec_type_code() -> u16 {
        28
    }

    open spec fn spec_error(buf: Seq<u8>, raw: RawView) -> Option<Error> {
        if raw.type_tag != 28 {
            Some(Error::WrongRRType)
        } else if raw.rdlength < 16 {
            Some(Error::ParseError)
        } else {
            None
        }
    }

    open spec fn spec_decodes(buf: Seq<u8>, raw: RawView, v: AAAA) -> bool {
        v.address@ == buf.subrange(raw.rdata_start, raw.rdata_start + 16)
    }

    proof fn lemma_error_kinds(buf: Seq<u8>, raw: RawView) {
    }

    fn get_record_type() -> (r: RecordType) {
        RecordType::AAAA
    }

    fn extract(msg: &[u8], rr: &RawRecord) -> (r: Result<AAAA, Error>) {
        if rr.type_tag != Self::get_record_type().code() {
            return Err(Error::WrongRRType);
        }
        if rr.rdlength < 16 {
            return Err(Error::ParseError);
        }
        let s = rr.rdata_start;
        let address = [
            msg[s],
            msg[s + 1],
            msg[s + 2],
            msg[s + 3],
            msg[s + 4],
            msg[s + 5],
            msg[s + 6],
            msg[s + 7],
            msg[s + 8],
            msg[s + 9],
            msg[s + 10],
            msg[s + 11],
            msg[s + 12],
            msg[s + 13],
            msg[s + 14],
            msg[s + 15],
        ];
        assert(address@ =~= msg@.subrange(s as int, s + 16));
        Ok(AAAA { address })
    }
}

} // verus!
