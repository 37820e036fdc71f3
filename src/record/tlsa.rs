use vstd::prelude::*;
use super::{RawRecord, RawView, RecordData, RecordType};
use crate::bytes::copy_range;
use crate::error::Error;

verus! {

/// A certificate association: usage, selector, matching type, then the
/// association data.
#[derive(Debug, Clone)]
pub struct TLSA {
    pub usage: u8,
    pub selector: u8,
    pub matching_type: u8,
    pub data: Vec<u8>,
}

impl RecordData for TLSA {
    open spec fn spec_type_code() -> u16 {
        52
    }

    open spec fn spec_error(buf: Seq<u8>, raw: RawView) -> Option<Error> {
        if raw.type_tag != 52 {
            Some(Error::WrongRRType)
        } else if raw.rdlength < 3 {
            Some(Error::ParseError)
        } else {
            None
        }
    }

    open spec fn spec_decodes(buf: Seq<u8>, raw: RawView, v: TLSA) -> bool {
        let s = raw.rdata_start;
        &&& v.usage == buf[s]
        &&& v.selector == buf[s + 1]
        &&& v.matching_type == buf[s + 2]
        &&& v.data@ == buf.subrange(s + 3, s + raw.rdlength)
    }

    proof fn lemma_error_kinds(buf: Seq<u8>, raw: RawView) {
    }

    fn get_record_type() -> (r: RecordType) {
        RecordType::TLSA
    }

    fn extract(msg: &[u8], rr: &RawRecord) -> (r: Result<TLSA, Error>) {
        if rr.type_tag != Self::get_record_type().code() {
            return Err(Error::WrongRRType);
        }
        if rr.rdlength < 3 {
            return Err(Error::ParseError);
        }
        let s = rr.rdata_start;
        Ok(
            TLSA {
                usage: msg[s],
                selector: msg[s + 1],
                matching_type: msg[s + 2],
                data: copy_range(msg, s + 3, s + rr.rdlength as usize),
            },
        )
    }
}

} // verus!
