use vstd::prelude::*;
use super::{RawRecord, RawView, RecordData, RecordType};
use crate::bytes::{copy_range, lossy_text, text_lossy};
use crate::error::Error;

verus! {

/// A text record: one length-prefixed string.
#[derive(Debug, Clone)]
pub struct TXT {
    pub dname: String,
}

impl RecordData for TXT {
    open spec fn spec_type_code() -> u16 {
        16
    }

    open spec fn spec_error(buf: Seq<u8>, raw: RawView) -> Option<Error> {
        if raw.type_tag != 16 {
            Some(Error::WrongRRType)
        } else if raw.rdlength < 1 || 1 + buf[raw.rdata_start] > raw.rdlength {
            Some(Error::ParseError)
        } else {
            None
        }
    }

    open spec fn spec_decodes(buf: Seq<u8>, raw: RawView, v: TXT) -> bool {
        let s = raw.rdata_start;
        v.dname@ == lossy_text(buf.subrange(s + 1, s + 1 + buf[s]))
    }

    proof fn lemma_error_kinds(buf: Seq<u8>, raw: RawView) {
    }

    fn get_record_type() -> (r: RecordType) {
        RecordType::TXT
    }

    fn extract(msg: &[u8], rr: &RawRecord) -> (r: Result<TXT, Error>) {
        if rr.type_tag != Self::get_record_type().code() {
            return Err(Error::WrongRRType);
        }
        if rr.rdlength < 1 {
            return Err(Error::ParseError);
        }
        let s = rr.rdata_start;
        let n = msg[s] as usize;
        if 1 + n > rr.rdlength as usize {
            return Err(Error::ParseError);
        }
        let text = copy_range(msg, s + 1, s + 1 + n);
        Ok(TXT { dname: text_lossy(text.as_slice()) })
    }
}

} // verus!
