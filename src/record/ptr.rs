use vstd::prelude::*;
use super::{RawRecord, RawView, RecordData, RecordType};
use crate::error::Error;
use crate::name::{decompress_name, lemma_name_errors, name_text, no_nul_char, spec_name_at};

verus! {

/// A domain name pointer.
#[derive(Debug, Clone)]
pub struct PTR {
    pub dname: String,
}

impl RecordData for PTR {
    open spec fn spec_type_code() -> u16 {
        12
    }

    open spec fn spec_error(buf: Seq<u8>, raw: RawView) -> Option<Error> {
        if raw.type_tag != 12 {
            Some(Error::WrongRRType)
        } else {
            match spec_name_at(buf, raw.rdata_start) {
                Ok((_, end)) => if end > raw.rdata_start + raw.rdlength {
                    Some(Error::ParseError)
                } else {
                    None
                },
                Err(e) => Some(e),
            }
        }
    }

    open spec fn spec_decodes(buf: Seq<u8>, raw: RawView, v: PTR) -> bool {
        &&& spec_name_at(buf, raw.rdata_start) matches Ok((dotted, _))
        &&& v.dname@ == name_text(dotted)
        &&& no_nul_char(v.dname@)
    }

    proof fn lemma_error_kinds(buf: Seq<u8>, raw: RawView) {
        lemma_name_errors(buf, raw.rdata_start);
    }

    fn get_record_type() -> (r: RecordType) {
        RecordType::PTR
    }

    fn extract(msg: &[u8], rr: &RawRecord) -> (r: Result<PTR, Error>) {
        if rr.type_tag != Self::get_record_type().code() {
            return Err(Error::WrongRRType);
        }
        match decompress_name(msg, rr.rdata_start) {
            Ok((dname, used)) => if used > rr.rdlength as usize {
                Err(Error::ParseError)
            } else {
                Ok(PTR { dname })
            },
            Err(e) => Err(e),
        }
    }
}

} // verus!
