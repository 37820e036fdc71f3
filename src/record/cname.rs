use vstd::prelude::*;
use super::{RawRecord, RawView, RecordData, RecordType};
use crate::error::Error;
use crate::name::{decompress_name, lemma_name_errors, name_text, no_nul_char, spec_name_at};

verus! {

/// The canonical name of an alias.
#[derive(Debug, Clone)]
pub struct CNAME {
    pub cname: String,
}

impl RecordData for CNAME {
    open spec fn spec_type_code() -> u16 {
        5
    }

    open spec fn spec_error(buf: Seq<u8>, raw: RawView) -> Option<Error> {
        if raw.type_tag != 5 {
            Some(Error::WrongRRType)
        } else {
            match spec_name_at(buf, raw.rdata_start) {
                Ok((_, end)) => if end > raw.rdata_start + raw.rdlength {
                    Some(Error::ParseError)
                } else {
                    None
                },
                Err(e) => Some(e),
            }
        }
    }

    open spec fn spec_decodes(buf: Seq<u8>, raw: RawView, v: CNAME) -> bool {
        &&& spec_name_at(buf, raw.rdata_start) matches Ok((dotted, _))
        &&& v.cname@ == name_text(dotted)
        &&& no_nul_char(v.cname@)
    }

    proof fn lemma_error_kinds(buf: Seq<u8>, raw: RawView) {
        lemma_name_errors(buf, raw.rdata_start);
    }

    fn get_record_type() -> (r: RecordType) {
        RecordType::CNAME
    }

    fn extract(msg: &[u8], rr: &RawRecord) -> (r: Result<CNAME, Error>) {
        if rr.type_tag != Self::get_record_type().code() {
            return Err(Error::WrongRRType);
        }
        match decompress_name(msg, rr.rdata_start) {
            Ok((cname, used)) => if used > rr.rdlength as usize {
                Err(Error::ParseError)
            } else {
                Ok(CNAME { cname })
            },
            Err(e) => Err(e),
        }
    }
}

} // verus!
