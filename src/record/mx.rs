use vstd::prelude::*;
use super::{RawRecord, RawView, RecordData, RecordType};
use crate::bytes::{be_i16, read_i16};
use crate::error::Error;
use crate::name::{decompress_name, lemma_name_errors, name_text, no_nul_char, spec_name_at};

verus! {

/// A mail exchange: a preference, then the exchange's name.
#[derive(Debug, Clone)]
pub struct MX {
    pub preference: i16,
    pub exchange: String,
}

impl RecordData for MX {
    open spec fn spec_type_code() -> u16 {
        15
    }

    open spec fn spec_error(buf: Seq<u8>, raw: RawView) -> Option<Error> {
        if raw.type_tag != 15 {
            Some(Error::WrongRRType)
        } else if raw.rdlength < 2 {
            Some(Error::ParseError)
        } else {
            match spec_name_at(buf, raw.rdata_start + 2) {
                Ok((_, end)) => if end > raw.rdata_start + raw.rdlength {
                    Some(Error::ParseError)
                } else {
                    None
                },
                Err(e) => Some(e),
            }
        }
    }

    open spec fn spec_decodes(buf: Seq<u8>, raw: RawView, v: MX) -> bool {
        &&& v.preference as int == be_i16(buf, raw.rdata_start)
        &&& spec_name_at(buf, raw.rdata_start + 2) matches Ok((dotted, _))
        &&& v.exchange@ == name_text(dotted)
        &&& no_nul_char(v.exchange@)
    }

    proof fn lemma_error_kinds(buf: Seq<u8>, raw: RawView) {
        lemma_name_errors(buf, raw.rdata_start + 2);
    }

    fn get_record_type() -> (r: RecordType) {
        RecordType::MX
    }

    fn extract(msg: &[u8], rr: &RawRecord) -> (r: Result<MX, Error>) {
        if rr.type_tag != Self::get_record_type().code() {
            return Err(Error::WrongRRType);
        }
        if rr.rdlength < 2 {
            return Err(Error::ParseError);
        }
        let exchange = match decompress_name(msg, rr.rdata_start + 2) {
            Ok((text, used)) => {
                if used > rr.rdlength as usize - 2 {
                    return Err(Error::ParseError);
                }
                text
            },
            Err(e) => return Err(e),
        };
        let preference = read_i16(msg, rr.rdata_start);
        Ok(MX { preference, exchange })
    }
}

} // verus!
