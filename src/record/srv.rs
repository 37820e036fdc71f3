use vstd::prelude::*;
use super::{RawRecord, RawView, RecordData, RecordType};
use crate::bytes::{be_i16, be_u16, read_i16, read_u16};
use crate::error::Error;
use crate::name::{decompress_name, lemma_name_errors, name_text, no_nul_char, spec_name_at};

verus! {

/// A service location: priority, weight, port, then the target host's name.
#[derive(Debug, Clone)]
pub struct SRV {
    pub priority: i16,
    pub weight: i16,
    pub port: u16,
    pub name: String,
}

impl RecordData for SRV {
    open spec fn spec_type_code() -> u16 {
        33
    }

    open spec fn spec_error(buf: Seq<u8>, raw: RawView) -> Option<Error> {
        if raw.type_tag != 33 {
            Some(Error::WrongRRType)
        } else if raw.rdlength < 6 {
            Some(Error::ParseError)
        } else {
            match spec_name_at(buf, raw.rdata_start + 6) {
                Ok((_, end)) => if end > raw.rdata_start + raw.rdlength {
                    Some(Error::ParseError)
                } else {
                    None
                },
                Err(e) => Some(e),
            }
        }
    }

    open spec fn spec_decodes(buf: Seq<u8>, raw: RawView, v: SRV) -> bool {
        &&& v.priority as int == be_i16(buf, raw.rdata_start)
        &&& v.weight as int == be_i16(buf, raw.rdata_start + 2)
        &&& v.port as int == be_u16(buf, raw.rdata_start + 4)
        &&& spec_name_at(buf, raw.rdata_start + 6) matches Ok((dotted, _))
        &&& v.name@ == name_text(dotted)
        &&& no_nul_char(v.name@)
    }

    proof fn lemma_error_kinds(buf: Seq<u8>, raw: RawView) {
        lemma_name_errors(buf, raw.rdata_start + 6);
    }

    fn get_record_type() -> (r: RecordType) {
        RecordType::SRV
    }

    fn extract(msg: &[u8], rr: &RawRecord) -> (r: Result<SRV, Error>) {
        if rr.type_tag != Self::get_record_type().code() {
            return Err(Error::WrongRRType);
        }
        if rr.rdlength < 6 {
            return Err(Error::ParseError);
        }
        let s = rr.rdata_start;
        let name = match decompress_name(msg, s + 6) {
            Ok((text, used)) => {
                if used > rr.rdlength as usize - 6 {
                    return Err(Error::ParseError);
                }
                text
            },
            Err(e) => return Err(e),
        };
        Ok(
            SRV {
                priority: read_i16(msg, s),
                weight: read_i16(msg, s + 2),
                port: read_u16(msg, s + 4),
                name,
            },
        )
    }
}

} // verus!
