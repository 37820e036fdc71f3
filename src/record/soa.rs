use vstd::prelude::*;
use super::{RawRecord, RawView, RecordData, RecordType};
use crate::bytes::{be_u32, read_u32};
use crate::error::Error;
use crate::name::{decompress_name, lemma_name_errors, name_text, no_nul_char, spec_name_at};

verus! {

/// The start of a zone of authority.
#[derive(Debug, Clone)]
pub struct SOA {
    pub mname: String,
    pub rname: String,
    pub serial: u32,
    pub refresh: u32,
    pub retry: u32,
    pub expire: u32,
    pub minimum: u32,
}

/// The two names of a zone record's data, read one after the other from
/// `start`, and the position of the five counters that follow them.
pub open spec fn soa_layout(buf: Seq<u8>, start: int) -> Result<(Seq<u8>, Seq<u8>, int), Error> {
    match spec_name_at(buf, start) {
        Err(e) => Err(e),
        Ok((mname, after_mname)) => match spec_name_at(buf, after_mname) {
            Err(e) => Err(e),
            Ok((rname, after_rname)) => Ok((mname, rname, after_rname)),
        },
    }
}

impl RecordData for SOA {
    open spec fn spec_type_code() -> u16 {
        6
    }

    open spec fn spec_error(buf: Seq<u8>, raw: RawView) -> Option<Error> {
        if raw.type_tag != 6 {
            Some(Error::WrongRRType)
        } else {
            match soa_layout(buf, raw.rdata_start) {
                Err(e) => Some(e),
                Ok((_, _, f)) => if f + 20 > raw.rdata_start + raw.rdlength {
                    Some(Error::ParseError)
                } else {
                    None
                },
            }
        }
    }

    open spec fn spec_decodes(buf: Seq<u8>, raw: RawView, v: SOA) -> bool {
        &&& soa_layout(buf, raw.rdata_start) matches Ok((mname, rname, f))
        &&& v.mname@ == name_text(mname)
        &&& no_nul_char(v.mname@)
        &&& v.rname@ == name_text(rname)
        &&& no_nul_char(v.rname@)
        &&& v.serial as int == be_u32(buf, f)
        &&& v.refresh as int == be_u32(buf, f + 4)
        &&& v.retry as int == be_u32(buf, f + 8)
        &&& v.expire as int == be_u32(buf, f + 12)
        &&& v.minimum as int == be_u32(buf, f + 16)
    }

    proof fn lemma_error_kinds(buf: Seq<u8>, raw: RawView) {
        lemma_name_errors(buf, raw.rdata_start);
        if let Ok((_, after_mname)) = spec_name_at(buf, raw.rdata_start) {
            lemma_name_errors(buf, after_mname);
        }
    }

    fn get_record_type() -> (r: RecordType) {
        RecordType::SOA
    }

    fn extract(msg: &[u8], rr: &RawRecord) -> (r: Result<SOA, Error>) {
        if rr.type_tag != Self::get_record_type().code() {
            return Err(Error::WrongRRType);
        }
        let mut offset = rr.rdata_start;
        let mname = match decompress_name(msg, offset) {
            Ok((text, used)) => {
                offset = offset + used;
                text
            },
            Err(e) => return Err(e),
        };
        let rname = match decompress_name(msg, offset) {
            Ok((text, used)) => {
                offset = offset + used;
                text
            },
            Err(e) => return Err(e),
        };
        let rdata_end = rr.rdata_start + rr.rdlength as usize;
        if offset > rdata_end || 20 > rdata_end - offset {
            return Err(Error::ParseError);
        }
        let serial = read_u32(msg, offset);
        let refresh = read_u32(msg, offset + 4);
        let retry = read_u32(msg, offset + 8);
        let expire = read_u32(msg, offset + 12);
        let minimum = read_u32(msg, offset + 16);
        Ok(SOA { mname, rname, serial, refresh, retry, expire, minimum })
    }
}

} // verus!
