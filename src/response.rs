use vstd::prelude::*;
use core::marker::PhantomData;
use crate::bytes::{be_u16, be_u32, read_u16, read_u32};
use crate::error::Error;
use crate::flags::Flags;
use crate::name::{
    lemma_name_end, lemma_name_nul_free, no_nul_char, nul_free, presentation, spec_name_at,
    unpack_name,
};
use crate::record::{RawRecord, RawView, Record, RecordData};

verus! {

/// The four sections of a DNS message, in the order in which they follow the
/// header.
#[derive(Debug, Clone, Copy, PartialEq, Eq, Structural)]
pub enum Section {
    Question,
    Answer,
    Authority,
    Additional,
}

impl Section {
    /// The section's position in the message: 0 for the question section up
    /// to 3 for the additional section.
    pub open spec fn spec_ordinal(self) -> nat {
        match self {
            Section::Question => 0,
            Section::Answer => 1,
            Section::Authority => 2,
            Section::Additional => 3,
        }
    }

    /// The section's position in the message.
    pub fn ns_sect(&self) -> (r: usize)
        ensures
            r == self.spec_ordinal(),
    {
        match self {
            Section::Question => 0,
            Section::Answer => 1,
            Section::Authority => 2,
            Section::Additional => 3,
        }
    }

    /// The section at a position, 0 to 3.
    pub open spec fn spec_at(ordinal: nat) -> Section {
        if ordinal == 0 {
            Section::Question
        } else if ordinal == 1 {
            Section::Answer
        } else if ordinal == 2 {
            Section::Authority
        } else {
            Section::Additional
        }
    }
}

/// The length of the fixed header.
pub const HEADER_LEN: usize = 12;

/// The number of records that the header claims for a section.
pub open spec fn spec_count(buf: Seq<u8>, s: Section) -> nat {
    be_u16(buf, 4 + 2 * s.spec_ordinal() as int) as nat
}

/// The record that starts at `pos`: a question entry is a name, a type and a
/// class; other records add a time to live, a data length and the data. The
/// record must end within the message.
pub open spec fn spec_parse_rr(buf: Seq<u8>, pos: int, question: bool) -> Result<RawView, Error> {
    match spec_name_at(buf, pos) {
        Err(_) => Err(Error::ParseError),
        Ok((name, p)) => if question {
            if p + 4 > buf.len() {
                Err(Error::ParseError)
            } else {
                Ok(
                    RawView {
                        name,
                        type_tag: be_u16(buf, p) as u16,
                        class: be_u16(buf, p + 2) as u16,
                        ttl: 0,
                        rdata_start: p + 4,
                        rdlength: 0,
                    },
                )
            }
        } else if p + 10 > buf.len() || p + 10 + be_u16(buf, p + 8) > buf.len() {
            Err(Error::ParseError)
        } else {
            Ok(
                RawView {
                    name,
                    type_tag: be_u16(buf, p) as u16,
                    class: be_u16(buf, p + 2) as u16,
                    ttl: be_u32(buf, p + 4) as u32,
                    rdata_start: p + 10,
                    rdlength: be_u16(buf, p + 8),
                },
            )
        },
    }
}

/// The position after `n` records that follow one another from `pos`.
pub open spec fn spec_skip(buf: Seq<u8>, pos: int, n: nat, question: bool) -> Result<int, Error>
    decreases n,
{
    if n == 0 {
        Ok(pos)
    } else {
        match spec_parse_rr(buf, pos, question) {
            Err(e) => Err(e),
            Ok(raw) => spec_skip(buf, raw.next(), (n - 1) as nat, question),
        }
    }
}

/// Where a section starts: after the header, and after every record of the
/// sections before it.
pub open spec fn spec_section_start(buf: Seq<u8>, ordinal: nat) -> Result<int, Error>
    decreases ordinal,
{
    if ordinal == 0 {
        Ok(HEADER_LEN as int)
    } else {
        let prev = (ordinal - 1) as nat;
        match spec_section_start(buf, prev) {
            Err(e) => Err(e),
            Ok(p) => spec_skip(buf, p, spec_count(buf, Section::spec_at(prev)), prev == 0),
        }
    }
}

/// Where record `k` of a section starts.
pub open spec fn spec_record_pos(buf: Seq<u8>, s: Section, k: nat) -> Result<int, Error> {
    match spec_section_start(buf, s.spec_ordinal()) {
        Err(e) => Err(e),
        Ok(p) => spec_skip(buf, p, k, s == Section::Question),
    }
}

/// Record `k` of a section, as the walk finds it.
pub open spec fn spec_raw(buf: Seq<u8>, s: Section, k: usize) -> Result<RawView, Error> {
    if k >= spec_count(buf, s) {
        Err(Error::NoSuchSectionIndex(s, k))
    } else {
        match spec_record_pos(buf, s, k as nat) {
            Err(e) => Err(e),
            Ok(p) => spec_parse_rr(buf, p, s == Section::Question),
        }
    }
}

/// The error with which reading record `k` of a section as a `T` fails, if it
/// does.
pub open spec fn spec_lookup_error<T: RecordData>(buf: Seq<u8>, s: Section, k: usize) -> Option<Error> {
    match spec_raw(buf, s, k) {
        Err(e) => Some(e),
        Ok(raw) => Record::<T>::spec_error(buf, raw),
    }
}

/// Locates the record that starts at `pos`.
pub fn parse_rr(buf: &[u8], pos: usize, question: bool) -> (r: Result<RawRecord, Error>)
    ensures
        match spec_parse_rr(buf@, pos as int, question) {
            Ok(v) => r matches Ok(raw) && raw@ == v && v.within(buf@) && nul_free(
                presentation(v.name),
            ),
            Err(e) => r matches Err(x) && x == e,
        },
{
    let len = buf.len();
    let (name, p) = match unpack_name(buf, pos) {
        Ok(found) => found,
        Err(_) => return Err(Error::ParseError),
    };
    proof {
        lemma_name_end(buf@, pos as int);
        lemma_name_nul_free(buf@, pos as int);
    }
    if question {
        if 4 > len - p {
            return Err(Error::ParseError);
        }
        let type_tag = read_u16(buf, p);
        let class = read_u16(buf, p + 2);
        Ok(RawRecord { name, type_tag, class, ttl: 0, rdata_start: p + 4, rdlength: 0 })
    } else {
        if 10 > len - p {
            return Err(Error::ParseError);
        }
        let rdlength = read_u16(buf, p + 8);
        if rdlength as usize > len - p - 10 {
            return Err(Error::ParseError);
        }
        let type_tag = read_u16(buf, p);
        let class = read_u16(buf, p + 2);
        let ttl = read_u32(buf, p + 4);
        Ok(RawRecord { name, type_tag, class, ttl, rdata_start: p + 10, rdlength })
    }
}

/// Skips `n` records that follow one another from `pos`.
pub fn skip_records(buf: &[u8], pos: usize, n: usize, question: bool) -> (r: Result<usize, Error>)
    requires
        pos <= buf@.len(),
    ensures
        match r {
            Ok(p) => spec_skip(buf@, pos as int, n as nat, question) == Ok::<int, Error>(p as int)
                && p <= buf@.len(),
            Err(e) => spec_skip(buf@, pos as int, n as nat, question) == Err::<int, Error>(e),
        },
{
    let mut p: usize = pos;
    let mut i: usize = 0;
    while i < n
        invariant
            i <= n,
            spec_skip(buf@, p as int, (n - i) as nat, question) == spec_skip(buf@, pos as int, n as nat, question),
            p <= buf@.len(),
        decreases n - i,
    {
        match parse_rr(buf, p, question) {
            Ok(raw) => {
                p = raw.rdata_start + raw.rdlength as usize;
            },
            Err(e) => return Err(e),
        }
        i = i + 1;
    }
    Ok(p)
}

/// A DNS response message: the bytes, and the header read from them once.
pub struct Response {
    buffer: Vec<u8>,
    id: u16,
    flags: u16,
    counts: [u16; 4],
}

impl Response {
    /// The message's bytes.
    pub closed spec fn message(&self) -> Seq<u8> {
        self.buffer@
    }

    #[verifier::type_invariant]
    closed spec fn header_read(&self) -> bool {
        &&& HEADER_LEN <= self.buffer@.len()
        &&& self.id as int == be_u16(self.buffer@, 0)
        &&& self.flags as int == be_u16(self.buffer@, 2)
        &&& self.counts@.len() == 4
        &&& forall|i: int|
            0 <= i < 4 ==> #[trigger] self.counts@[i] as int == be_u16(self.buffer@, 4 + 2 * i)
    }

    /// Reads the header of a message; a message shorter than the header does
    /// not parse.
    pub fn new(buffer: Vec<u8>) -> (r: Result<Response, Error>)
        ensures
            buffer@.len() < HEADER_LEN ==> r == Err::<Response, Error>(Error::ParseError),
            buffer@.len() >= HEADER_LEN ==> (r matches Ok(resp) && resp.message() == buffer@),
    {
        if buffer.len() < HEADER_LEN {
            return Err(Error::ParseError);
        }
        let b = buffer.as_slice();
        let id = read_u16(b, 0);
        let flags = read_u16(b, 2);
        let counts = [read_u16(b, 4), read_u16(b, 6), read_u16(b, 8), read_u16(b, 10)];
        assert(forall|i: int|
            0 <= i < 4 ==> #[trigger] counts@[i] as int == be_u16(buffer@, 4 + 2 * i));
        Ok(Response { buffer, id, flags, counts })
    }

    /// The message's identifier.
    pub fn get_id(&self) -> (r: u16)
        ensures
            r as int == be_u16(self.message(), 0),
    {
        proof {
            use_type_invariant(self);
        }
        self.id
    }

    /// The flag word of the header.
    pub fn get_flags(&self) -> (r: Flags)
        ensures
            r.0 as int == be_u16(self.message(), 2),
    {
        proof {
            use_type_invariant(self);
        }
        Flags(self.flags)
    }

    /// The number of records that the header claims for a section.
    pub fn get_section_count(&self, section: Section) -> (r: usize)
        ensures
            r == spec_count(self.message(), section),
    {
        proof {
            use_type_invariant(self);
        }
        let i = section.ns_sect();
        assert(self.counts@[i as int] as int == be_u16(self.buffer@, 4 + 2 * i));
        self.counts[i] as usize
    }

    /// Where a section starts.
    fn section_start(&self, section: Section) -> (r: Result<usize, Error>)
        ensures
            match r {
                Ok(p) => spec_section_start(self.message(), section.spec_ordinal()) == Ok::<
                    int,
                    Error,
                >(p as int) && p <= self.message().len(),
                Err(e) => spec_section_start(self.message(), section.spec_ordinal()) == Err::<
                    int,
                    Error,
                >(e),
            },
    {
        proof {
            use_type_invariant(self);
        }
        let buf = self.buffer.as_slice();
        let target = section.ns_sect();
        let mut pos: usize = HEADER_LEN;
        let mut i: usize = 0;
        while i < target
            invariant
                i <= target <= 3,
                target == section.spec_ordinal(),
                buf@ == self.buffer@,
                pos <= self.buffer@.len(),
                spec_section_start(self.buffer@, i as nat) == Ok::<int, Error>(pos as int),
            decreases target - i,
        {
            proof {
                use_type_invariant(self);
            }
            let ghost this = Section::spec_at(i as nat);
            assert(this.spec_ordinal() == i);
            assert(self.counts@[i as int] as int == be_u16(self.buffer@, 4 + 2 * i));
            match skip_records(buf, pos, self.counts[i] as usize, i == 0) {
                Ok(p) => {
                    pos = p;
                },
                Err(e) => {
                    proof {
                        assert(spec_section_start(self.buffer@, (i + 1) as nat) == Err::<int, Error>(e));
                        lemma_section_start_fails_after(self.buffer@, (i + 1) as nat, target as nat);
                    }
                    return Err(e);
                },
            }
            i = i + 1;
        }
        Ok(pos)
    }

    /// Where record `index` of a section starts.
    fn record_pos(&self, section: Section, index: usize) -> (r: Result<usize, Error>)
        ensures
            match r {
                Ok(p) => spec_record_pos(self.message(), section, index as nat) == Ok::<int, Error>(
                    p as int,
                ) && p <= self.message().len(),
                Err(e) => spec_record_pos(self.message(), section, index as nat) == Err::<int, Error>(
                    e,
                ),
            },
    {
        match self.section_start(section) {
            Ok(start) => skip_records(self.buffer.as_slice(), start, index, section == Section::Question),
            Err(e) => Err(e),
        }
    }

    /// Reads record `index` of a section as a record of type `T`.
    pub fn get_record<T: RecordData>(&self, section: Section, index: usize) -> (r: Result<
        Record<T>,
        Error,
    >)
        ensures
            match r {
                Ok(rec) => {
                    &&& spec_lookup_error::<T>(self.message(), section, index) == None::<Error>
                    &&& spec_raw(self.message(), section, index) matches Ok(raw)
                    &&& rec.spec_decodes(self.message(), raw)
                    &&& no_nul_char(rec.name@)
                },
                Err(e) => spec_lookup_error::<T>(self.message(), section, index) == Some(e),
            },
    {
        if index >= self.get_section_count(section) {
            return Err(Error::NoSuchSectionIndex(section, index));
        }
        let pos = match self.record_pos(section, index) {
            Ok(p) => p,
            Err(e) => return Err(e),
        };
        let buf = self.buffer.as_slice();
        match parse_rr(buf, pos, section == Section::Question) {
            Ok(raw) => Record::<T>::extract(buf, &raw),
            Err(e) => Err(e),
        }
    }
}

impl Response {
    /// The records of type `T` in a section, in wire order.
    fn items<T: RecordData>(&self, section: Section) -> (r: RecordItems<'_, T>)
        ensures
            r.message() == self.message(),
            r.section() == section,
            r.remaining() == spec_yielded::<T>(self.message(), section, 0),
    {
        proof {
            use_type_invariant(self);
        }
        let count = self.get_section_count(section);
        match self.record_pos(section, 0) {
            Ok(pos) => RecordItems { response: self, section, index: 0, pos, _marker: PhantomData },
            Err(_) => RecordItems {
                response: self,
                section,
                index: count,
                pos: HEADER_LEN,
                _marker: PhantomData,
            },
        }
    }

    /// The records of type `T` in the question section, in wire order.
    pub fn questions<T: RecordData>(&self) -> (r: RecordItems<'_, T>)
        ensures
            r.message() == self.message(),
            r.section() == Section::Question,
            r.remaining() == spec_yielded::<T>(self.message(), Section::Question, 0),
    {
        self.items(Section::Question)
    }

    /// The records of type `T` in the answer section, in wire order.
    pub fn answers<T: RecordData>(&self) -> (r: RecordItems<'_, T>)
        ensures
            r.message() == self.message(),
            r.section() == Section::Answer,
            r.remaining() == spec_yielded::<T>(self.message(), Section::Answer, 0),
    {
        self.items(Section::Answer)
    }

    /// The records of type `T` in the authority section, in wire order.
    pub fn authorities<T: RecordData>(&self) -> (r: RecordItems<'_, T>)
        ensures
            r.message() == self.message(),
            r.section() == Section::Authority,
            r.remaining() == spec_yielded::<T>(self.message(), Section::Authority, 0),
    {
        self.items(Section::Authority)
    }

    /// The records of type `T` in the additional section, in wire order.
    pub fn additional_records<T: RecordData>(&self) -> (r: RecordItems<'_, T>)
        ensures
            r.message() == self.message(),
            r.section() == Section::Additional,
            r.remaining() == spec_yielded::<T>(self.message(), Section::Additional, 0),
    {
        self.items(Section::Additional)
    }
}

/// The indices, from `i` on, of the records of a section that the iterator
/// over records of type `T` yields: those that decode as a `T`, in order, up
/// to the end of the section or the first record that cannot be located.
pub open spec fn spec_yielded<T: RecordData>(buf: Seq<u8>, s: Section, i: nat) -> Seq<nat>
    decreases spec_count(buf, s) - i,
{
    if i >= spec_count(buf, s) {
        seq![]
    } else {
        match spec_raw(buf, s, i as usize) {
            Err(_) => seq![],
            Ok(raw) => if Record::<T>::spec_error(buf, raw) == None::<Error> {
                seq![i] + spec_yielded::<T>(buf, s, i + 1)
            } else {
                spec_yielded::<T>(buf, s, i + 1)
            },
        }
    }
}

/// The records of one type in one section, read one at a time; records of
/// other types, or that do not decode, are passed over.
pub struct RecordItems<'a, T: RecordData> {
    response: &'a Response,
    section: Section,
    index: usize,
    pos: usize,
    _marker: PhantomData<T>,
}

impl<'a, T: RecordData> RecordItems<'a, T> {
    #[verifier::type_invariant]
    closed spec fn at_next_record(&self) -> bool {
        let buf = self.response.message();
        &&& self.index <= spec_count(buf, self.section)
        &&& self.pos <= buf.len()
        &&& self.index < spec_count(buf, self.section) ==> spec_record_pos(
            buf,
            self.section,
            self.index as nat,
        ) == Ok::<int, Error>(self.pos as int)
    }

    /// The message that the records are read from.
    pub closed spec fn message(&self) -> Seq<u8> {
        self.response.message()
    }

    /// The section that the records are read from.
    pub closed spec fn section(&self) -> Section {
        self.section
    }

    /// The indices of the records that are still to come.
    pub closed spec fn remaining(&self) -> Seq<nat> {
        spec_yielded::<T>(self.response.message(), self.section, self.index as nat)
    }

    /// The next record of type `T`, if one is left.
    pub fn next(&mut self) -> (r: Option<Record<T>>)
        ensures
            final(self).message() == old(self).message(),
            final(self).section() == old(self).section(),
            match r {
                None => old(self).remaining() == Seq::<nat>::empty() && final(self).remaining()
                    == Seq::<nat>::empty(),
                Some(rec) => {
                    &&& old(self).remaining().len() > 0
                    &&& final(self).remaining() == old(self).remaining().drop_first()
                    &&& spec_raw(
                        old(self).message(),
                        old(self).section(),
                        old(self).remaining()[0] as usize,
                    ) matches Ok(raw)
                    &&& rec.spec_decodes(old(self).message(), raw)
                    &&& no_nul_char(rec.name@)
                },
            },
    {
        proof {
            use_type_invariant(&*self);
            use_type_invariant(self.response);
        }
        let ghost buf = self.response.message();
        let ghost s = self.section;
        let ghost start = self.index as nat;
        let count = self.response.get_section_count(self.section);
        let msg = self.response.buffer.as_slice();
        let question = self.section == Section::Question;
        let mut index = self.index;
        let mut pos = self.pos;
        loop
            invariant
                msg@ == buf,
                buf == self.response.message(),
                buf == old(self).message(),
                s == old(self).section(),
                old(self).remaining() == spec_yielded::<T>(buf, s, start),
                s == self.section,
                question == (s == Section::Question),
                count == spec_count(buf, s),
                start <= index <= count,
                pos <= buf.len(),
                index < count ==> spec_record_pos(buf, s, index as nat) == Ok::<int, Error>(pos as int),
                spec_yielded::<T>(buf, s, index as nat) == spec_yielded::<T>(buf, s, start),
            decreases count - index,
        {
            if index >= count {
                *self = RecordItems {
                    response: self.response,
                    section: self.section,
                    index,
                    pos,
                    _marker: PhantomData,
                };
                return None;
            }
            match parse_rr(msg, pos, question) {
                Err(_) => {
                    *self = RecordItems {
                        response: self.response,
                        section: self.section,
                        index: count,
                        pos,
                        _marker: PhantomData,
                    };
                    return None;
                },
                Ok(raw) => {
                    proof {
                        lemma_record_pos_next(buf, s, index as nat);
                    }
                    index = index + 1;
                    pos = raw.rdata_start + raw.rdlength as usize;
                    match Record::<T>::extract(msg, &raw) {
                        Ok(rec) => {
                            *self = RecordItems {
                                response: self.response,
                                section: self.section,
                                index,
                                pos,
                                _marker: PhantomData,
                            };
                            return Some(rec);
                        },
                        Err(_) => {},
                    }
                },
            }
        }
    }
}

/// The record after record `k` starts where record `k` ends.
proof fn lemma_record_pos_next(buf: Seq<u8>, s: Section, k: nat)
    ensures
        spec_record_pos(buf, s, k) matches Ok(p) ==> spec_record_pos(buf, s, k + 1) == match spec_parse_rr(
            buf,
            p,
            s == Section::Question,
        ) {
            Ok(raw) => Ok::<int, Error>(raw.next()),
            Err(e) => Err::<int, Error>(e),
        },
{
    if let Ok(start) = spec_section_start(buf, s.spec_ordinal()) {
        lemma_skip_one_more(buf, start, k, s == Section::Question);
    }
}

/// Skipping one more record continues from where the others end.
proof fn lemma_skip_one_more(buf: Seq<u8>, pos: int, n: nat, question: bool)
    ensures
        spec_skip(buf, pos, n + 1, question) == match spec_skip(buf, pos, n, question) {
            Err(e) => Err::<int, Error>(e),
            Ok(p) => match spec_parse_rr(buf, p, question) {
                Ok(raw) => Ok::<int, Error>(raw.next()),
                Err(e) => Err::<int, Error>(e),
            },
        },
    decreases n,
{
    if let Ok(raw) = spec_parse_rr(buf, pos, question) {
        if n > 0 {
            lemma_skip_one_more(buf, raw.next(), (n - 1) as nat, question);
        } else {
            assert(spec_skip(buf, raw.next(), 0, question) == Ok::<int, Error>(raw.next()));
        }
    }
}

/// Once a section's start cannot be found, neither can a later one's.
proof fn lemma_section_start_fails_after(buf: Seq<u8>, from: nat, to: nat)
    requires
        from <= to,
        spec_section_start(buf, from) is Err,
    ensures
        spec_section_start(buf, to) == spec_section_start(buf, from),
    decreases to - from,
{
    if from < to {
        lemma_section_start_fails_after(buf, from, (to - 1) as nat);
    }
}

/// Every record of a section up to the count in the header can be located:
/// the walk gets past all of them.
pub open spec fn spec_walkable(buf: Seq<u8>, s: Section) -> bool {
    spec_record_pos(buf, s, spec_count(buf, s)) is Ok
}

/// The walk fails only with a parse error.
proof fn lemma_skip_errors(buf: Seq<u8>, pos: int, n: nat, question: bool)
    ensures
        spec_skip(buf, pos, n, question) matches Err(e) ==> e == Error::ParseError,
    decreases n,
{
    if n > 0 {
        if let Ok(raw) = spec_parse_rr(buf, pos, question) {
            lemma_skip_errors(buf, raw.next(), (n - 1) as nat, question);
        }
    }
}

proof fn lemma_section_start_errors(buf: Seq<u8>, ordinal: nat)
    ensures
        spec_section_start(buf, ordinal) matches Err(e) ==> e == Error::ParseError,
    decreases ordinal,
{
    if ordinal > 0 {
        let prev = (ordinal - 1) as nat;
        lemma_section_start_errors(buf, prev);
        if let Ok(p) = spec_section_start(buf, prev) {
            lemma_skip_errors(buf, p, spec_count(buf, Section::spec_at(prev)), prev == 0);
        }
    }
}

/// When `n` records can be skipped, each of the first `n` can be located.
proof fn lemma_skip_prefix(buf: Seq<u8>, pos: int, n: nat, k: nat, question: bool)
    requires
        k < n,
        spec_skip(buf, pos, n, question) is Ok,
    ensures
        spec_skip(buf, pos, k, question) matches Ok(p) && spec_parse_rr(buf, p, question) is Ok,
    decreases k,
{
    let raw = spec_parse_rr(buf, pos, question)->Ok_0;
    if k > 0 {
        lemma_skip_prefix(buf, raw.next(), (n - 1) as nat, (k - 1) as nat, question);
    }
}

/// Indexed access to a section: an index at or past the count in the header
/// fails with `NoSuchSectionIndex` for that section and index, and with no
/// other error; an index below the count never fails so, and in a section
/// that can be walked its record is always located, so that reading it
/// succeeds exactly when the record decodes as a `T`.
pub proof fn lemma_indexed_access<T: RecordData>(buf: Seq<u8>, s: Section, i: usize)
    ensures
        i >= spec_count(buf, s) ==> spec_lookup_error::<T>(buf, s, i) == Some(
            Error::NoSuchSectionIndex(s, i),
        ),
        i < spec_count(buf, s) ==> !(spec_lookup_error::<T>(buf, s, i) matches Some(
            Error::NoSuchSectionIndex(_, _),
        )),
        i < spec_count(buf, s) && spec_walkable(buf, s) ==> (spec_raw(buf, s, i) matches Ok(raw)
            && spec_lookup_error::<T>(buf, s, i) == Record::<T>::spec_error(buf, raw)),
{
    if i < spec_count(buf, s) {
        lemma_section_start_errors(buf, s.spec_ordinal());
        if let Ok(start) = spec_section_start(buf, s.spec_ordinal()) {
            let q = s == Section::Question;
            lemma_skip_errors(buf, start, i as nat, q);
            if let Ok(raw) = spec_raw(buf, s, i) {
                T::lemma_error_kinds(buf, raw);
            }
            if spec_walkable(buf, s) {
                lemma_skip_prefix(buf, start, spec_count(buf, s), i as nat, q);
            }
        }
    }
}

/// The indices, from `i` on, of the records of a section whose type code is
/// `tag`, in order, up to the end of the section or the first record that
/// cannot be located.
pub open spec fn spec_tagged(buf: Seq<u8>, s: Section, tag: u16, i: nat) -> Seq<nat>
    decreases spec_count(buf, s) - i,
{
    if i >= spec_count(buf, s) {
        seq![]
    } else {
        match spec_raw(buf, s, i as usize) {
            Err(_) => seq![],
            Ok(raw) => if raw.type_tag == tag {
                seq![i] + spec_tagged(buf, s, tag, i + 1)
            } else {
                spec_tagged(buf, s, tag, i + 1)
            },
        }
    }
}

/// Iterating the records of type `T` over a section that can be walked, and
/// in which every record of that type decodes, yields exactly the records
/// whose type code is `T`'s, in wire order, whatever records of other types
/// stand between them.
pub proof fn lemma_iteration_keeps_type<T: RecordData>(buf: Seq<u8>, s: Section)
    requires
        spec_walkable(buf, s),
        forall|i: usize|
            #![trigger spec_raw(buf, s, i)]
            i < spec_count(buf, s) && spec_raw(buf, s, i) is Ok && spec_raw(buf, s, i)->Ok_0.type_tag
                == T::spec_type_code() ==> Record::<T>::spec_error(buf, spec_raw(buf, s, i)->Ok_0)
                == None::<Error>,
    ensures
        spec_yielded::<T>(buf, s, 0) == spec_tagged(buf, s, T::spec_type_code(), 0),
{
    lemma_iteration_keeps_type_from::<T>(buf, s, 0);
}

proof fn lemma_iteration_keeps_type_from<T: RecordData>(buf: Seq<u8>, s: Section, i: nat)
    requires
        spec_walkable(buf, s),
        forall|i: usize|
            #![trigger spec_raw(buf, s, i)]
            i < spec_count(buf, s) && spec_raw(buf, s, i) is Ok && spec_raw(buf, s, i)->Ok_0.type_tag
                == T::spec_type_code() ==> Record::<T>::spec_error(buf, spec_raw(buf, s, i)->Ok_0)
                == None::<Error>,
    ensures
        spec_yielded::<T>(buf, s, i) == spec_tagged(buf, s, T::spec_type_code(), i),
    decreases spec_count(buf, s) - i,
{
    if i < spec_count(buf, s) {
        let k = i as usize;
        lemma_indexed_access::<T>(buf, s, k);
        let raw = spec_raw(buf, s, k)->Ok_0;
        T::lemma_error_kinds(buf, raw);
        lemma_iteration_keeps_type_from::<T>(buf, s, i + 1);
    }
}

} // verus!
