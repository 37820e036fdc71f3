use vstd::prelude::*;
use crate::bytes::{lossy_text, text_lossy};
use crate::error::Error;

verus! {

/// The longest a domain name may be in its uncompressed wire form, length
/// octets and the root label included.
pub const MAX_NAME_WIRE_LEN: usize = 255;

/// The byte that separates labels in the presentation form of a name.
pub const DOT: u8 = 46;

/// The byte that starts an escape in the presentation form of a name.
pub const BACKSLASH: u8 = 92;

/// The digit zero.
pub const DIGIT_ZERO: u8 = 48;

/// How a label byte is presented: a zero byte as a backslash and the three
/// digits of its value, any other byte as it is.
pub open spec fn escape_byte(b: u8) -> Seq<u8> {
    if b == 0 {
        seq![BACKSLASH, DIGIT_ZERO, DIGIT_ZERO, DIGIT_ZERO]
    } else {
        seq![b]
    }
}

/// How a label is presented: each byte in turn, zero bytes escaped.
pub open spec fn escape(label: Seq<u8>) -> Seq<u8>
    decreases label.len(),
{
    if label.len() == 0 {
        seq![]
    } else {
        escape(label.drop_last()) + escape_byte(label.last())
    }
}

/// The bytes hold no zero byte.
pub open spec fn nul_free(b: Seq<u8>) -> bool {
    forall|i: int| 0 <= i < b.len() ==> b[i] != 0
}

/// The text holds no NUL character.
pub open spec fn no_nul_char(t: Seq<char>) -> bool {
    forall|i: int| 0 <= i < t.len() ==> t[i] != '\0'
}

/// Appends a label to the dotted form of the labels read so far.
pub open spec fn join_label(acc: Seq<u8>, label: Seq<u8>) -> Seq<u8> {
    if acc.len() == 0 {
        label
    } else {
        acc + seq![DOT] + label
    }
}

/// Reads the labels of a name from `pos` on.
///
/// `checked` counts the bytes read so far for this name; reading more bytes
/// than the message holds means that pointers form a loop. `acc` is the
/// dotted form of the labels read so far, `wire` their length in wire form,
/// and `end` the position just after the first pointer, once one was
/// followed. The result is the dotted name and the position where the name
/// ends in the bytes at its start.
pub open spec fn spec_unpack(
    buf: Seq<u8>,
    pos: int,
    checked: int,
    acc: Seq<u8>,
    wire: int,
    end: Option<int>,
) -> Result<(Seq<u8>, int), Error>
    decreases buf.len() - checked,
{
    if checked > buf.len() || pos < 0 || pos >= buf.len() {
        Err(Error::UncompressError)
    } else {
        let b = buf[pos] as int;
        if b == 0 {
            Ok(
                (
                    acc,
                    match end {
                        Some(e) => e,
                        None => pos + 1,
                    },
                ),
            )
        } else if b < 64 {
            if pos + 1 + b > buf.len() || checked + b + 1 > buf.len() {
                Err(Error::UncompressError)
            } else if wire + b + 2 > MAX_NAME_WIRE_LEN {
                Err(Error::Unterminated)
            } else {
                spec_unpack(
                    buf,
                    pos + 1 + b,
                    checked + b + 1,
                    join_label(acc, escape(buf.subrange(pos + 1, pos + 1 + b))),
                    wire + b + 1,
                    end,
                )
            }
        } else if b >= 192 {
            if pos + 2 > buf.len() || checked + 2 > buf.len() {
                Err(Error::UncompressError)
            } else {
                spec_unpack(
                    buf,
                    (b - 192) * 256 + buf[pos + 1] as int,
                    checked + 2,
                    acc,
                    wire,
                    match end {
                        Some(e) => Some(e),
                        None => Some(pos + 2),
                    },
                )
            }
        } else {
            Err(Error::UncompressError)
        }
    }
}

/// The name that starts at `pos` in the message: its labels joined by dots,
/// and the position just after its bytes at `pos` (after the root label, or
/// after the first pointer).
pub open spec fn spec_name_at(buf: Seq<u8>, pos: int) -> Result<(Seq<u8>, int), Error> {
    spec_unpack(buf, pos, 0, seq![], 0, None)
}

/// The bytes that present a dotted name: the root alone is written ".".
pub open spec fn presentation(dotted: Seq<u8>) -> Seq<u8> {
    if dotted.len() == 0 {
        seq![DOT]
    } else {
        dotted
    }
}

/// The text of a dotted name.
pub open spec fn name_text(dotted: Seq<u8>) -> Seq<char> {
    lossy_text(presentation(dotted))
}

/// Where a decoded name ends: at the position recorded with the first
/// pointer, or, with no pointer, after its start and within the message.
pub proof fn lemma_unpack_end(
    buf: Seq<u8>,
    pos: int,
    checked: int,
    acc: Seq<u8>,
    wire: int,
    end: Option<int>,
)
    ensures
        spec_unpack(buf, pos, checked, acc, wire, end) matches Ok((_, e)) ==> match end {
            Some(x) => e == x,
            None => pos < e <= buf.len(),
        },
    decreases buf.len() - checked,
{
    if checked > buf.len() || pos < 0 || pos >= buf.len() {
    } else {
        let b = buf[pos] as int;
        if b == 0 {
        } else if b < 64 {
            if pos + 1 + b > buf.len() || checked + b + 1 > buf.len() {
            } else if wire + b + 2 > MAX_NAME_WIRE_LEN {
            } else {
                lemma_unpack_end(
                    buf,
                    pos + 1 + b,
                    checked + b + 1,
                    join_label(acc, escape(buf.subrange(pos + 1, pos + 1 + b))),
                    wire + b + 1,
                    end,
                );
            }
        } else if b >= 192 {
            if pos + 2 > buf.len() || checked + 2 > buf.len() {
            } else {
                lemma_unpack_end(
                    buf,
                    (b - 192) * 256 + buf[pos + 1] as int,
                    checked + 2,
                    acc,
                    wire,
                    match end {
                        Some(e) => Some(e),
                        None => Some(pos + 2),
                    },
                );
            }
        }
    }
}

/// A name read at `pos` ends after `pos` and within the message.
pub proof fn lemma_name_end(buf: Seq<u8>, pos: int)
    ensures
        spec_name_at(buf, pos) matches Ok((_, e)) ==> pos < e <= buf.len(),
{
    lemma_unpack_end(buf, pos, 0, seq![], 0, None);
}

/// A pointer that points at itself is a loop: reading a name from it ends,
/// with an error.
pub proof fn lemma_self_pointer_fails(buf: Seq<u8>, pos: int)
    requires
        0 <= pos,
        pos + 1 < buf.len(),
        buf[pos] >= 192,
        (buf[pos] - 192) * 256 + buf[pos + 1] == pos,
    ensures
        spec_name_at(buf, pos) == Err::<(Seq<u8>, int), Error>(Error::UncompressError),
{
    lemma_pointer_loop(buf, pos, 0, seq![], 0, None);
}

proof fn lemma_pointer_loop(
    buf: Seq<u8>,
    pos: int,
    checked: int,
    acc: Seq<u8>,
    wire: int,
    end: Option<int>,
)
    requires
        0 <= pos,
        pos + 1 < buf.len(),
        buf[pos] >= 192,
        (buf[pos] - 192) * 256 + buf[pos + 1] == pos,
    ensures
        spec_unpack(buf, pos, checked, acc, wire, end) == Err::<(Seq<u8>, int), Error>(
            Error::UncompressError,
        ),
    decreases buf.len() - checked,
{
    if checked + 2 <= buf.len() {
        let next_end = match end {
            Some(e) => Some(e),
            None => Some(pos + 2),
        };
        lemma_pointer_loop(buf, pos, checked + 2, acc, wire, next_end);
    }
}

/// Reading a name fails only with a pointer error or a length error.
pub proof fn lemma_name_errors(buf: Seq<u8>, pos: int)
    ensures
        spec_name_at(buf, pos) matches Err(e) ==> e == Error::UncompressError || e
            == Error::Unterminated,
{
    lemma_unpack_errors(buf, pos, 0, seq![], 0, None);
}

proof fn lemma_unpack_errors(
    buf: Seq<u8>,
    pos: int,
    checked: int,
    acc: Seq<u8>,
    wire: int,
    end: Option<int>,
)
    ensures
        spec_unpack(buf, pos, checked, acc, wire, end) matches Err(e) ==> e == Error::UncompressError
            || e == Error::Unterminated,
    decreases buf.len() - checked,
{
    if checked > buf.len() || pos < 0 || pos >= buf.len() {
    } else {
        let b = buf[pos] as int;
        if b == 0 {
        } else if b < 64 {
            if pos + 1 + b > buf.len() || checked + b + 1 > buf.len() {
            } else if wire + b + 2 > MAX_NAME_WIRE_LEN {
            } else {
                lemma_unpack_errors(
                    buf,
                    pos + 1 + b,
                    checked + b + 1,
                    join_label(acc, escape(buf.subrange(pos + 1, pos + 1 + b))),
                    wire + b + 1,
                    end,
                );
            }
        } else if b >= 192 {
            if pos + 2 > buf.len() || checked + 2 > buf.len() {
            } else {
                lemma_unpack_errors(
                    buf,
                    (b - 192) * 256 + buf[pos + 1] as int,
                    checked + 2,
                    acc,
                    wire,
                    match end {
                        Some(e) => Some(e),
                        None => Some(pos + 2),
                    },
                );
            }
        }
    }
}

/// A presented label holds no zero byte.
proof fn lemma_escape_nul_free(label: Seq<u8>)
    ensures
        nul_free(escape(label)),
    decreases label.len(),
{
    if label.len() > 0 {
        lemma_escape_nul_free(label.drop_last());
        let e = escape(label);
        let head = escape(label.drop_last());
        assert forall|i: int| 0 <= i < e.len() implies e[i] != 0 by {
            if i >= head.len() {
                assert(e[i] == escape_byte(label.last())[i - head.len()]);
            } else {
                assert(e[i] == head[i]);
            }
        }
    }
}

proof fn lemma_unpack_nul_free(
    buf: Seq<u8>,
    pos: int,
    checked: int,
    acc: Seq<u8>,
    wire: int,
    end: Option<int>,
)
    requires
        nul_free(acc),
    ensures
        spec_unpack(buf, pos, checked, acc, wire, end) matches Ok((d, _)) ==> nul_free(d),
    decreases buf.len() - checked,
{
    if checked > buf.len() || pos < 0 || pos >= buf.len() {
    } else {
        let b = buf[pos] as int;
        if b == 0 {
        } else if b < 64 {
            if pos + 1 + b > buf.len() || checked + b + 1 > buf.len() {
            } else if wire + b + 2 > MAX_NAME_WIRE_LEN {
            } else {
                let label = escape(buf.subrange(pos + 1, pos + 1 + b));
                lemma_escape_nul_free(buf.subrange(pos + 1, pos + 1 + b));
                let next = join_label(acc, label);
                assert forall|i: int| 0 <= i < next.len() implies next[i] != 0 by {
                    if acc.len() > 0 {
                        if i < acc.len() {
                            assert(next[i] == acc[i]);
                        } else if i == acc.len() {
                            assert(next[i] == DOT);
                        } else {
                            assert(next[i] == label[i - acc.len() - 1]);
                        }
                    }
                }
                lemma_unpack_nul_free(buf, pos + 1 + b, checked + b + 1, next, wire + b + 1, end);
            }
        } else if b >= 192 {
            if pos + 2 > buf.len() || checked + 2 > buf.len() {
            } else {
                lemma_unpack_nul_free(
                    buf,
                    (b - 192) * 256 + buf[pos + 1] as int,
                    checked + 2,
                    acc,
                    wire,
                    match end {
                        Some(e) => Some(e),
                        None => Some(pos + 2),
                    },
                );
            }
        }
    }
}

/// The presentation of a decoded name holds no zero byte.
pub proof fn lemma_name_nul_free(buf: Seq<u8>, pos: int)
    ensures
        spec_name_at(buf, pos) matches Ok((d, _)) ==> nul_free(presentation(d)),
{
    lemma_unpack_nul_free(buf, pos, 0, seq![], 0, None);
}

/// An optional position, as an integer.
pub open spec fn opt_int(o: Option<usize>) -> Option<int> {
    match o {
        Some(e) => Some(e as int),
        None => None,
    }
}

/// Decodes the name that starts at `start`, following compression pointers;
/// returns its dotted bytes and the position just after its bytes at `start`.
pub fn unpack_name(buf: &[u8], start: usize) -> (r: Result<(Vec<u8>, usize), Error>)
    ensures
        match r {
            Ok((name, end)) => spec_name_at(buf@, start as int) == Ok::<(Seq<u8>, int), Error>(
                (name@, end as int),
            ),
            Err(e) => spec_name_at(buf@, start as int) == Err::<(Seq<u8>, int), Error>(e),
        },
{
    let len = buf.len();
    let mut pos: usize = start;
    let mut checked: usize = 0;
    let mut acc: Vec<u8> = Vec::new();
    let mut wire: usize = 0;
    let mut end: Option<usize> = None;
    loop
        invariant
            len == buf@.len(),
            checked <= len,
            wire <= MAX_NAME_WIRE_LEN,
            match end {
                Some(e) => e <= len,
                None => true,
            },
            spec_unpack(buf@, pos as int, checked as int, acc@, wire as int, opt_int(end))
                == spec_name_at(buf@, start as int),
        decreases len - checked,
    {
        if pos >= len {
            return Err(Error::UncompressError);
        }
        let b = buf[pos];
        if b == 0 {
            let e = match end {
                Some(e) => e,
                None => pos + 1,
            };
            return Ok((acc, e));
        } else if b < 64 {
            let n = b as usize;
            if n + 1 > len - pos || n + 1 > len - checked {
                return Err(Error::UncompressError);
            }
            if wire + n + 2 > MAX_NAME_WIRE_LEN {
                return Err(Error::Unterminated);
            }
            let ghost before = acc@;
            let ghost prefix = if before.len() == 0 {
                seq![]
            } else {
                before + seq![DOT]
            };
            if acc.len() > 0 {
                acc.push(DOT);
            }
            let mut i: usize = pos + 1;
            while i < pos + 1 + n
                invariant
                    len == buf@.len(),
                    pos + 1 <= i <= pos + 1 + n <= len,
                    acc@ == prefix + escape(buf@.subrange(pos + 1, i as int)),
                decreases pos + 1 + n - i,
            {
                let ghost done = buf@.subrange(pos + 1, i as int);
                let c = buf[i];
                if c == 0 {
                    acc.push(BACKSLASH);
                    acc.push(DIGIT_ZERO);
                    acc.push(DIGIT_ZERO);
                    acc.push(DIGIT_ZERO);
                } else {
                    acc.push(c);
                }
                i = i + 1;
                assert(buf@.subrange(pos + 1, i as int).drop_last() =~= done);
                assert(acc@ =~= prefix + escape(buf@.subrange(pos + 1, i as int)));
            }
            assert(acc@ =~= join_label(before, escape(buf@.subrange(pos + 1, pos + 1 + n))));
            pos = pos + 1 + n;
            checked = checked + n + 1;
            wire = wire + n + 1;
        } else if b >= 192 {
            if 2 > len - pos || 2 > len - checked {
                return Err(Error::UncompressError);
            }
            if end.is_none() {
                end = Some(pos + 2);
            }
            pos = (b - 192) as usize * 256 + buf[pos + 1] as usize;
            checked = checked + 2;
        } else {
            return Err(Error::UncompressError);
        }
    }
}

/// Decodes the name that starts at `offset` in the message, following
/// compression pointers, into its text; also returns how many bytes the name
/// takes at `offset` itself.
pub fn decompress_name(msg: &[u8], offset: usize) -> (r: Result<(String, usize), Error>)
    ensures
        match spec_name_at(msg@, offset as int) {
            Ok((dotted, end)) => r matches Ok((text, used)) && text@ == name_text(dotted)
                && no_nul_char(text@) && used == end - offset && 0 < used && offset + used
                <= msg@.len(),
            Err(e) => r == Err::<(String, usize), Error>(e),
        },
{
    match unpack_name(msg, offset) {
        Ok((dotted, end)) => {
            proof {
                lemma_name_end(msg@, offset as int);
                lemma_name_nul_free(msg@, offset as int);
            }
            Ok((name_to_text(&dotted), end - offset))
        },
        Err(e) => Err(e),
    }
}

/// Makes the text of a dotted name.
pub fn name_to_text(dotted: &Vec<u8>) -> (r: String)
    ensures
        r@ == name_text(dotted@),
        nul_free(presentation(dotted@)) ==> no_nul_char(r@),
{
    if dotted.len() == 0 {
        let root: Vec<u8> = vec![DOT];
        assert(root@ =~= presentation(dotted@));
        text_lossy(root.as_slice())
    } else {
        text_lossy(dotted.as_slice())
    }
}

} // verus!
