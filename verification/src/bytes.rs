//! Byte-level utilities for HTTP framing: finding the header terminator,
//! scanning for bytes, and decoding the chunked transfer coding.
use vstd::prelude::*;

verus! {

/// Carriage return.
pub const CR: u8 = 13;

/// Line feed.
pub const LF: u8 = 10;

/// The four-byte header terminator `\r\n\r\n`.
pub open spec fn crlf2() -> Seq<u8> {
    seq![13u8, 10u8, 13u8, 10u8]
}

/// The position of the first header terminator in `raw`, if any.
pub open spec fn spec_header_end(raw: Seq<u8>) -> Option<int>
    decreases raw.len(),
{
    if raw.len() < 4 {
        None
    } else if raw.subrange(0, 4) == crlf2() {
        Some(0)
    } else {
        match spec_header_end(raw.drop_first()) {
            None => None,
            Some(i) => Some(i + 1),
        }
    }
}

proof fn lemma_header_end_at(raw: Seq<u8>, i: int)
    requires
        0 <= i <= raw.len(),
        forall|j: int| 0 <= j < i && j + 4 <= raw.len() ==> #[trigger] raw.subrange(j, j + 4)
            != crlf2(),
        i + 4 <= raw.len() ==> raw.subrange(i, i + 4) == crlf2(),
    ensures
        i + 4 > raw.len() ==> spec_header_end(raw) is None,
        i + 4 <= raw.len() ==> spec_header_end(raw) == Some(i),
    decreases i + 1,
{
    if raw.len() < 4 {
    } else if i == 0 {
    } else {
        assert(raw.subrange(0int, 0int + 4) != crlf2());
        assert(raw.subrange(0, 4) == raw.subrange(0int, 0int + 4));
        let d = raw.drop_first();
        assert forall|j: int| 0 <= j < i - 1 && j + 4 <= d.len() implies #[trigger] d.subrange(
            j,
            j + 4,
        ) != crlf2() by {
            assert(raw.subrange(j + 1, (j + 1) + 4) != crlf2());
            assert(d.subrange(j, j + 4) =~= raw.subrange(j + 1, (j + 1) + 4));
        }
        if i + 4 <= raw.len() {
            assert(d.subrange(i - 1, (i - 1) + 4) =~= raw.subrange(i, i + 4));
        }
        lemma_header_end_at(d, i - 1);
    }
}

/// The index of the first `\r\n\r\n` in the buffer, marking the end of the
/// header block.
pub fn find_header_end(buffer: &[u8]) -> (r: Option<usize>)
    ensures
        r matches Some(i) ==> spec_header_end(buffer@) == Some(i as int) && i + 4 <= buffer@.len(),
        r is None ==> spec_header_end(buffer@) is None,
{
    let len = buffer.len();
    let mut i: usize = 0;
    if len < 4 {
        proof {
            lemma_header_end_at(buffer@, 0);
        }
        return None;
    }
    while i <= len - 4
        invariant
            4 <= len,
            0 <= i <= len - 3,
            len == buffer@.len(),
            forall|j: int|
                0 <= j < i && j + 4 <= buffer@.len() ==> #[trigger] buffer@.subrange(j, j + 4)
                    != crlf2(),
        decreases len - i,
    {
        if buffer[i] == 13 && buffer[i + 1] == 10 && buffer[i + 2] == 13 && buffer[i + 3] == 10 {
            proof {
                assert(buffer@.subrange(i as int, i as int + 4) =~= crlf2());
                lemma_header_end_at(buffer@, i as int);
            }
            return Some(i);
        }
        proof {
            assert(buffer@.subrange(i as int, i as int + 4) != crlf2());
        }
        i += 1;
    }
    proof {
        lemma_header_end_at(buffer@, i as int);
    }
    None
}

/// The position of the first occurrence of `b` in `data`, if any.
pub open spec fn spec_find(data: Seq<u8>, b: u8) -> Option<int>
    decreases data.len(),
{
    if data.len() == 0 {
        None
    } else if data[0] == b {
        Some(0)
    } else {
        match spec_find(data.drop_first(), b) {
            None => None,
            Some(i) => Some(i + 1),
        }
    }
}

proof fn lemma_spec_find_at(data: Seq<u8>, b: u8, i: int)
    requires
        0 <= i <= data.len(),
        forall|j: int| 0 <= j < i ==> data[j] != b,
        i < data.len() ==> data[i] == b,
    ensures
        i == data.len() ==> spec_find(data, b) is None,
        i < data.len() ==> spec_find(data, b) == Some(i),
    decreases i + 1,
{
    if data.len() == 0 {
    } else if i == 0 {
    } else {
        lemma_spec_find_at(data.drop_first(), b, i - 1);
    }
}

/// Finds the first occurrence of `b` in `data` at or after `from`.
pub fn find_byte(data: &[u8], b: u8, from: usize) -> (r: Option<usize>)
    requires
        from <= data@.len(),
    ensures
        r matches Some(i) ==> from <= i < data@.len() && data@[i as int] == b && forall|j: int|
            from <= j < i ==> data@[j] != b,
        r is None ==> forall|j: int| from <= j < data@.len() ==> data@[j] != b,
{
    let len = data.len();
    let mut i = from;
    while i < len
        invariant
            from <= i <= len,
            len == data@.len(),
            forall|j: int| from <= j < i ==> data@[j] != b,
        decreases len - i,
    {
        if data[i] == b {
            return Some(i);
        }
        i += 1;
    }
    None
}

/// True for the blank bytes that chunk-size line trimming drops.
pub open spec fn is_space_byte(b: u8) -> bool {
    b == 32 || b == 9 || b == 13 || b == 10
}

/// The byte sequence with leading and trailing blanks removed.
pub open spec fn trim_bytes(s: Seq<u8>) -> Seq<u8>
    decreases s.len(),
{
    if s.len() == 0 {
        s
    } else if is_space_byte(s[0]) {
        trim_bytes(s.drop_first())
    } else if is_space_byte(s.last()) {
        trim_bytes(s.drop_last())
    } else {
        s
    }
}

/// The bytes before the first occurrence of `b`, or all of `s`.
pub open spec fn take_until(s: Seq<u8>, b: u8) -> Seq<u8> {
    match spec_find(s, b) {
        None => s,
        Some(i) => s.take(i),
    }
}

/// True for ASCII hexadecimal digit bytes.
pub open spec fn is_hex_byte(b: u8) -> bool {
    (48 <= b <= 57) || (97 <= b <= 102) || (65 <= b <= 70)
}

/// The value of one hexadecimal digit byte.
pub open spec fn hex_val(b: u8) -> nat {
    if 48 <= b <= 57 {
        (b - 48) as nat
    } else if 97 <= b <= 102 {
        (b - 87) as nat
    } else {
        (b - 55) as nat
    }
}

/// The value of a hexadecimal digit string read in base sixteen.
pub open spec fn hex_value(s: Seq<u8>) -> nat
    decreases s.len(),
{
    if s.len() == 0 {
        0
    } else {
        hex_value(s.drop_last()) * 16 + hex_val(s.last())
    }
}

/// True when the bytes are one or more hexadecimal digits.
pub open spec fn all_hex(s: Seq<u8>) -> bool {
    forall|i: int| 0 <= i < s.len() ==> is_hex_byte(#[trigger] s[i])
}

/// The chunk size announced by a chunk-size line (terminator included):
/// the trimmed text before any `;` extension, read as hexadecimal.  `None`
/// when that text is not a hexadecimal number or does not fit `usize`.
pub open spec fn chunk_size_of(line: Seq<u8>) -> Option<nat> {
    let t = take_until(trim_bytes(line), 59u8);
    if t.len() > 0 && all_hex(t) && hex_value(t) <= usize::MAX {
        Some(hex_value(t))
    } else {
        None
    }
}

/// The decoded body of a chunked transfer coding, stopping at the final
/// zero-length chunk; a malformed or truncated chunk ends the decode with
/// what was gathered.
pub open spec fn decode_chunked(data: Seq<u8>) -> Seq<u8>
    decreases data.len(),
{
    match spec_find(data, 10u8) {
        None => Seq::<u8>::empty(),
        Some(nl) => if nl < 0 || nl >= data.len() {
            Seq::<u8>::empty()
        } else {
            let line = data.take(nl + 1);
            let rest = data.skip(nl + 1);
            match chunk_size_of(line) {
                None => Seq::<u8>::empty(),
                Some(sz) => {
                    if sz == 0 || sz > rest.len() {
                        Seq::<u8>::empty()
                    } else {
                        let tail = rest.skip(sz as int);
                        let tail2 = if tail.len() >= 2 && tail[0] == 13 && tail[1] == 10 {
                            tail.skip(2)
                        } else {
                            tail
                        };
                        rest.take(sz as int) + decode_chunked(tail2)
                    }
                },
            }
        },
    }
}

proof fn lemma_hex_value_grows(s: Seq<u8>, i: int)
    requires
        0 <= i <= s.len(),
    ensures
        hex_value(s.take(i)) <= hex_value(s),
    decreases s.len() - i,
{
    if i < s.len() {
        assert(s.take(i + 1).drop_last() =~= s.take(i));
        lemma_hex_value_grows(s, i + 1);
    } else {
        assert(s.take(i) =~= s);
    }
}

/// Reads a hexadecimal number.  Returns the value exactly when the whole
/// byte string is one or more hexadecimal digits whose value fits `usize`.
pub fn parse_hex(s: &[u8]) -> (r: Option<usize>)
    ensures
        r matches Some(n) ==> all_hex(s@) && s@.len() > 0 && n == hex_value(s@),
        r is None ==> s@.len() == 0 || !all_hex(s@) || hex_value(s@) > usize::MAX,
{
    let len = s.len();
    if len == 0 {
        return None;
    }
    let mut acc: usize = 0;
    let mut i: usize = 0;
    while i < len
        invariant
            0 <= i <= len,
            len == s@.len(),
            all_hex(s@.take(i as int)),
            acc == hex_value(s@.take(i as int)),
        decreases len - i,
    {
        let b = s[i];
        let d: usize = if b >= 48 && b <= 57 {
            (b - 48) as usize
        } else if b >= 97 && b <= 102 {
            (b - 87) as usize
        } else if b >= 65 && b <= 70 {
            (b - 55) as usize
        } else {
            assert(!is_hex_byte(s@[i as int]));
            return None;
        };
        if acc > (usize::MAX - d) / 16 {
            proof {
                assert(s@.take(i as int + 1).drop_last() =~= s@.take(i as int));
                assert(hex_value(s@.take(i as int + 1)) > usize::MAX);
                lemma_hex_value_grows(s@, i as int + 1);
            }
            return None;
        }
        acc = acc * 16 + d;
        assert(s@.take(i as int + 1).drop_last() =~= s@.take(i as int));
        i += 1;
    }
    assert(s@.take(len as int) =~= s@);
    Some(acc)
}

/// Copies `data[from..to]` into a fresh vector.
pub fn copy_range(data: &[u8], from: usize, to: usize) -> (r: Vec<u8>)
    requires
        from <= to <= data@.len(),
    ensures
        r@ == data@.subrange(from as int, to as int),
{
    let mut out: Vec<u8> = Vec::new();
    let mut i = from;
    while i < to
        invariant
            from <= i <= to <= data@.len(),
            out@ == data@.subrange(from as int, i as int),
        decreases to - i,
    {
        out.push(data[i]);
        proof {
            assert(data@.subrange(from as int, i + 1) =~= data@.subrange(from as int, i as int)
                .push(data@[i as int]));
        }
        i += 1;
    }
    out
}

/// The trimmed chunk-size text of a line: the text before any `;`, blanks
/// dropped at both ends.
fn chunk_size_text(line: &[u8]) -> (r: Vec<u8>)
    ensures
        r@ == take_until(trim_bytes(line@), 59u8),
{
    let len = line.len();
    proof {
        assert(line@.subrange(0, len as int) =~= line@);
    }
    let mut lo: usize = 0;
    while lo < len && (line[lo] == 32 || line[lo] == 9 || line[lo] == 13 || line[lo] == 10)
        invariant
            0 <= lo <= len,
            len == line@.len(),
            trim_bytes(line@) == trim_bytes(line@.subrange(lo as int, len as int)),
        decreases len - lo,
    {
        proof {
            assert(line@.subrange(lo as int, len as int).drop_first() =~= line@.subrange(
                lo as int + 1,
                len as int,
            ));
        }
        lo += 1;
    }
    let mut hi: usize = len;
    while hi > lo && (line[hi - 1] == 32 || line[hi - 1] == 9 || line[hi - 1] == 13 || line[hi - 1]
        == 10)
        invariant
            lo <= hi <= len,
            len == line@.len(),
            hi > lo ==> !is_space_byte(line@[lo as int]),
            hi == len || !is_space_byte(line@[lo as int]),
            trim_bytes(line@) == trim_bytes(line@.subrange(lo as int, hi as int)),
        decreases hi,
    {
        proof {
            assert(line@.subrange(lo as int, hi as int).drop_last() =~= line@.subrange(
                lo as int,
                hi as int - 1,
            ));
        }
        hi -= 1;
    }
    proof {
        let sub = line@.subrange(lo as int, hi as int);
        if sub.len() > 0 {
            assert(!is_space_byte(sub[0]));
            assert(!is_space_byte(sub.last()));
        }
        assert(trim_bytes(sub) == sub);
    }
    let ghost t = trim_bytes(line@);
    proof {
        assert(t.take(0) =~= Seq::<u8>::empty());
    }
    let mut j = lo;
    let mut out: Vec<u8> = Vec::new();
    while j < hi && line[j] != 59
        invariant
            lo <= j <= hi <= len,
            len == line@.len(),
            t == line@.subrange(lo as int, hi as int),
            out@ == t.take(j - lo),
            forall|k: int| 0 <= k < j - lo ==> t[k] != 59u8,
        decreases hi - j,
    {
        out.push(line[j]);
        proof {
            assert(t.take(j - lo + 1) =~= t.take(j - lo).push(t[j - lo]));
        }
        j += 1;
    }
    proof {
        if j < hi {
            assert(t[j - lo] == 59u8);
            lemma_spec_find_at(t, 59u8, j - lo);
        } else {
            lemma_spec_find_at(t, 59u8, t.len() as int);
            assert(t.take(t.len() as int) =~= t);
        }
    }
    out
}

/// Decodes a chunked HTTP body: length-prefixed chunks up to the final
/// zero-length chunk; trailers are ignored, and a malformed or truncated
/// chunk ends the decode with what was gathered so far.
#[verifier::rlimit(60)]
pub fn decode_chunked_body(data: &[u8]) -> (r: Vec<u8>)
    ensures
        r@ == decode_chunked(data@),
{
    let mut result: Vec<u8> = Vec::new();
    let mut pos: usize = 0;
    let len = data.len();
    proof {
        assert(data@.skip(0) =~= data@);
    }
    loop
        invariant
            0 <= pos <= len,
            len == data@.len(),
            decode_chunked(data@) == result@ + decode_chunked(data@.skip(pos as int)),
        decreases len - pos,
    {
        let ghost rem = data@.skip(pos as int);
        let nl = match find_byte(data, 10, pos) {
            Some(n) => n,
            None => {
                proof {
                    lemma_spec_find_at(rem, 10u8, rem.len() as int);
                    assert(result@ + decode_chunked(rem) =~= result@);
                }
                return result;
            },
        };
        proof {
            lemma_spec_find_at(rem, 10u8, nl - pos);
        }
        let line = copy_range(data, pos, nl + 1);
        proof {
            assert(rem.take(nl - pos + 1) =~= data@.subrange(pos as int, nl + 1));
        }
        let text = chunk_size_text(line.as_slice());
        let size = match parse_hex(text.as_slice()) {
            Some(s) => s,
            None => {
                proof {
                    assert(chunk_size_of(rem.take(nl - pos + 1)) is None);
                    assert(result@ + decode_chunked(rem) =~= result@);
                }
                return result;
            },
        };
        if size == 0 {
            proof {
                assert(result@ + decode_chunked(rem) =~= result@);
            }
            return result;
        }
        let after = nl + 1;
        if size > len - after {
            proof {
                assert(rem.skip(nl - pos + 1) =~= data@.skip(after as int));
                assert(result@ + decode_chunked(rem) =~= result@);
            }
            return result;
        }
        let chunk = copy_range(data, after, after + size);
        let ghost old_result = result@;
        let mut chunk_m = chunk;
        result.append(&mut chunk_m);
        let mut newpos = after + size;
        proof {
            assert(rem.skip(nl - pos + 1) =~= data@.skip(after as int));
            assert(data@.skip(after as int).take(size as int) =~= data@.subrange(
                after as int,
                after + size,
            ));
        }
        let ghost tail = data@.skip(after as int).skip(size as int);
        proof {
            assert(tail =~= data@.skip(newpos as int));
        }
        if len - newpos >= 2 && data[newpos] == 13 && data[newpos + 1] == 10 {
            proof {
                assert(tail.skip(2) =~= data@.skip(newpos as int + 2));
            }
            newpos += 2;
        } else {
            proof {
                assert(!(tail.len() >= 2 && tail[0] == 13 && tail[1] == 10));
            }
        }
        proof {
            assert(decode_chunked(data@) == result@ + decode_chunked(data@.skip(newpos as int)));
        }
        pos = newpos;
    }
}

} // verus!
