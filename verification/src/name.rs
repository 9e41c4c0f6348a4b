//! Fixed-length, nul-terminated name buffers as the native API fills them.

use vstd::prelude::*;

verus! {

/// The number of bytes of `buf` before its first zero byte; the whole length
/// where it holds none.
pub open spec fn name_len(buf: Seq<u8>) -> int
    decreases buf.len(),
{
    if buf.len() == 0 || buf[0] == 0 {
        0
    } else {
        1 + name_len(buf.drop_first())
    }
}

/// `n` is where the name in `buf` ends: no zero byte before `n`, and a zero
/// byte at `n` unless the buffer ends there.
pub open spec fn ends_at(buf: Seq<u8>, n: int) -> bool {
    &&& 0 <= n <= buf.len()
    &&& forall|i: int| 0 <= i < n ==> buf[i] != 0
    &&& n < buf.len() ==> buf[n] == 0
}

/// The name held in `buf`: the bytes before the terminator.
pub open spec fn decoded(buf: Seq<u8>) -> Seq<u8> {
    buf.take(name_len(buf))
}

/// `name` followed by zero bytes up to `len` bytes in all.
pub open spec fn padded(name: Seq<u8>, len: nat) -> Seq<u8> {
    Seq::new(len, |i: int| if i < name.len() { name[i] } else { 0u8 })
}

/// No byte of `name` is zero.
pub open spec fn nul_free(name: Seq<u8>) -> bool {
    forall|i: int| 0 <= i < name.len() ==> name[i] != 0
}

/// Every byte of `buf` behind its first zero byte is zero as well.
pub open spec fn zero_tail(buf: Seq<u8>) -> bool {
    forall|i: int| name_len(buf) <= i < buf.len() ==> buf[i] == 0
}

/// `name_len` is the one place where the name ends.
pub proof fn lemma_name_len(buf: Seq<u8>)
    ensures
        ends_at(buf, name_len(buf)),
        forall|n: int| ends_at(buf, n) ==> n == name_len(buf),
    decreases buf.len(),
{
    if buf.len() == 0 || buf[0] == 0 {
        assert forall|n: int| ends_at(buf, n) implies n == 0 by {
            if n > 0 {
                assert(buf[0] != 0);
            }
        }
    } else {
        let rest = buf.drop_first();
        lemma_name_len(rest);
        let m = name_len(rest);
        assert forall|i: int| 0 <= i < m + 1 implies buf[i] != 0 by {
            if i > 0 {
                assert(rest[i - 1] == buf[i]);
            }
        }
        if m + 1 < buf.len() {
            assert(rest[m] == buf[m + 1]);
        }
        assert forall|n: int| ends_at(buf, n) implies n == m + 1 by {
            assert(n > 0);
            assert forall|i: int| 0 <= i < n - 1 implies rest[i] != 0 by {
                assert(rest[i] == buf[i + 1]);
            }
            if n - 1 < rest.len() {
                assert(rest[n - 1] == buf[n]);
            }
            assert(ends_at(rest, n - 1));
        }
    }
}

/// Decoding what was encoded gives the name back, for every name without a
/// zero byte that is shorter than the buffer.
pub proof fn lemma_decode_padded(name: Seq<u8>, len: nat)
    requires
        nul_free(name),
        name.len() < len,
    ensures
        decoded(padded(name, len)) == name,
{
    let buf = padded(name, len);
    lemma_name_len(buf);
    assert(ends_at(buf, name.len() as int));
    assert(buf.take(name.len() as int) =~= name);
}

/// Encoding what was decoded, to the buffer's own length, gives the buffer
/// back bit for bit, for every buffer that holds a terminator and nothing but
/// zero bytes behind it.
pub proof fn lemma_pad_decoded(buf: Seq<u8>)
    requires
        name_len(buf) < buf.len(),
        zero_tail(buf),
    ensures
        padded(decoded(buf), buf.len()) == buf,
{
    lemma_name_len(buf);
    assert(padded(decoded(buf), buf.len()) =~= buf);
}

/// The bytes of `buf` before its terminator.
pub fn decode_name(buf: &[u8]) -> (name: Vec<u8>)
    ensures
        name@ == decoded(buf@),
        nul_free(name@),
{
    let mut name: Vec<u8> = Vec::new();
    let mut i: usize = 0;
    while i < buf.len() && buf[i] != 0
        invariant
            i <= buf.len(),
            name@ == buf@.take(i as int),
            forall|j: int| 0 <= j < i ==> buf@[j] != 0,
        decreases buf.len() - i,
    {
        name.push(buf[i]);
        i = i + 1;
        assert(name@ =~= buf@.take(i as int));
    }
    proof {
        lemma_name_len(buf@);
        assert(ends_at(buf@, i as int));
    }
    name
}

/// `name` in a buffer of `len` bytes, padded with zero bytes. There is none
/// where `name` holds a zero byte or leaves no room for the terminator.
pub fn encode_name(name: &[u8], len: usize) -> (buf: Option<Vec<u8>>)
    ensures
        buf is Some <==> nul_free(name@) && name@.len() < len,
        buf matches Some(b) ==> b@ == padded(name@, len as nat),
{
    if name.len() >= len {
        return None;
    }
    let mut out: Vec<u8> = Vec::new();
    let mut i: usize = 0;
    while i < name.len()
        invariant
            i <= name.len(),
            out@ == name@.take(i as int),
            forall|j: int| 0 <= j < i ==> name@[j] != 0,
        decreases name.len() - i,
    {
        if name[i] == 0 {
            return None;
        }
        out.push(name[i]);
        i = i + 1;
        assert(out@ =~= name@.take(i as int));
    }
    assert(name@.take(i as int) =~= name@);
    while i < len
        invariant
            name@.len() <= i <= len,
            out@.len() == i,
            forall|j: int| 0 <= j < name@.len() ==> out@[j] == name@[j],
            forall|j: int| name@.len() <= j < i ==> out@[j] == 0,
        decreases len - i,
    {
        out.push(0u8);
        i = i + 1;
    }
    assert(out@ =~= padded(name@, len as nat));
    Some(out)
}

/// What `String::from_utf8_lossy` makes of `bytes`.
pub uninterp spec fn lossy_text(bytes: Seq<u8>) -> Seq<char>;

/// Calls `String::from_utf8_lossy` and takes the text as a `String`. The text
/// depends on the bytes alone; for well-formed UTF-8 it is the text that the
/// bytes encode.
#[verifier::external_body]
fn text_of_bytes(bytes: &[u8]) -> (text: String)
    ensures
        text@ == lossy_text(bytes@),
        vstd::utf8::valid_utf8(bytes@) ==> text@ == vstd::utf8::decode_utf8(bytes@),
{
    String::from_utf8_lossy(bytes).into_owned()
}

/// The text of the name held in `buf`.
pub open spec fn name_text(buf: Seq<u8>) -> Seq<char> {
    lossy_text(decoded(buf))
}

/// Reads the name held in a fixed-length buffer as text: only the bytes before
/// the terminator count.
pub fn read_name(buf: &[u8]) -> (text: String)
    ensures
        text@ == name_text(buf@),
        vstd::utf8::valid_utf8(decoded(buf@)) ==> text@ == vstd::utf8::decode_utf8(decoded(buf@)),
{
    let name = decode_name(buf);
    text_of_bytes(name.as_slice())
}

} // verus!
