//! The per-file metadata a host supplies when it asks for a generator.

use vstd::prelude::*;

verus! {

/// The text that `String::from_utf8_lossy` makes of a byte sequence.
pub uninterp spec fn lossy_utf8(b: Seq<u8>) -> Seq<char>;

/// Every byte is below 0x80.
pub open spec fn bytes_are_ascii(b: Seq<u8>) -> bool {
    forall|i: int| 0 <= i < b.len() ==> b[i] < 0x80
}

/// `t` holds the characters whose code points are the bytes of `b`.
pub open spec fn same_ascii_text(t: Seq<char>, b: Seq<u8>) -> bool {
    t.len() == b.len() && forall|i: int| 0 <= i < b.len() ==> t[i] as u32 == b[i] as u32
}

/// Relies on `String::from_utf8_lossy`: a function of the bytes alone, which hands
/// valid UTF-8 (ASCII in particular) back unchanged.
#[verifier::external_body]
pub(crate) fn decode_lossy(b: &[u8]) -> (r: String)
    ensures
        r@ == lossy_utf8(b@),
        bytes_are_ascii(b@) ==> same_ascii_text(r@, b@),
{
    String::from_utf8_lossy(b).into_owned()
}

/// Index of the first zero byte at or after `i`, or the length where there is none.
pub open spec fn terminator_from(b: Seq<u8>, i: int) -> int
    decreases b.len() - i,
{
    if i < 0 || i >= b.len() || b[i] == 0 {
        if i < 0 { 0 } else if i >= b.len() { b.len() as int } else { i }
    } else {
        terminator_from(b, i + 1)
    }
}

/// The C string a buffer holds: its bytes up to the first zero byte.
pub open spec fn c_str(b: Seq<u8>) -> Seq<u8> {
    b.subrange(0, terminator_from(b, 0))
}

proof fn lemma_terminator_bounds(b: Seq<u8>, i: int)
    requires
        0 <= i <= b.len(),
    ensures
        i <= terminator_from(b, i) <= b.len(),
    decreases b.len() - i,
{
    if i < b.len() && b[i] != 0 {
        lemma_terminator_bounds(b, i + 1);
    }
}

/// The bytes of `buf` before its first zero byte.
pub(crate) fn c_str_bytes(buf: &Vec<u8>) -> (r: Vec<u8>)
    ensures
        r@ == c_str(buf@),
{
    let mut out: Vec<u8> = Vec::new();
    let mut i: usize = 0;
    while i < buf.len() && buf[i] != 0
        invariant
            0 <= i <= buf@.len(),
            terminator_from(buf@, i as int) == terminator_from(buf@, 0),
            out@ == buf@.subrange(0, i as int),
            forall|j: int| 0 <= j < i ==> buf@[j] != 0,
        decreases buf.len() - i,
    {
        out.push(buf[i]);
        i = i + 1;
        assert(out@ =~= buf@.subrange(0, i as int));
    }
    proof {
        lemma_terminator_bounds(buf@, 0);
    }
    out
}

/// File name and requested checksum function name of one file, as the raw bytes of
/// two C strings: each ends at its first zero byte, or at the end of the buffer.
pub struct FileChecksumContext {
    file_name: Vec<u8>,
    checksum_func_name: Vec<u8>,
}

impl View for FileChecksumContext {
    type V = (Seq<u8>, Seq<u8>);

    /// The two C strings: the file name, then the requested function name.
    closed spec fn view(&self) -> (Seq<u8>, Seq<u8>) {
        (c_str(self.file_name@), c_str(self.checksum_func_name@))
    }
}

impl FileChecksumContext {
    /// A context over the two buffers.
    pub fn new(file_name: Vec<u8>, checksum_func_name: Vec<u8>) -> (r: FileChecksumContext)
        ensures
            r@ == (c_str(file_name@), c_str(checksum_func_name@)),
    {
        FileChecksumContext { file_name, checksum_func_name }
    }

    /// The file name's bytes.
    pub fn file_name_bytes(&self) -> (r: Vec<u8>)
        ensures
            r@ == self@.0,
    {
        c_str_bytes(&self.file_name)
    }

    /// The requested function name's bytes; empty where the host has no preference.
    pub fn checksum_func_name_bytes(&self) -> (r: Vec<u8>)
        ensures
            r@ == self@.1,
    {
        c_str_bytes(&self.checksum_func_name)
    }

    /// The file name as text, invalid UTF-8 replaced.
    pub fn file_name(&self) -> (r: String)
        ensures
            r@ == lossy_utf8(self@.0),
            bytes_are_ascii(self@.0) ==> same_ascii_text(r@, self@.0),
    {
        let b = self.file_name_bytes();
        decode_lossy(b.as_slice())
    }

    /// The requested checksum function name as text, invalid UTF-8 replaced.
    pub fn checksum_func_name(&self) -> (r: String)
        ensures
            r@ == lossy_utf8(self@.1),
            bytes_are_ascii(self@.1) ==> same_ascii_text(r@, self@.1),
    {
        let b = self.checksum_func_name_bytes();
        decode_lossy(b.as_slice())
    }
}

} // verus!
