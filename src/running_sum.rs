//! A simple checksum algorithm, the sum of the bytes modulo 2^64 in decimal, and a
//! factory that builds it for the files that ask for it by name.

use vstd::prelude::*;
use crate::context::{decode_lossy, lossy_utf8, FileChecksumContext};
use crate::factory::FileChecksumGenFactory;
use crate::generator::FileChecksumGenerator;

verus! {

/// The sum of the bytes.
pub open spec fn byte_sum(b: Seq<u8>) -> nat
    decreases b.len(),
{
    if b.len() == 0 {
        0
    } else {
        byte_sum(b.drop_last()) + b.last() as nat
    }
}

/// The ASCII digit for `d`, below ten.
pub open spec fn digit_char(d: nat) -> char {
    seq!['0', '1', '2', '3', '4', '5', '6', '7', '8', '9'][d as int]
}

/// The decimal digits of `n`, with no leading zero.
pub open spec fn decimal(n: nat) -> Seq<char>
    decreases n,
{
    if n < 10 {
        seq![digit_char(n)]
    } else {
        decimal(n / 10).push(digit_char(n % 10))
    }
}

/// Relies on `u64`'s `Display` through `to_string`: the decimal digits, no sign, no
/// leading zero.
#[verifier::external_body]
fn decimal_text(n: u64) -> (r: String)
    ensures
        r@ == decimal(n as nat),
{
    n.to_string()
}

/// The digest of a stream: the sum of its bytes modulo 2^64, in decimal.
pub open spec fn running_sum_digest(b: Seq<u8>) -> Seq<char> {
    decimal(byte_sum(b) % 0x1_0000_0000_0000_0000)
}

/// Sums the bytes of a file.
pub struct RunningSumGenerator {
    sum: u64,
    finalized: bool,
    stream: Ghost<Seq<u8>>,
}

impl RunningSumGenerator {
    #[verifier::type_invariant]
    closed spec fn inv(&self) -> bool {
        self.sum as nat == byte_sum(self.stream@) % 0x1_0000_0000_0000_0000
    }

    /// A generator that has taken no bytes.
    pub fn new() -> (r: RunningSumGenerator)
        ensures
            r.consumed() == Seq::<u8>::empty(),
            !r.is_finalized(),
    {
        RunningSumGenerator { sum: 0, finalized: false, stream: Ghost(Seq::empty()) }
    }
}

impl FileChecksumGenerator for RunningSumGenerator {
    closed spec fn consumed(&self) -> Seq<u8> {
        self.stream@
    }

    closed spec fn is_finalized(&self) -> bool {
        self.finalized
    }

    open spec fn digest_of(bytes: Seq<u8>) -> Seq<char> {
        running_sum_digest(bytes)
    }

    fn update(&mut self, data: &[u8]) {
        let ghost start = self.stream@;
        let mut i: usize = 0;
        while i < data.len()
            invariant
                0 <= i <= data@.len(),
                self.stream@ == start + data@.subrange(0, i as int),
                !self.finalized,
            decreases data.len() - i,
        {
            proof {
                use_type_invariant(&*self);
            }
            let b = data[i];
            let ghost prev = self.stream@;
            let ghost old_sum = self.sum;
            let next = self.sum.wrapping_add(b as u64);
            proof {
                let m: int = 0x1_0000_0000_0000_0000;
                let s2 = prev.push(b);
                assert(s2.drop_last() =~= prev);
                assert(byte_sum(s2) == byte_sum(prev) + b);
                vstd::arithmetic::div_mod::lemma_add_mod_noop(byte_sum(prev) as int, b as int, m);
                vstd::arithmetic::div_mod::lemma_small_mod(b as nat, m as nat);
                assert(next as int == (old_sum as int + b as int) % m);
                assert(start + data@.subrange(0, i + 1) =~= s2);
            }
            *self = RunningSumGenerator { sum: next, finalized: false, stream: Ghost(prev.push(b)) };
            i = i + 1;
        }
        assert(data@.subrange(0, data@.len() as int) =~= data@);
    }

    fn finalize(&mut self) {
        proof {
            use_type_invariant(&*self);
        }
        self.finalized = true;
    }

    fn get_checksum(&self) -> (r: String) {
        proof {
            use_type_invariant(self);
        }
        if self.finalized {
            decimal_text(self.sum)
        } else {
            String::new()
        }
    }
}

/// Whether two byte slices hold the same bytes.
fn same_bytes(a: &[u8], b: &[u8]) -> (r: bool)
    ensures
        r == (a@ == b@),
{
    if a.len() != b.len() {
        return false;
    }
    let mut i: usize = 0;
    while i < a.len()
        invariant
            a@.len() == b@.len(),
            0 <= i <= a@.len(),
            forall|j: int| 0 <= j < i ==> a@[j] == b@[j],
        decreases a.len() - i,
    {
        if a[i] != b[i] {
            return false;
        }
        i = i + 1;
    }
    assert(a@ =~= b@);
    true
}

/// Builds a running-sum generator, under its function name, for each file that asks
/// for no function in particular or for that one by name, and declines the others.
pub struct RunningSumFactory {
    func_name: Vec<u8>,
}

impl RunningSumFactory {
    /// The function name's bytes.
    pub closed spec fn func_name(&self) -> Seq<u8> {
        self.func_name@
    }

    /// A factory whose generators go by `func_name`.
    pub fn new(func_name: Vec<u8>) -> (r: RunningSumFactory)
        ensures
            r.func_name() == func_name@,
    {
        RunningSumFactory { func_name }
    }
}

impl FileChecksumGenFactory for RunningSumFactory {
    type ChecksumGen = RunningSumGenerator;

    open spec fn chosen_name(&self, context: (Seq<u8>, Seq<u8>)) -> Option<Seq<char>> {
        if context.1.len() == 0 || context.1 == self.func_name() {
            Some(lossy_utf8(self.func_name()))
        } else {
            None
        }
    }

    fn create_file_checksum_generator(&self, context: &FileChecksumContext) -> (r: Option<
        (String, RunningSumGenerator),
    >) {
        let requested = context.checksum_func_name_bytes();
        if requested.len() == 0 || same_bytes(requested.as_slice(), self.func_name.as_slice()) {
            let name = decode_lossy(self.func_name.as_slice());
            Some((name, RunningSumGenerator::new()))
        } else {
            None
        }
    }
}

} // verus!
