//! The per-file checksum algorithm and the handle that owns one instance of it.

use vstd::prelude::*;

verus! {

/// A stateful checksum algorithm for one file: it takes the file's bytes in chunks,
/// is finalized once, and then reports its digest as text.
pub trait FileChecksumGenerator: Sized {
    /// The bytes handed to `update` so far, in order, as one stream.
    spec fn consumed(&self) -> Seq<u8>;

    /// Whether `finalize` has been called.
    spec fn is_finalized(&self) -> bool;

    /// The digest the algorithm gives a whole byte stream.
    spec fn digest_of(bytes: Seq<u8>) -> Seq<char>;

    /// Appends `data` to the stream.
    fn update(&mut self, data: &[u8])
        requires
            !old(self).is_finalized(),
        ensures
            final(self).consumed() == old(self).consumed() + data@,
            !final(self).is_finalized(),
    ;

    /// Closes the stream.
    fn finalize(&mut self)
        requires
            !old(self).is_finalized(),
        ensures
            final(self).consumed() == old(self).consumed(),
            final(self).is_finalized(),
    ;

    /// The digest of the stream, once it is closed.
    fn get_checksum(&self) -> (r: String)
        ensures
            self.is_finalized() ==> r@ == Self::digest_of(self.consumed()),
    ;
}

/// The stream a generator holds after `update` is called with each chunk in turn,
/// starting from `consumed`.
pub open spec fn after_updates(consumed: Seq<u8>, chunks: Seq<Seq<u8>>) -> Seq<u8>
    decreases chunks.len(),
{
    if chunks.len() == 0 {
        consumed
    } else {
        after_updates(consumed + chunks[0], chunks.drop_first())
    }
}

proof fn lemma_after_updates_flatten(consumed: Seq<u8>, chunks: Seq<Seq<u8>>)
    ensures
        after_updates(consumed, chunks) == consumed + chunks.flatten(),
    decreases chunks.len(),
{
    if chunks.len() > 0 {
        lemma_after_updates_flatten(consumed + chunks[0], chunks.drop_first());
        assert(consumed + chunks[0] + chunks.drop_first().flatten() =~= consumed + (chunks[0]
            + chunks.drop_first().flatten()));
    } else {
        assert(consumed + chunks.flatten() =~= consumed);
    }
}

/// Chunking does not change the digest: feeding the chunks of any partition of `s`
/// to a fresh generator, one `update` each, leaves the same stream, and so the same
/// digest, as one `update` with the whole of `s`.
pub proof fn lemma_chunk_invariance<H: FileChecksumGenerator>(s: Seq<u8>, chunks: Seq<Seq<u8>>)
    requires
        chunks.flatten() == s,
    ensures
        after_updates(Seq::empty(), chunks) == s,
        after_updates(Seq::empty(), seq![s]) == s,
        H::digest_of(after_updates(Seq::empty(), chunks)) == H::digest_of(
            after_updates(Seq::empty(), seq![s]),
        ),
{
    lemma_after_updates_flatten(Seq::empty(), chunks);
    lemma_after_updates_flatten(Seq::empty(), seq![s]);
    assert(seq![s].drop_first() =~= Seq::<Seq<u8>>::empty());
    seq![s].lemma_flatten_one_element();
    assert(Seq::<u8>::empty() + s =~= s);
}

/// Owns one generator together with the checksum function name it was created under.
/// Destroying it consumes it, so it is destroyed exactly once and never used after.
pub struct FileChecksumGenHandle<H: FileChecksumGenerator> {
    checksum_func_name: String,
    checksum_generator: H,
}

impl<H: FileChecksumGenerator> FileChecksumGenHandle<H> {
    /// The checksum function name.
    pub closed spec fn func_name(&self) -> Seq<char> {
        self.checksum_func_name@
    }

    /// The generator it owns.
    pub closed spec fn generator(&self) -> H {
        self.checksum_generator
    }

    /// The checksum function name, valid for as long as the handle.
    pub fn name(&self) -> (r: &str)
        ensures
            r@ == self.func_name(),
    {
        self.checksum_func_name.as_str()
    }

    /// Hands `data` to the generator.
    pub fn update(&mut self, data: &[u8])
        requires
            !old(self).generator().is_finalized(),
        ensures
            final(self).func_name() == old(self).func_name(),
            final(self).generator().consumed() == old(self).generator().consumed() + data@,
            !final(self).generator().is_finalized(),
    {
        self.checksum_generator.update(data);
    }

    /// Finalizes the generator.
    pub fn finalize(&mut self)
        requires
            !old(self).generator().is_finalized(),
        ensures
            final(self).func_name() == old(self).func_name(),
            final(self).generator().consumed() == old(self).generator().consumed(),
            final(self).generator().is_finalized(),
    {
        self.checksum_generator.finalize();
    }

    /// The generator's digest. Once the generator is finalized, every call returns the
    /// digest of the whole stream, the same text each time.
    pub fn get_checksum(&self) -> (r: String)
        ensures
            self.generator().is_finalized() ==> r@ == H::digest_of(self.generator().consumed()),
    {
        self.checksum_generator.get_checksum()
    }

    /// Releases the handle and everything it owns, at any point of its life.
    pub fn destroy(self) {
        let FileChecksumGenHandle { checksum_func_name, checksum_generator } = self;
    }
}

/// A handle that owns `generator` under the function name `checksum_func_name`.
pub fn new_checksum_generator<H: FileChecksumGenerator>(
    checksum_func_name: String,
    generator: H,
) -> (r: FileChecksumGenHandle<H>)
    ensures
        r.func_name() == checksum_func_name@,
        r.generator() == generator,
{
    FileChecksumGenHandle { checksum_func_name, checksum_generator: generator }
}

} // verus!
