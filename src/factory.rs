//! The per-file policy that builds generators, and the handle that owns one.

use vstd::prelude::*;
use crate::context::FileChecksumContext;
use crate::generator::{new_checksum_generator, FileChecksumGenHandle, FileChecksumGenerator};

verus! {

/// Decides for each file whether, and with which algorithm, its full-file checksum is
/// computed.
pub trait FileChecksumGenFactory: Sized {
    type ChecksumGen: FileChecksumGenerator;

    /// The checksum function name the factory builds a generator under for a file with
    /// this context (its two C strings), or none where it declines.
    spec fn chosen_name(&self, context: (Seq<u8>, Seq<u8>)) -> Option<Seq<char>>;

    /// A fresh generator for the file, with the name of its function, or `None` to
    /// leave the file without a full-file checksum.
    fn create_file_checksum_generator(&self, context: &FileChecksumContext) -> (r: Option<
        (String, Self::ChecksumGen),
    >)
        ensures
            r is None <==> self.chosen_name(context@) is None,
            r matches Some((name, generator)) ==> {
                &&& self.chosen_name(context@) == Some(name@)
                &&& generator.consumed() == Seq::<u8>::empty()
                &&& !generator.is_finalized()
            },
    ;
}

/// Owns one factory together with the name it is registered under. Destroying it
/// consumes it, so it is destroyed exactly once and never used after.
pub struct FileChecksumFactoryHandle<F: FileChecksumGenFactory> {
    name: String,
    factory: F,
}

impl<F: FileChecksumGenFactory> FileChecksumFactoryHandle<F> {
    /// The registered name.
    pub closed spec fn factory_name(&self) -> Seq<char> {
        self.name@
    }

    /// The factory it owns.
    pub closed spec fn factory(&self) -> F {
        self.factory
    }

    /// Whether a request for a file with this context yields a generator.
    pub open spec fn yields(&self, context: (Seq<u8>, Seq<u8>)) -> bool {
        self.factory().chosen_name(context) is Some
    }

    /// The registered name, valid for as long as the handle.
    pub fn name(&self) -> (r: &str)
        ensures
            r@ == self.factory_name(),
    {
        self.name.as_str()
    }

    /// Asks the factory for a generator for the file and, where it builds one, hands
    /// back a new handle that owns it; `None` where the factory declines.
    pub fn create_file_checksum_generator(&self, context: &FileChecksumContext) -> (r: Option<
        FileChecksumGenHandle<F::ChecksumGen>,
    >)
        ensures
            r is Some <==> self.yields(context@),
            r matches Some(h) ==> {
                &&& self.factory().chosen_name(context@) == Some(h.func_name())
                &&& h.generator().consumed() == Seq::<u8>::empty()
                &&& !h.generator().is_finalized()
            },
    {
        match self.factory.create_file_checksum_generator(context) {
            Some((name, generator)) => Some(new_checksum_generator(name, generator)),
            None => None,
        }
    }

    /// Releases the handle and the factory it owns.
    pub fn destroy(self) {
        let FileChecksumFactoryHandle { name, factory } = self;
    }
}

/// A factory that declines every file never yields a generator: the handle hands back
/// `None` for every context.
pub proof fn lemma_decline_fallback<F: FileChecksumGenFactory>(h: FileChecksumFactoryHandle<F>)
    requires
        forall|c: (Seq<u8>, Seq<u8>)| h.factory().chosen_name(c) is None,
    ensures
        forall|c: (Seq<u8>, Seq<u8>)| !h.yields(c),
{
}

/// A handle that owns `factory` under `name`. It always succeeds.
pub fn new_file_checksum_gen_factory<F: FileChecksumGenFactory>(name: String, factory: F) -> (r:
    Result<FileChecksumFactoryHandle<F>, String>)
    ensures
        r matches Ok(h) && h.factory_name() == name@ && h.factory() == factory,
{
    Ok(FileChecksumFactoryHandle { name, factory })
}

} // verus!
