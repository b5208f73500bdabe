//! Full-file checksum plugins: a checksum algorithm and a factory that picks one
//! per file, with the handles that own them and the order in which a host drives them.

pub mod context;
pub mod factory;
pub mod generator;
pub mod lifecycle;
pub mod running_sum;

pub use context::FileChecksumContext;
pub use factory::{new_file_checksum_gen_factory, FileChecksumFactoryHandle, FileChecksumGenFactory};
pub use generator::{new_checksum_generator, FileChecksumGenHandle, FileChecksumGenerator};
pub use lifecycle::{
    check_factory_events, check_gen_events, next_factory_phase, next_gen_phase, FactoryEvent,
    FactoryPhase, GenEvent, GenPhase,
};
pub use running_sum::{RunningSumFactory, RunningSumGenerator};
