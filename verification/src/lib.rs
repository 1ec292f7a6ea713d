//! Resource management and dispatch for a memory-hard, keyed hash service.
//!
//! A service built on this crate holds one large dataset derived from a
//! per-challenge seed, replaces it when a new challenge arrives, and computes
//! digests of candidate preimages against whichever dataset is current. The
//! dataset generator and the digest function are supplied by the caller; this
//! crate owns everything around them: who may hash and when, which dataset a
//! request sees, how a batch is fanned out and reassembled in order, and how
//! many serving units a declared workload calls for.

use vstd::prelude::*;

pub mod dispatch;
pub mod encoding;
pub mod error;
pub mod planner;
pub mod request;
pub mod service;
pub mod shared;
pub mod snapshot;

use crate::dispatch::digest_is_total;
use crate::dispatch::hash_yields;
use crate::error::ServiceError;
use crate::service::admitted;
use crate::service::build_yields;
use crate::service::builder_is_total;
use crate::service::installed;
use crate::service::ServingLayer;
use crate::service::HASH_INSTRS;
use crate::service::HASH_LOOPS;
use crate::snapshot::GenerationParams;
use crate::snapshot::Snapshot;

verus! {

/// Initializes the dataset for a challenge.
///
/// `no_pre_mine_hex` is the seed: the text itself is the key, its UTF-8 bytes
/// go to the builder as they are, and no hexadecimal is decoded. The dataset
/// replaces the one published before, if any.
pub fn init_rom<D, B: Fn(&[u8], &GenerationParams) -> Option<D>>(
    layer: &mut ServingLayer<D>,
    no_pre_mine_hex: String,
    nb_loops: u32,
    nb_instrs: u32,
    pre_size: u32,
    rom_size: u32,
    mixing_numbers: u32,
    build: &B,
) -> (outcome: Result<(), ServiceError>)
    requires
        builder_is_total(build),
    ensures
        exists|built: Option<D>|
            {
                &&& #[trigger] build_yields(
                    build,
                    no_pre_mine_hex@,
                    GenerationParams::of(nb_loops, nb_instrs, pre_size, rom_size, mixing_numbers),
                    built,
                )
                &&& final(layer)@ == installed(
                    old(layer)@,
                    no_pre_mine_hex,
                    GenerationParams::of(nb_loops, nb_instrs, pre_size, rom_size, mixing_numbers),
                    built,
                )
                &&& match outcome {
                    Ok(_) => built is Some,
                    Err(error) => built is None && error == ServiceError::ConstructionFailure,
                }
            },
{
    let params = GenerationParams::new(nb_loops, nb_instrs, pre_size, rom_size, mixing_numbers);
    match layer.initialize(no_pre_mine_hex, params, build) {
        Ok(_) => Ok(()),
        Err(error) => Err(error),
    }
}

/// Hashes a preimage against the current dataset and returns the digest as
/// lowercase hexadecimal text, or `NotReady` before the first initialization.
pub fn hash_preimage<D, F: Fn(&[u8], &D, u32, u32) -> Vec<u8>>(
    layer: &ServingLayer<D>,
    preimage: String,
    digest: &F,
) -> (outcome: Result<String, ServiceError>)
    requires
        digest_is_total(digest),
    ensures
        match outcome {
            Ok(text) => admitted(layer@) matches Ok(snapshot) && hash_yields(
                digest,
                &snapshot.dataset,
                HASH_LOOPS,
                HASH_INSTRS,
                preimage@,
                text@,
            ),
            Err(error) => admitted(layer@) == Err::<Snapshot<D>, ServiceError>(error),
        },
{
    layer.hash_one(preimage.as_str(), digest)
}

/// Whether a dataset is published.
pub fn rom_ready<D>(layer: &ServingLayer<D>) -> (ready: bool)
    ensures
        ready == (layer@.current is Some),
{
    layer.health().ready
}

} // verus!
