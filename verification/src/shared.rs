//! The serving layer behind a reader-writer lock, for use from many threads
//! at once.
//!
//! A reader holds the lock only while it takes a reference of its own to the
//! current snapshot; hashing runs after the lock is released. A writer
//! constructs the dataset first and takes the lock only to exchange the
//! snapshot. So a request that overlaps an initialization works on the old
//! snapshot or on the new one, and on nothing in between: the lock never
//! guards a layer whose snapshot is not whole.

use vstd::prelude::*;
use vstd::rwlock::RwLock;
use vstd::rwlock::RwLockPredicate;
use crate::dispatch::batch_yields;
use crate::dispatch::digest_is_total;
use crate::dispatch::hash_text;
use crate::dispatch::hash_yields;
use crate::dispatch::run_batch;
use crate::error::ServiceError;
use crate::service::admitted;
use crate::service::admitted_batch;
use crate::service::advice_for;
use crate::service::available_parallelism;
use crate::service::build_yields;
use crate::service::builder_is_total;
use crate::service::echo_text;
use crate::service::CapacityAdvice;
use crate::service::HealthReport;
use crate::service::InitAck;
use crate::service::ServingLayer;
use crate::service::HASH_INSTRS;
use crate::service::HASH_LOOPS;
use crate::snapshot::GenerationParams;
use crate::snapshot::Snapshot;

verus! {

/// Whether a snapshot is whole: its dataset is what the builder gives for the
/// snapshot's own seed and parameters.
pub open spec fn built_by<D, B: Fn(&[u8], &GenerationParams) -> Option<D>>(
    build: &B,
    snapshot: Snapshot<D>,
) -> bool {
    build_yields(build, snapshot.seed@, snapshot.params, Some(snapshot.dataset))
}

/// Whether `text` is a result of hashing `preimage` against `snapshot`, and
/// the snapshot is whole.
pub open spec fn hashed_against<
    D,
    B: Fn(&[u8], &GenerationParams) -> Option<D>,
    F: Fn(&[u8], &D, u32, u32) -> Vec<u8>,
>(build: &B, digest: &F, snapshot: Snapshot<D>, preimage: Seq<char>, text: Seq<char>) -> bool {
    &&& built_by(build, snapshot)
    &&& hash_yields(digest, &snapshot.dataset, HASH_LOOPS, HASH_INSTRS, preimage, text)
}

/// Whether `texts` is a result of hashing the batch `preimages` against
/// `snapshot`, every preimage against that one snapshot, and the snapshot is
/// whole.
pub open spec fn batch_hashed_against<
    D,
    B: Fn(&[u8], &GenerationParams) -> Option<D>,
    F: Fn(&[u8], &D, u32, u32) -> Vec<u8>,
>(build: &B, digest: &F, snapshot: Snapshot<D>, preimages: Seq<String>, texts: Seq<String>) -> bool {
    &&& built_by(build, snapshot)
    &&& batch_yields(digest, &snapshot.dataset, HASH_LOOPS, HASH_INSTRS, preimages, texts)
}

/// What the lock keeps true of the layer it guards, at every moment and for
/// every thread: the configured degree is the one the service was started
/// with, and the current snapshot, if there is one, is whole.
pub struct Guarded<B> {
    /// The builder every published dataset comes from.
    pub build: B,
    /// The serving degree the service was started with.
    pub configured_degree: usize,
}

impl<D, B: Fn(&[u8], &GenerationParams) -> Option<D>> RwLockPredicate<ServingLayer<D>> for Guarded<B> {
    open spec fn inv(self, layer: ServingLayer<D>) -> bool {
        &&& layer@.configured_degree == self.configured_degree
        &&& layer@.current matches Some(snapshot) ==> built_by(&self.build, snapshot)
    }
}

/// A serving layer that many threads use at once, together with the builder
/// and the digest function it was made for.
#[verifier::reject_recursive_types(D)]
#[verifier::reject_recursive_types(B)]
#[verifier::reject_recursive_types(F)]
pub struct SharedService<
    D,
    B: Fn(&[u8], &GenerationParams) -> Option<D>,
    F: Fn(&[u8], &D, u32, u32) -> Vec<u8>,
> {
    layer: RwLock<ServingLayer<D>, Guarded<B>>,
    build: B,
    digest: F,
}

impl<
    D,
    B: Fn(&[u8], &GenerationParams) -> Option<D>,
    F: Fn(&[u8], &D, u32, u32) -> Vec<u8>,
> SharedService<D, B, F> {
    #[verifier::type_invariant]
    spec fn well_formed(self) -> bool {
        &&& self.layer.pred().build == self.build
        &&& builder_is_total(&self.build)
        &&& digest_is_total(&self.digest)
    }

    /// The builder of this service.
    pub closed spec fn builder(&self) -> B {
        self.build
    }

    /// The digest function of this service.
    pub closed spec fn digest_fn(&self) -> F {
        self.digest
    }

    /// The serving degree this service was started with.
    pub closed spec fn configured_degree(&self) -> usize {
        self.layer.pred().configured_degree
    }

    /// A service in state `Uninitialized`, started with `configured_degree`
    /// serving units.
    pub fn new(configured_degree: usize, build: B, digest: F) -> (service: Self)
        requires
            builder_is_total(&build),
            digest_is_total(&digest),
        ensures
            service.builder() == build,
            service.digest_fn() == digest,
            service.configured_degree() == configured_degree,
    {
        let layer = ServingLayer::new(configured_degree);
        let lock = RwLock::new(layer, Ghost(Guarded { build, configured_degree }));
        SharedService { layer: lock, build, digest }
    }

    /// Initializes the service for a challenge, in whichever state it is.
    ///
    /// The dataset is constructed before the lock is taken, so no reader
    /// waits for it; the lock is held for the exchange of the snapshot alone.
    /// Where construction fails, what was published stays published.
    pub fn initialize(&self, seed: String, params: GenerationParams) -> (outcome: Result<
        InitAck,
        ServiceError,
    >)
        ensures
            match outcome {
                Ok(ack) => ack.seed_echo@ == echo_text(seed@) && exists|dataset: D| #[trigger]
                    build_yields(&self.builder(), seed@, params, Some(dataset)),
                Err(error) => error == ServiceError::ConstructionFailure && build_yields(
                    &self.builder(),
                    seed@,
                    params,
                    None::<D>,
                ),
            },
    {
        proof {
            use_type_invariant(self);
        }
        let built = (self.build)(seed.as_str().as_bytes(), &params);
        let ghost constructed = built;
        assert(build_yields(&self.build, seed@, params, built));
        let (mut layer, handle) = self.layer.acquire_write();
        let outcome = layer.install(seed, params, built);
        handle.release_write(layer);
        proof {
            if let Some(dataset) = constructed {
                assert(build_yields(&self.builder(), seed@, params, Some(dataset)));
            }
        }
        outcome
    }

    /// Hashes one preimage against the snapshot that is current when the
    /// request is admitted. The snapshot is whole, whatever other threads
    /// publish meanwhile.
    pub fn hash_one(&self, preimage: &str) -> (outcome: Result<String, ServiceError>)
        ensures
            match outcome {
                Ok(text) => exists|snapshot: Snapshot<D>| #[trigger]
                    hashed_against(&self.builder(), &self.digest_fn(), snapshot, preimage@, text@),
                Err(error) => error == ServiceError::NotReady,
            },
    {
        proof {
            use_type_invariant(self);
        }
        let handle = self.layer.acquire_read();
        let admission = handle.borrow().admit_hash();
        let ghost layer = handle@;
        handle.release_read();
        match admission {
            Ok(shared) => {
                let text = hash_text(preimage, &shared.dataset, HASH_LOOPS, HASH_INSTRS, &self.digest);
                let answer: Result<String, ServiceError> = Ok(text);
                assert(hashed_against(
                    &self.builder(),
                    &self.digest_fn(),
                    layer@.current->Some_0,
                    preimage@,
                    answer->Ok_0@,
                ));
                answer
            },
            Err(error) => {
                assert(admitted(layer@) == Err::<Snapshot<D>, ServiceError>(error));
                Err(error)
            },
        }
    }

    /// Reports whether a snapshot is published at the moment of the call.
    /// Never fails.
    pub fn health(&self) -> (report: HealthReport)
        ensures
            report.native_available,
    {
        let handle = self.layer.acquire_read();
        let report = handle.borrow().health();
        handle.release_read();
        report
    }

    /// Stores `clients` as the capacity signal and advises on the serving
    /// degree for the parallelism this machine offers at the moment of the
    /// call. What is published and the configured degree stay as they are.
    pub fn update_capacity_signal(&self, clients: usize) -> (advice: CapacityAdvice)
        ensures
            exists|available: usize|
                advice == #[trigger] advice_for(clients, available, self.configured_degree()),
    {
        proof {
            use_type_invariant(self);
        }
        let available: usize = available_parallelism();
        let (mut layer, handle) = self.layer.acquire_write();
        let advice = layer.record_capacity(clients, available);
        handle.release_write(layer);
        assert(advice == advice_for(clients, available, self.configured_degree()));
        advice
    }

    /// The client count declared last, if any, at the moment of the call.
    pub fn capacity_signal(&self) -> (signal: Option<usize>) {
        let handle = self.layer.acquire_read();
        let signal = handle.borrow().capacity_signal();
        handle.release_read();
        signal
    }
}

impl<
    D: Sync,
    B: Fn(&[u8], &GenerationParams) -> Option<D>,
    F: Fn(&[u8], &D, u32, u32) -> Vec<u8> + Sync,
> SharedService<D, B, F> {
    /// Hashes a batch of preimages, all of them against the one snapshot that
    /// is current when the batch is admitted, and returns the texts in the
    /// order of the preimages. An empty batch is `InvalidInput` in either
    /// state.
    pub fn hash_batch(&self, preimages: &Vec<String>) -> (outcome: Result<Vec<String>, ServiceError>)
        ensures
            match outcome {
                Ok(texts) => preimages@.len() > 0 && exists|snapshot: Snapshot<D>| #[trigger]
                    batch_hashed_against(
                        &self.builder(),
                        &self.digest_fn(),
                        snapshot,
                        preimages@,
                        texts@,
                    ),
                Err(error) => if preimages@.len() == 0 {
                    error == ServiceError::InvalidInput
                } else {
                    error == ServiceError::NotReady
                },
            },
            preimages@.len() == 0 ==> outcome == Err::<Vec<String>, ServiceError>(
                ServiceError::InvalidInput,
            ),
    {
        proof {
            use_type_invariant(self);
        }
        let handle = self.layer.acquire_read();
        let admission = handle.borrow().admit_batch(preimages.len());
        let ghost layer = handle@;
        handle.release_read();
        match admission {
            Ok(shared) => {
                let texts = run_batch(preimages, &shared.dataset, HASH_LOOPS, HASH_INSTRS, &self.digest);
                let answer: Result<Vec<String>, ServiceError> = Ok(texts);
                assert(batch_hashed_against(
                    &self.builder(),
                    &self.digest_fn(),
                    layer@.current->Some_0,
                    preimages@,
                    answer->Ok_0@,
                ));
                answer
            },
            Err(error) => {
                assert(admitted_batch(layer@, preimages@.len()) == Err::<Snapshot<D>, ServiceError>(
                    error,
                ));
                Err(error)
            },
        }
    }
}

} // verus!
