//! The serving layer: the operations a caller reaches, their preconditions,
//! and the shape of what they answer.
//!
//! The layer is `Uninitialized` until a dataset is first published and
//! `Ready` from then on; publishing again keeps it `Ready` on the new
//! snapshot. `ServingLayer` is the layer for one owner; `shared` puts it
//! behind a lock for many. Under a lock, `install`, `admit_hash`,
//! `admit_batch`, `health` and `record_capacity` are the steps to take while
//! holding it; dataset construction and hashing belong outside.

use std::sync::Arc;
use vstd::prelude::*;
use vstd::utf8::encode_utf8;
use crate::dispatch::batch_yields;
use crate::dispatch::digest_is_total;
use crate::dispatch::hash_text;
use crate::dispatch::hash_yields;
use crate::dispatch::run_batch;
use crate::error::ServiceError;
use crate::planner::recommend;
use crate::planner::restart_note;
use crate::planner::restart_note_text;
use crate::planner::recommended_degree;
use crate::snapshot::published;
use crate::snapshot::DatasetHolder;
use crate::snapshot::GenerationParams;
use crate::snapshot::Snapshot;

verus! {

/// The loop count every hash is computed with.
pub const HASH_LOOPS: u32 = 8;

/// The instruction count every hash is computed with.
pub const HASH_INSTRS: u32 = 256;

/// How many characters of a seed are echoed back.
pub const ECHO_CHARS: usize = 16;

/// The two states of the layer.
#[derive(Clone, Copy, Debug, PartialEq, Eq, Structural)]
pub enum ServiceState {
    /// No dataset was published yet.
    Uninitialized,
    /// A dataset is published.
    Ready,
}

/// The answer to a successful initialization.
#[derive(Clone, Debug)]
pub struct InitAck {
    /// The first characters of the seed, followed by three dots.
    pub seed_echo: String,
    /// Whether a snapshot was already published and has been replaced.
    pub replaced: bool,
}

/// The answer to a health probe.
#[derive(Clone, Copy, Debug, PartialEq, Eq, Structural)]
pub struct HealthReport {
    /// Whether a snapshot is published.
    pub ready: bool,
    /// Whether native hashing is available. It always is.
    pub native_available: bool,
}

/// The answer to an update of the capacity signal.
#[derive(Clone, Copy, Debug, PartialEq, Eq, Structural)]
pub struct CapacityAdvice {
    /// The client count that was declared.
    pub declared: usize,
    /// The degree recommended for it.
    pub recommended: usize,
    /// The degree the service was started with. An update does not change it.
    pub configured: usize,
}

/// The serving layer as a value: what is published, what was last declared,
/// and what the service was started with.
pub struct ServiceView<D> {
    /// The current snapshot, if any.
    pub current: Option<Snapshot<D>>,
    /// The client count declared last, if any.
    pub capacity_signal: Option<usize>,
    /// The serving concurrency degree the service was started with.
    pub configured_degree: usize,
}

/// The serving layer.
pub struct ServingLayer<D> {
    holder: DatasetHolder<D>,
    capacity_signal: Option<usize>,
    configured_degree: usize,
}

/// The state a layer is in.
pub open spec fn state_of<D>(layer: ServiceView<D>) -> ServiceState {
    if layer.current is Some {
        ServiceState::Ready
    } else {
        ServiceState::Uninitialized
    }
}

/// Whether the dataset builder accepts every seed and every parameter set.
pub open spec fn builder_is_total<D, B: Fn(&[u8], &GenerationParams) -> Option<D>>(build: &B) -> bool {
    forall|seed: &[u8], params: &GenerationParams| #[trigger] build.requires((seed, params))
}

/// Whether `built` is an outcome the dataset builder may give for the seed
/// text and the parameters: what it relates to the seed's UTF-8 bytes, taken
/// as they are, and to the parameters.
pub open spec fn build_yields<D, B: Fn(&[u8], &GenerationParams) -> Option<D>>(
    build: &B,
    seed: Seq<char>,
    params: GenerationParams,
    built: Option<D>,
) -> bool {
    exists|bytes: &[u8]|
        bytes@ == encode_utf8(seed) && #[trigger] build.ensures((bytes, &params), built)
}

/// The layer after an initialization attempt whose construction gave
/// `built`: the new snapshot is published if there is one, and nothing
/// changes if there is none.
pub open spec fn installed<D>(
    before: ServiceView<D>,
    seed: String,
    params: GenerationParams,
    built: Option<D>,
) -> ServiceView<D> {
    match built {
        Some(dataset) => ServiceView {
            current: published(before.current, Snapshot { seed, params, dataset }),
            ..before
        },
        None => before,
    }
}

/// The layer after `clients` is declared as the capacity signal.
pub open spec fn signalled<D>(before: ServiceView<D>, clients: usize) -> ServiceView<D> {
    ServiceView { capacity_signal: Some(clients), ..before }
}

/// What a hash request is admitted to: the current snapshot, or `NotReady`
/// where there is none.
pub open spec fn admitted<D>(layer: ServiceView<D>) -> Result<Snapshot<D>, ServiceError> {
    match layer.current {
        Some(snapshot) => Ok(snapshot),
        None => Err(ServiceError::NotReady),
    }
}

/// What a batch of `count` preimages is admitted to: `InvalidInput` for an
/// empty batch, whatever the state; otherwise what a single hash is.
pub open spec fn admitted_batch<D>(layer: ServiceView<D>, count: nat) -> Result<
    Snapshot<D>,
    ServiceError,
> {
    if count == 0 {
        Err(ServiceError::InvalidInput)
    } else {
        admitted(layer)
    }
}

/// The echo of a seed: its first `ECHO_CHARS` characters, or all of them if
/// it has fewer, followed by three dots.
pub open spec fn echo_text(seed: Seq<char>) -> Seq<char> {
    let kept: int = if seed.len() < ECHO_CHARS {
        seed.len() as int
    } else {
        ECHO_CHARS as int
    };
    seed.take(kept) + seq!['.', '.', '.']
}

/// The advice for `clients` declared clients on hardware that runs
/// `available` units in parallel, in a service started with `configured`.
pub open spec fn advice_for(clients: usize, available: usize, configured: usize) -> CapacityAdvice {
    CapacityAdvice {
        declared: clients,
        recommended: recommended_degree(clients as int, available as int) as usize,
        configured,
    }
}

/// Truncates a seed for echoing it back.
pub fn seed_echo(seed: &str) -> (echo: String)
    ensures
        echo@ == echo_text(seed@),
{
    let count: usize = seed.unicode_len();
    let kept: usize = if count < ECHO_CHARS {
        count
    } else {
        ECHO_CHARS
    };
    let head = seed.substring_char(0, kept);
    proof {
        reveal_strlit("...");
        assert("..."@ =~= seq!['.', '.', '.']);
    }
    String::from_str(head).concat("...")
}

/// `num_cpus::get`: the number of logical processors this process may run
/// on. It depends on the machine and on the moment, so nothing is claimed of
/// it.
#[verifier::external_body]
pub(crate) fn available_parallelism() -> (available: usize) {
    num_cpus::get()
}

impl CapacityAdvice {
    /// The note to send with the advice: the recommended degree, and that
    /// the service has to be started again for it to apply.
    pub fn note(&self) -> (note: String)
        ensures
            note@ == restart_note_text(self.recommended),
    {
        restart_note(self.recommended)
    }
}

impl<D> View for ServingLayer<D> {
    type V = ServiceView<D>;

    closed spec fn view(&self) -> ServiceView<D> {
        ServiceView {
            current: self.holder@,
            capacity_signal: self.capacity_signal,
            configured_degree: self.configured_degree,
        }
    }
}

impl<D> ServingLayer<D> {
    /// A layer in state `Uninitialized`, for a service started with
    /// `configured_degree` serving units.
    pub fn new(configured_degree: usize) -> (layer: Self)
        ensures
            layer@.current is None,
            layer@.capacity_signal is None,
            layer@.configured_degree == configured_degree,
            state_of(layer@) == ServiceState::Uninitialized,
    {
        ServingLayer { holder: DatasetHolder::new(), capacity_signal: None, configured_degree }
    }

    /// The state the layer is in.
    pub fn state(&self) -> (state: ServiceState)
        ensures
            state == state_of(self@),
    {
        if self.holder.is_ready() {
            ServiceState::Ready
        } else {
            ServiceState::Uninitialized
        }
    }

    /// Finishes an initialization with the outcome of the construction.
    ///
    /// With a dataset, the snapshot made of seed, parameters and dataset
    /// becomes current, in whichever state the layer was, and the answer
    /// echoes the seed. Without one the attempt fails with
    /// `ConstructionFailure` and the layer is as it was.
    pub fn install(&mut self, seed: String, params: GenerationParams, built: Option<D>) -> (outcome:
        Result<InitAck, ServiceError>)
        ensures
            final(self)@ == installed(old(self)@, seed, params, built),
            match outcome {
                Ok(ack) => built is Some && ack.seed_echo@ == echo_text(seed@) && ack.replaced == (
                old(self)@.current is Some),
                Err(error) => built is None && error == ServiceError::ConstructionFailure,
            },
    {
        match built {
            Some(dataset) => {
                let seed_echo = seed_echo(seed.as_str());
                let retired = self.holder.publish(Arc::new(Snapshot { seed, params, dataset }));
                Ok(InitAck { seed_echo, replaced: retired.is_some() })
            },
            None => Err(ServiceError::ConstructionFailure),
        }
    }

    /// Initializes the service for a challenge: constructs the dataset from
    /// the seed and the parameters, then installs it.
    ///
    /// Always allowed. The builder is handed the UTF-8 bytes of the seed text
    /// as they are, and the parameters unchanged.
    pub fn initialize<B: Fn(&[u8], &GenerationParams) -> Option<D>>(
        &mut self,
        seed: String,
        params: GenerationParams,
        build: &B,
    ) -> (outcome: Result<InitAck, ServiceError>)
        requires
            builder_is_total(build),
        ensures
            exists|built: Option<D>|
                {
                    &&& #[trigger] build_yields(build, seed@, params, built)
                    &&& final(self)@ == installed(old(self)@, seed, params, built)
                    &&& match outcome {
                        Ok(ack) => built is Some && ack.seed_echo@ == echo_text(seed@)
                            && ack.replaced == (old(self)@.current is Some),
                        Err(error) => built is None && error == ServiceError::ConstructionFailure,
                    }
                },
    {
        let built = build(seed.as_str().as_bytes(), &params);
        assert(build_yields(build, seed@, params, built));
        self.install(seed, params, built)
    }

    /// Admits a hash request: a reference of its own to the current
    /// snapshot, or `NotReady`.
    pub fn admit_hash(&self) -> (outcome: Result<Arc<Snapshot<D>>, ServiceError>)
        ensures
            match outcome {
                Ok(shared) => admitted(self@) == Ok::<Snapshot<D>, ServiceError>(*shared),
                Err(error) => admitted(self@) == Err::<Snapshot<D>, ServiceError>(error),
            },
    {
        match self.holder.current() {
            Some(shared) => Ok(shared),
            None => Err(ServiceError::NotReady),
        }
    }

    /// Admits a batch of `count` preimages: `InvalidInput` for an empty
    /// batch, in either state; otherwise as `admit_hash`.
    pub fn admit_batch(&self, count: usize) -> (outcome: Result<Arc<Snapshot<D>>, ServiceError>)
        ensures
            match outcome {
                Ok(shared) => admitted_batch(self@, count as nat) == Ok::<Snapshot<D>, ServiceError>(
                    *shared,
                ),
                Err(error) => admitted_batch(self@, count as nat) == Err::<Snapshot<D>, ServiceError>(
                    error,
                ),
            },
            count == 0 ==> outcome == Err::<Arc<Snapshot<D>>, ServiceError>(ServiceError::InvalidInput),
    {
        if count == 0 {
            Err(ServiceError::InvalidInput)
        } else {
            self.admit_hash()
        }
    }

    /// Hashes one preimage against the current snapshot.
    pub fn hash_one<F: Fn(&[u8], &D, u32, u32) -> Vec<u8>>(&self, preimage: &str, digest: &F) -> (outcome:
        Result<String, ServiceError>)
        requires
            digest_is_total(digest),
        ensures
            match outcome {
                Ok(text) => admitted(self@) matches Ok(snapshot) && hash_yields(
                    digest,
                    &snapshot.dataset,
                    HASH_LOOPS,
                    HASH_INSTRS,
                    preimage@,
                    text@,
                ),
                Err(error) => admitted(self@) == Err::<Snapshot<D>, ServiceError>(error),
            },
    {
        match self.admit_hash() {
            Ok(shared) => Ok(hash_text(preimage, &shared.dataset, HASH_LOOPS, HASH_INSTRS, digest)),
            Err(error) => Err(error),
        }
    }

    /// Reports whether a snapshot is published. Never fails.
    pub fn health(&self) -> (report: HealthReport)
        ensures
            report.ready == (self@.current is Some),
            report.native_available,
    {
        HealthReport { ready: self.holder.is_ready(), native_available: true }
    }

    /// Stores `clients` as the capacity signal and advises on the serving
    /// degree for hardware that runs `available` units in parallel. Nothing
    /// else changes: neither what is published nor the configured degree.
    pub fn record_capacity(&mut self, clients: usize, available: usize) -> (advice: CapacityAdvice)
        ensures
            final(self)@ == signalled(old(self)@, clients),
            advice == advice_for(clients, available, old(self)@.configured_degree),
    {
        self.capacity_signal = Some(clients);
        CapacityAdvice {
            declared: clients,
            recommended: recommend(clients, available),
            configured: self.configured_degree,
        }
    }

    /// Updates the capacity signal with the parallelism this machine offers
    /// at the moment of the call.
    pub fn update_capacity_signal(&mut self, clients: usize) -> (advice: CapacityAdvice)
        ensures
            final(self)@ == signalled(old(self)@, clients),
            exists|available: usize|
                advice == #[trigger] advice_for(
                    clients,
                    available,
                    old(self)@.configured_degree,
                ),
    {
        let available: usize = available_parallelism();
        self.record_capacity(clients, available)
    }

    /// The client count declared last, if any.
    pub fn capacity_signal(&self) -> (signal: Option<usize>)
        ensures
            signal == self@.capacity_signal,
    {
        self.capacity_signal
    }
}

impl<D: Sync> ServingLayer<D> {
    /// Hashes a batch of preimages against the snapshot that is current when
    /// the batch is admitted, and returns the texts in the order of the
    /// preimages.
    pub fn hash_batch<F: Fn(&[u8], &D, u32, u32) -> Vec<u8> + Sync>(
        &self,
        preimages: &Vec<String>,
        digest: &F,
    ) -> (outcome: Result<Vec<String>, ServiceError>)
        requires
            digest_is_total(digest),
        ensures
            match outcome {
                Ok(texts) => admitted_batch(self@, preimages@.len()) matches Ok(snapshot)
                    && batch_yields(
                    digest,
                    &snapshot.dataset,
                    HASH_LOOPS,
                    HASH_INSTRS,
                    preimages@,
                    texts@,
                ),
                Err(error) => admitted_batch(self@, preimages@.len()) == Err::<
                    Snapshot<D>,
                    ServiceError,
                >(error),
            },
            preimages@.len() == 0 ==> outcome == Err::<Vec<String>, ServiceError>(
                ServiceError::InvalidInput,
            ),
    {
        match self.admit_batch(preimages.len()) {
            Ok(shared) => Ok(run_batch(preimages, &shared.dataset, HASH_LOOPS, HASH_INSTRS, digest)),
            Err(error) => Err(error),
        }
    }
}

/// One initialization attempt: what was asked for, and what the construction
/// gave.
pub struct InitAttempt<D> {
    /// The seed text.
    pub seed: String,
    /// The generation parameters.
    pub params: GenerationParams,
    /// The constructed dataset, or `None` where construction failed.
    pub built: Option<D>,
}

/// The layer after each of `attempts` is installed in turn.
pub open spec fn installed_all<D>(before: ServiceView<D>, attempts: Seq<InitAttempt<D>>) -> ServiceView<D>
    decreases attempts.len(),
{
    if attempts.len() == 0 {
        before
    } else {
        let last = attempts.last();
        installed(installed_all(before, attempts.drop_last()), last.seed, last.params, last.built)
    }
}

/// The snapshot that an attempt publishes, if it constructed a dataset.
pub open spec fn snapshot_of<D>(attempt: InitAttempt<D>) -> Option<Snapshot<D>> {
    match attempt.built {
        Some(dataset) => Some(Snapshot { seed: attempt.seed, params: attempt.params, dataset }),
        None => None,
    }
}

/// Initializations never mix: after any series of attempts, in whatever
/// order they took effect, the current snapshot is the one that was current
/// before, or it is the snapshot of one single attempt, with that attempt's
/// own seed, parameters and dataset.
pub proof fn lemma_current_comes_from_one_attempt<D>(
    before: ServiceView<D>,
    attempts: Seq<InitAttempt<D>>,
)
    ensures
        installed_all(before, attempts).current == before.current || exists|i: int|
            0 <= i < attempts.len() && snapshot_of(attempts[i]) is Some && installed_all(
                before,
                attempts,
            ).current == #[trigger] snapshot_of(attempts[i]),
        installed_all(before, attempts).capacity_signal == before.capacity_signal,
        installed_all(before, attempts).configured_degree == before.configured_degree,
    decreases attempts.len(),
{
    if attempts.len() > 0 {
        let earlier = attempts.drop_last();
        lemma_current_comes_from_one_attempt(before, earlier);
        let last = attempts.len() - 1;
        if attempts[last].built is Some {
            assert(installed_all(before, attempts).current == snapshot_of(attempts[last]));
        } else if installed_all(before, earlier).current != before.current {
            let i = choose|i: int|
                0 <= i < earlier.len() && snapshot_of(earlier[i]) is Some && installed_all(
                    before,
                    earlier,
                ).current == #[trigger] snapshot_of(earlier[i]);
            assert(earlier[i] == attempts[i]);
            assert(installed_all(before, attempts).current == snapshot_of(attempts[i]));
        }
    }
}

/// Readiness never regresses: a layer that is `Ready` is `Ready` after any
/// number of further initialization attempts, failed ones included, and
/// reports so.
pub proof fn lemma_ready_is_kept<D>(before: ServiceView<D>, attempts: Seq<InitAttempt<D>>)
    requires
        state_of(before) == ServiceState::Ready,
    ensures
        state_of(installed_all(before, attempts)) == ServiceState::Ready,
        installed_all(before, attempts).current is Some,
    decreases attempts.len(),
{
    if attempts.len() > 0 {
        lemma_ready_is_kept(before, attempts.drop_last());
    }
}

/// One successful initialization is enough: whatever state the layer starts
/// in, it is `Ready` after a series of attempts of which at least one
/// constructed a dataset.
pub proof fn lemma_ready_after_success<D>(
    before: ServiceView<D>,
    attempts: Seq<InitAttempt<D>>,
    success: int,
)
    requires
        0 <= success < attempts.len(),
        attempts[success].built is Some,
    ensures
        state_of(installed_all(before, attempts)) == ServiceState::Ready,
    decreases attempts.len(),
{
    if success < attempts.len() - 1 {
        assert(attempts.drop_last()[success] == attempts[success]);
        lemma_ready_after_success(before, attempts.drop_last(), success);
    }
}

/// A hash request that arrives while a layer that is `Ready` is being
/// initialized again is admitted whether it comes before the new snapshot is
/// installed or after: before, to the snapshot that was current; after, to
/// the new one, or to the old one still if construction failed. It is never
/// turned away and never sees anything but one of the two, whole.
pub proof fn lemma_admitted_across_install<D>(
    before: ServiceView<D>,
    seed: String,
    params: GenerationParams,
    built: Option<D>,
)
    requires
        before.current is Some,
    ensures
        admitted(before) == Ok::<Snapshot<D>, ServiceError>(before.current->Some_0),
        match built {
            Some(dataset) => admitted(installed(before, seed, params, built)) == Ok::<
                Snapshot<D>,
                ServiceError,
            >(Snapshot { seed, params, dataset }),
            None => admitted(installed(before, seed, params, built)) == admitted(before),
        },
        forall|count: nat|
            count > 0 ==> #[trigger] admitted_batch(installed(before, seed, params, built), count)
                is Ok,
{
}

/// An empty batch is rejected as `InvalidInput` in every state, and the
/// capacity signal never bears on what a request is admitted to.
pub proof fn lemma_admission_rules<D>(layer: ServiceView<D>, clients: usize, count: nat)
    ensures
        admitted_batch(layer, 0) == Err::<Snapshot<D>, ServiceError>(ServiceError::InvalidInput),
        admitted(signalled(layer, clients)) == admitted(layer),
        admitted_batch(signalled(layer, clients), count) == admitted_batch(layer, count),
{
}

} // verus!
