//! The dataset snapshot and the slot that holds the current one.

use std::sync::Arc;
use vstd::prelude::*;

verus! {

/// The parameters a dataset is generated with.
#[derive(Clone, Copy, Debug, PartialEq, Eq, Structural)]
pub struct GenerationParams {
    /// Loop count declared for the challenge.
    pub loop_count: u32,
    /// Instruction count declared for the challenge.
    pub instr_count: u32,
    /// Size in bytes of the buffer the dataset is expanded from.
    pub pre_size: u32,
    /// Size in bytes of the dataset.
    pub dataset_size: u32,
    /// Number of mixing rounds of the expansion.
    pub mixing_rounds: u32,
}

impl GenerationParams {
    /// The parameter set with the given five values.
    pub open spec fn of(
        loop_count: u32,
        instr_count: u32,
        pre_size: u32,
        dataset_size: u32,
        mixing_rounds: u32,
    ) -> GenerationParams {
        GenerationParams { loop_count, instr_count, pre_size, dataset_size, mixing_rounds }
    }

    /// Makes a parameter set of the given five values.
    pub fn new(
        loop_count: u32,
        instr_count: u32,
        pre_size: u32,
        dataset_size: u32,
        mixing_rounds: u32,
    ) -> (params: GenerationParams)
        ensures
            params == GenerationParams::of(
                loop_count,
                instr_count,
                pre_size,
                dataset_size,
                mixing_rounds,
            ),
    {
        GenerationParams { loop_count, instr_count, pre_size, dataset_size, mixing_rounds }
    }
}

/// One immutable instance of the dataset, with the seed and the parameters
/// it was derived from.
///
/// A snapshot is published behind an `Arc`: the slot and every operation that
/// reads it share it, none can change it, and it is freed when the last of
/// them lets go.
pub struct Snapshot<D> {
    /// The seed, as the text the caller sent.
    pub seed: String,
    /// The generation parameters.
    pub params: GenerationParams,
    /// The generated dataset.
    pub dataset: D,
}

/// The slot for the current snapshot: empty until the first publication,
/// then always holding the snapshot published last.
pub struct DatasetHolder<D> {
    slot: Option<Arc<Snapshot<D>>>,
}

/// What a slot holds after `snapshot` is published into it, whatever it held
/// before.
pub open spec fn published<D>(before: Option<Snapshot<D>>, snapshot: Snapshot<D>) -> Option<
    Snapshot<D>,
> {
    Some(snapshot)
}

/// What a slot holds after each of `snapshots` is published into it in turn.
pub open spec fn published_all<D>(before: Option<Snapshot<D>>, snapshots: Seq<Snapshot<D>>) -> Option<
    Snapshot<D>,
>
    decreases snapshots.len(),
{
    if snapshots.len() == 0 {
        before
    } else {
        published(published_all(before, snapshots.drop_last()), snapshots.last())
    }
}

/// `Arc::clone` of std: another reference to the same shared value.
#[verifier::external_body]
fn share<T>(shared: &Arc<T>) -> (another: Arc<T>)
    ensures
        another == *shared,
{
    Arc::clone(shared)
}

impl<D> View for DatasetHolder<D> {
    type V = Option<Snapshot<D>>;

    /// The current snapshot, if one was ever published.
    closed spec fn view(&self) -> Option<Snapshot<D>> {
        match self.slot {
            Some(shared) => Some(*shared),
            None => None,
        }
    }
}

impl<D> DatasetHolder<D> {
    /// An empty slot.
    pub fn new() -> (holder: Self)
        ensures
            holder@ is None,
    {
        DatasetHolder { slot: None }
    }

    /// Installs `snapshot` as the current one and hands back the snapshot it
    /// replaces, which stays valid for whoever still reads it.
    pub fn publish(&mut self, snapshot: Arc<Snapshot<D>>) -> (retired: Option<Arc<Snapshot<D>>>)
        ensures
            final(self)@ == published(old(self)@, *snapshot),
            match retired {
                Some(shared) => old(self)@ == Some(*shared),
                None => old(self)@ is None,
            },
    {
        let retired = self.slot.take();
        self.slot = Some(snapshot);
        retired
    }

    /// A reference of its own to the current snapshot, or `None` if none was
    /// ever published. The reference stays valid whatever is published later.
    pub fn current(&self) -> (snapshot: Option<Arc<Snapshot<D>>>)
        ensures
            match snapshot {
                Some(shared) => self@ == Some(*shared),
                None => self@ is None,
            },
    {
        match &self.slot {
            Some(shared) => Some(share(shared)),
            None => None,
        }
    }

    /// Whether a snapshot is published.
    pub fn is_ready(&self) -> (ready: bool)
        ensures
            ready == self@.is_some(),
    {
        self.slot.is_some()
    }
}

/// However many publications are applied and in whatever order they take
/// effect, the slot then holds the one applied last, whole: one of the
/// snapshots that were published, and nothing of the others.
pub proof fn lemma_published_all_is_last<D>(before: Option<Snapshot<D>>, snapshots: Seq<Snapshot<D>>)
    requires
        snapshots.len() > 0,
    ensures
        published_all(before, snapshots) == Some(snapshots.last()),
        exists|i: int|
            0 <= i < snapshots.len() && published_all(before, snapshots) == Some(
                #[trigger] snapshots[i],
            ),
{
    assert(published_all(before, snapshots) == Some(snapshots[snapshots.len() - 1]));
}

} // verus!
