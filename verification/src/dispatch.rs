//! Digest computation for one preimage and for an ordered batch.
//!
//! The digest function is the caller's: any `Fn(&[u8], &D, u32, u32) ->
//! Vec<u8>` from preimage bytes, dataset, loop count and instruction count to
//! a digest. What this module adds is fixed: the bytes handed to it are the
//! UTF-8 bytes of the preimage text, a digest is returned as lowercase
//! hexadecimal text, and a batch comes back in the order it went in.

use vstd::prelude::*;
use vstd::utf8::encode_utf8;
use rayon::iter::IntoParallelRefIterator;
use rayon::iter::ParallelIterator;
use crate::encoding::digest_text;
use crate::encoding::hex_text;

verus! {

/// Whether the digest function accepts every input.
pub open spec fn digest_is_total<D, F: Fn(&[u8], &D, u32, u32) -> Vec<u8>>(digest: &F) -> bool {
    forall|bytes: &[u8], dataset: &D, loops: u32, instrs: u32| #[trigger]
        digest.requires((bytes, dataset, loops, instrs))
}

/// Whether the digest function is a function of the preimage bytes, the
/// dataset and the two counts: equal inputs never give different digests.
pub open spec fn digest_is_function<D, F: Fn(&[u8], &D, u32, u32) -> Vec<u8>>(digest: &F) -> bool {
    forall|
        first: &[u8],
        second: &[u8],
        dataset: &D,
        loops: u32,
        instrs: u32,
        first_raw: Vec<u8>,
        second_raw: Vec<u8>,
    |
        first@ == second@ && #[trigger] digest.ensures((first, dataset, loops, instrs), first_raw)
            && #[trigger] digest.ensures((second, dataset, loops, instrs), second_raw)
            ==> first_raw@ == second_raw@
}

/// Whether `text` is a result the digest function may give for `preimage`:
/// the hexadecimal text of a digest that the function relates to the
/// preimage's UTF-8 bytes, the dataset and the two counts.
pub open spec fn hash_yields<D, F: Fn(&[u8], &D, u32, u32) -> Vec<u8>>(
    digest: &F,
    dataset: &D,
    loops: u32,
    instrs: u32,
    preimage: Seq<char>,
    text: Seq<char>,
) -> bool {
    exists|bytes: &[u8], raw: Vec<u8>|
        bytes@ == encode_utf8(preimage) && #[trigger] digest.ensures(
            (bytes, dataset, loops, instrs),
            raw,
        ) && text == hex_text(raw@)
}

/// Whether `texts` is a result for the batch `preimages`: as long as the
/// batch, and at every position a result for the preimage at that position.
pub open spec fn batch_yields<D, F: Fn(&[u8], &D, u32, u32) -> Vec<u8>>(
    digest: &F,
    dataset: &D,
    loops: u32,
    instrs: u32,
    preimages: Seq<String>,
    texts: Seq<String>,
) -> bool {
    &&& texts.len() == preimages.len()
    &&& forall|i: int|
        0 <= i < preimages.len() ==> hash_yields(
            digest,
            dataset,
            loops,
            instrs,
            #[trigger] preimages[i]@,
            texts[i]@,
        )
}

/// Hashes one preimage against a dataset and renders the digest as text.
pub fn hash_text<D, F: Fn(&[u8], &D, u32, u32) -> Vec<u8>>(
    preimage: &str,
    dataset: &D,
    loops: u32,
    instrs: u32,
    digest: &F,
) -> (text: String)
    requires
        digest_is_total(digest),
    ensures
        hash_yields(digest, dataset, loops, instrs, preimage@, text@),
{
    let bytes = preimage.as_bytes();
    let raw = digest(bytes, dataset, loops, instrs);
    digest_text(raw.as_slice())
}

/// `par_iter`, `map` and `collect` of rayon on a vector of preimages: each
/// preimage is hashed by `hash_text` on a worker of the pool, and the results
/// are collected into a vector as long as the input, the result for the
/// preimage at a position standing at that position.
#[verifier::external_body]
fn par_hash_all<D: Sync, F: Fn(&[u8], &D, u32, u32) -> Vec<u8> + Sync>(
    preimages: &Vec<String>,
    dataset: &D,
    loops: u32,
    instrs: u32,
    digest: &F,
) -> (texts: Vec<String>)
    requires
        digest_is_total(digest),
    ensures
        batch_yields(digest, dataset, loops, instrs, preimages@, texts@),
{
    preimages
        .par_iter()
        .map(|preimage| hash_text(preimage.as_str(), dataset, loops, instrs, digest))
        .collect()
}

/// Hashes every preimage of a batch against one dataset, in parallel on the
/// worker pool, and returns the texts in the order of the preimages.
///
/// An empty batch gives an empty result; turning empty batches away is the
/// serving layer's part.
pub fn run_batch<D: Sync, F: Fn(&[u8], &D, u32, u32) -> Vec<u8> + Sync>(
    preimages: &Vec<String>,
    dataset: &D,
    loops: u32,
    instrs: u32,
    digest: &F,
) -> (texts: Vec<String>)
    requires
        digest_is_total(digest),
    ensures
        batch_yields(digest, dataset, loops, instrs, preimages@, texts@),
        texts@.len() == preimages@.len(),
{
    par_hash_all(preimages, dataset, loops, instrs, digest)
}

/// With a digest function that is a function, hashing is one too: two results
/// for the same preimage against the same dataset are the same text.
pub proof fn lemma_hash_is_function<D, F: Fn(&[u8], &D, u32, u32) -> Vec<u8>>(
    digest: &F,
    dataset: &D,
    loops: u32,
    instrs: u32,
    preimage: Seq<char>,
    first: Seq<char>,
    second: Seq<char>,
)
    requires
        digest_is_function(digest),
        hash_yields(digest, dataset, loops, instrs, preimage, first),
        hash_yields(digest, dataset, loops, instrs, preimage, second),
    ensures
        first == second,
{
    let (first_bytes, first_raw) = choose|bytes: &[u8], raw: Vec<u8>|
        bytes@ == encode_utf8(preimage) && #[trigger] digest.ensures(
            (bytes, dataset, loops, instrs),
            raw,
        ) && first == hex_text(raw@);
    let (second_bytes, second_raw) = choose|bytes: &[u8], raw: Vec<u8>|
        bytes@ == encode_utf8(preimage) && #[trigger] digest.ensures(
            (bytes, dataset, loops, instrs),
            raw,
        ) && second == hex_text(raw@);
    assert(first_raw@ == second_raw@);
}

/// With a digest function that is a function, a batch result holds at every
/// position exactly the text that hashing the preimage at that position alone
/// against the same dataset gives.
pub proof fn lemma_batch_matches_single<D, F: Fn(&[u8], &D, u32, u32) -> Vec<u8>>(
    digest: &F,
    dataset: &D,
    loops: u32,
    instrs: u32,
    preimages: Seq<String>,
    texts: Seq<String>,
    at: int,
    single: Seq<char>,
)
    requires
        digest_is_function(digest),
        batch_yields(digest, dataset, loops, instrs, preimages, texts),
        0 <= at < preimages.len(),
        hash_yields(digest, dataset, loops, instrs, preimages[at]@, single),
    ensures
        texts.len() == preimages.len(),
        texts[at]@ == single,
{
    lemma_hash_is_function(digest, dataset, loops, instrs, preimages[at]@, texts[at]@, single);
}

} // verus!
