//! Preimage lists as a lenient caller sends them: a field that may be
//! missing or no list at all, and entries that may be no text.

use vstd::prelude::*;
use crate::error::ServiceError;

verus! {

/// The entries of a list that are text, in their order; the others are
/// passed over.
pub open spec fn text_entries(entries: Seq<Option<String>>) -> Seq<String>
    decreases entries.len(),
{
    if entries.len() == 0 {
        Seq::empty()
    } else {
        match entries.last() {
            Some(text) => text_entries(entries.drop_last()).push(text),
            None => text_entries(entries.drop_last()),
        }
    }
}

/// Collects the text entries of a list, in their order.
pub fn collect_text_entries(entries: &Vec<Option<String>>) -> (texts: Vec<String>)
    ensures
        texts@ == text_entries(entries@),
        texts@.len() <= entries@.len(),
{
    let mut texts: Vec<String> = Vec::new();
    let mut at: usize = 0;
    while at < entries.len()
        invariant
            at <= entries.len(),
            texts@ == text_entries(entries@.take(at as int)),
            texts@.len() <= at,
        decreases entries.len() - at,
    {
        proof {
            assert(entries@.take(at + 1).drop_last() =~= entries@.take(at as int));
            assert(entries@.take(at + 1).last() == entries@[at as int]);
        }
        match &entries[at] {
            Some(text) => {
                texts.push(text.clone());
            },
            None => {},
        }
        at = at + 1;
    }
    proof {
        assert(entries@.take(at as int) =~= entries@);
    }
    texts
}

/// Reads the preimages of a lenient batch request.
///
/// `field` is `None` where the request has no preimage list, and otherwise
/// the list with `None` for each entry that is no text. A missing list is
/// `InvalidInput`; of a list the text entries are the batch, which may be
/// empty.
pub fn lenient_preimages(field: &Option<Vec<Option<String>>>) -> (outcome: Result<
    Vec<String>,
    ServiceError,
>)
    ensures
        match outcome {
            Ok(texts) => field matches Some(entries) && texts@ == text_entries(entries@),
            Err(error) => field is None && error == ServiceError::InvalidInput,
        },
{
    match field {
        Some(entries) => Ok(collect_text_entries(entries)),
        None => Err(ServiceError::InvalidInput),
    }
}

} // verus!
