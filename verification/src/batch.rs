//! The results of the batches, by batch identifier.

use vstd::prelude::*;
use vstd::hash_map::StringHashMap;
use crate::error::{ErrorKind, ErrorView, ExeUnitError};
use crate::script::{copy_results, results_view, ExeScriptCommandResult, ResultView};
use crate::text::{joined, owned};

verus! {

/// Whether every entry of a result list carries its own position as its
/// index: the first 0, the next 1, and so on without gaps.
pub open spec fn well_indexed(results: Seq<ResultView>) -> bool {
    forall|i: int| 0 <= i < results.len() ==> (#[trigger] results[i]).index == i
}

/// The result lists of the batches that were accepted.
pub struct BatchStore {
    pub batches: StringHashMap<Vec<ExeScriptCommandResult>>,
}

impl BatchStore {
    /// The store as a map from batch identifier to result list.
    pub open spec fn model(self) -> Map<Seq<char>, Seq<ResultView>> {
        Map::new(
            |id: Seq<char>| self.batches@.contains_key(id),
            |id: Seq<char>| results_view(self.batches@[id]@),
        )
    }

    /// Whether every result list in the store is well indexed.
    pub open spec fn wf(self) -> bool {
        forall|id: Seq<char>| #[trigger]
            self.model().contains_key(id) ==> well_indexed(self.model()[id])
    }

    /// A store that knows no batch.
    pub fn new() -> (r: Self)
        ensures
            r.model() == Map::<Seq<char>, Seq<ResultView>>::empty(),
            r.wf(),
    {
        let r = BatchStore { batches: StringHashMap::new() };
        assert(r.model() =~= Map::<Seq<char>, Seq<ResultView>>::empty());
        r
    }

    /// Makes `batch_id` known, with an empty result list. A list that was
    /// kept under the same identifier is replaced.
    pub fn accept(&mut self, batch_id: &str)
        ensures
            final(self).model() == old(self).model().insert(batch_id@, Seq::empty()),
            old(self).wf() ==> final(self).wf(),
    {
        let list: Vec<ExeScriptCommandResult> = Vec::new();
        assert(results_view(list@) =~= Seq::empty());
        self.batches.insert(owned(batch_id), list);
        assert(self.model() =~= old(self).model().insert(batch_id@, Seq::empty()));
    }

    /// Puts a copy of `results` under `batch_id`, in place of what was
    /// there.
    pub(crate) fn publish(&mut self, batch_id: &str, results: &Vec<ExeScriptCommandResult>)
        ensures
            final(self).model() == old(self).model().insert(batch_id@, results_view(results@)),
            old(self).wf() && well_indexed(results_view(results@)) ==> final(self).wf(),
    {
        self.batches.insert(owned(batch_id), copy_results(results));
        assert(self.model() =~= old(self).model().insert(batch_id@, results_view(results@)));
    }

    /// Whether `batch_id` is known.
    pub fn contains(&self, batch_id: &str) -> (r: bool)
        ensures
            r == self.model().contains_key(batch_id@),
    {
        self.batches.contains_key(batch_id)
    }

    /// The results of `batch_id` so far, in order. An identifier that was
    /// never accepted gives `NotFound` with the words `Batch id=` and the
    /// identifier.
    pub fn results(&self, batch_id: &str) -> (r: Result<Vec<ExeScriptCommandResult>, ExeUnitError>)
        ensures
            match r {
                Ok(list) => self.model().contains_key(batch_id@) && results_view(list@)
                    == self.model()[batch_id@],
                Err(error) => !self.model().contains_key(batch_id@) && error@ == (ErrorView {
                    kind: ErrorKind::NotFound,
                    detail: "Batch id="@ + batch_id@,
                }),
            },
    {
        match self.batches.get(batch_id) {
            Some(list) => Ok(copy_results(list)),
            None => Err(ExeUnitError::new(ErrorKind::NotFound, joined("Batch id=", batch_id))),
        }
    }
}

} // verus!
