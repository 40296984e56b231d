use crate::error::ResourceError;
use crate::vector_store::{closest_documents, filled, grown, IndexState, StoreModel};
use vstd::prelude::*;

verus! {

/// One step that can change a store: recording its index construction, or
/// adding an embedding under the id the index assigned (or its failure).
pub enum StoreOp<I> {
    Construct(Result<I, String>),
    Add(Result<u64, String>, String),
}

pub open spec fn apply_store_op<I>(m: StoreModel<I>, op: StoreOp<I>) -> StoreModel<I> {
    match op {
        StoreOp::Construct(outcome) => m.constructed(outcome),
        StoreOp::Add(assigned, document) => m.added(assigned, document),
    }
}

pub open spec fn apply_store_ops<I>(m: StoreModel<I>, ops: Seq<StoreOp<I>>) -> StoreModel<I>
    decreases ops.len(),
{
    if ops.len() == 0 {
        m
    } else {
        apply_store_op(apply_store_ops(m, ops.drop_last()), ops.last())
    }
}

/// Once a store's construction failed, it stays failed with the same error
/// through any later steps (construction is never tried again), and every
/// add and every query reports that same error.
pub proof fn lemma_fault_is_permanent<I, D>(
    m: StoreModel<I>,
    e: String,
    ops: Seq<StoreOp<I>>,
    assigned: Result<u64, String>,
    ranked: Result<Seq<(u64, D)>, String>,
)
    requires
        m.state == IndexState::<I>::Faulted(e),
    ensures
        apply_store_ops(m, ops).state == IndexState::<I>::Faulted(e),
        apply_store_ops(m, ops).add_result(assigned) == Err::<(), ResourceError>(
            ResourceError::ConstructionFailure(e),
        ),
        apply_store_ops(m, ops).closest_result(ranked) == Err::<Seq<(D, String)>, ResourceError>(
            ResourceError::ConstructionFailure(e),
        ),
    decreases ops.len(),
{
    if ops.len() > 0 {
        lemma_fault_is_permanent::<I, D>(m, e, ops.drop_last(), assigned, ranked);
    }
}

/// A query on a store that holds no document gives an empty answer, not an
/// error, whatever the index ranked.
pub proof fn lemma_empty_store_gives_empty_answer<I, D>(m: StoreModel<I>, ranked: Seq<(u64, D)>)
    requires
        m.state is Ready,
        m.documents.len() == 0,
    ensures
        m.closest_result(Ok(ranked)) == Ok::<Seq<(D, String)>, ResourceError>(seq![]),
    decreases ranked.len(),
{
    if ranked.len() > 0 {
        lemma_empty_store_gives_empty_answer::<I, D>(m, ranked.drop_last());
    }
}

pub open spec fn all_ok(ids: Seq<u64>) -> Seq<Result<u64, String>> {
    ids.map_values(|id: u64| Ok::<u64, String>(id))
}

proof fn lemma_adds_keep_documents<I>(m: StoreModel<I>, ids: Seq<u64>, docs: Seq<String>, n: nat)
    requires
        m.state is Ready,
        n <= ids.len(),
        ids.len() == docs.len(),
        forall|j: int| 0 <= j < ids.len() ==> #[trigger] ids[j] < usize::MAX,
        forall|j: int, l: int| 0 <= j < l < ids.len() ==> ids[j] != ids[l],
    ensures
        filled(m, all_ok(ids), docs, n) is Ok,
        filled(m, all_ok(ids), docs, n)->Ok_0.state == m.state,
        forall|j: int| #![trigger ids[j]]
            0 <= j < n ==> ids[j] < filled(m, all_ok(ids), docs, n)->Ok_0.documents.len()
                && filled(m, all_ok(ids), docs, n)->Ok_0.documents[ids[j] as int] == Some(docs[j]),
    decreases n,
{
    if n > 0 {
        let k = (n - 1) as nat;
        lemma_adds_keep_documents(m, ids, docs, k);
        let p = filled(m, all_ok(ids), docs, k)->Ok_0;
        assert(all_ok(ids)[k as int] == Ok::<u64, String>(ids[k as int]));
        let q = filled(m, all_ok(ids), docs, n)->Ok_0;
        assert(q == p.added(Ok(ids[k as int]), docs[k as int]));
        assert forall|j: int| #![trigger ids[j]] 0 <= j < n implies ids[j] < q.documents.len()
            && q.documents[ids[j] as int] == Some(docs[j]) by {
            if j < k {
                assert(ids[j] != ids[k as int]);
                assert(grown(p.documents, ids[k as int] + 1)[ids[j] as int] == p.documents[ids[j] as int]);
            }
        }
    }
}

proof fn lemma_closest_keeps_every_ranked<D>(docs: Seq<Option<String>>, ranked: Seq<(u64, D)>)
    requires
        forall|i: int| #![trigger ranked[i]]
            0 <= i < ranked.len() ==> ranked[i].0 < docs.len() && docs[ranked[i].0 as int] is Some,
    ensures
        closest_documents(docs, ranked).len() == ranked.len(),
        forall|i: int| #![trigger ranked[i]]
            0 <= i < ranked.len() ==> closest_documents(docs, ranked)[i] == (
                ranked[i].1,
                docs[ranked[i].0 as int]->Some_0,
            ),
    decreases ranked.len(),
{
    if ranked.len() > 0 {
        let prev = ranked.drop_last();
        assert forall|i: int| #![trigger prev[i]] 0 <= i < prev.len() implies prev[i].0 < docs.len()
            && docs[prev[i].0 as int] is Some by {
            assert(prev[i] == ranked[i]);
        }
        lemma_closest_keeps_every_ranked(docs, prev);
        assert forall|i: int| #![trigger ranked[i]] 0 <= i < ranked.len() implies closest_documents(
            docs,
            ranked,
        )[i] == (ranked[i].1, docs[ranked[i].0 as int]->Some_0) by {
            if i < ranked.len() - 1 {
                assert(prev[i] == ranked[i]);
            }
        }
    }
}

/// After embeddings were added under distinct ids with their documents, an
/// index answer that ranks `k` of those ids (named by their positions `pos`
/// in the order they were added) gives exactly `k` results, in the order the
/// index ranked them, so in its order of distance; each carries its distance
/// and the very document that was added with that id.
pub proof fn lemma_closest_after_adds<I, D>(
    m: StoreModel<I>,
    ids: Seq<u64>,
    docs: Seq<String>,
    ranked: Seq<(u64, D)>,
    pos: Seq<int>,
)
    requires
        m.state is Ready,
        ids.len() == docs.len(),
        forall|j: int| 0 <= j < ids.len() ==> #[trigger] ids[j] < usize::MAX,
        forall|j: int, l: int| 0 <= j < l < ids.len() ==> ids[j] != ids[l],
        pos.len() == ranked.len(),
        forall|i: int| #![trigger pos[i]]
            0 <= i < pos.len() ==> 0 <= pos[i] < ids.len() && ranked[i].0 == ids[pos[i]],
    ensures
        filled(m, all_ok(ids), docs, ids.len()) is Ok,
        ({
            let s = filled(m, all_ok(ids), docs, ids.len())->Ok_0;
            &&& s.closest_result(Ok(ranked)) is Ok
            &&& s.closest_result(Ok(ranked))->Ok_0.len() == ranked.len()
            &&& forall|i: int| #![trigger pos[i]]
                0 <= i < ranked.len() ==> s.closest_result(Ok(ranked))->Ok_0[i] == (ranked[i].1, docs[pos[i]])
        }),
{
    lemma_adds_keep_documents(m, ids, docs, ids.len());
    let s = filled(m, all_ok(ids), docs, ids.len())->Ok_0;
    assert forall|i: int| #![trigger ranked[i]] 0 <= i < ranked.len() implies ranked[i].0 < s.documents.len()
        && s.documents[ranked[i].0 as int] is Some by {
        assert(0 <= pos[i] < ids.len());
        assert(ids[pos[i]] < usize::MAX);
    }
    lemma_closest_keeps_every_ranked(s.documents, ranked);
    assert forall|i: int| #![trigger pos[i]] 0 <= i < ranked.len() implies s.closest_result(
        Ok(ranked),
    )->Ok_0[i] == (ranked[i].1, docs[pos[i]]) by {
        assert(ids[pos[i]] < usize::MAX);
        assert(ranked[i].0 == ids[pos[i]]);
    }
}

} // verus!
