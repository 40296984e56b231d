use crate::error::ResourceError;
use vstd::prelude::*;

verus! {

/// Where a store's similarity index stands. `Ready` and `Faulted` are final:
/// construction is tried once, and a failure is kept and replayed.
pub enum IndexState<I> {
    Uninitialized,
    Ready(I),
    Faulted(String),
}

/// What a store is: its index state and, for each id the index assigned, the
/// document stored with that embedding (or an empty slot).
pub struct StoreModel<I> {
    pub state: IndexState<I>,
    pub documents: Seq<Option<String>>,
}

/// The documents `ranked` reaches, in the order the index ranked them, each
/// beside its distance; an id without a document is left out.
pub open spec fn closest_documents<D>(docs: Seq<Option<String>>, ranked: Seq<(u64, D)>) -> Seq<(D, String)>
    decreases ranked.len(),
{
    if ranked.len() == 0 {
        seq![]
    } else {
        let prev = closest_documents(docs, ranked.drop_last());
        let id = ranked.last().0;
        if id < docs.len() && docs[id as int] is Some {
            prev.push((ranked.last().1, docs[id as int]->Some_0))
        } else {
            prev
        }
    }
}

/// `docs` with empty slots appended until it has at least `n` entries.
pub open spec fn grown(docs: Seq<Option<String>>, n: int) -> Seq<Option<String>> {
    if docs.len() >= n {
        docs
    } else {
        docs + Seq::new((n - docs.len()) as nat, |_i: int| None::<String>)
    }
}

pub open spec fn seq_result<A, E>(r: Result<Vec<A>, E>) -> Result<Seq<A>, E> {
    match r {
        Ok(v) => Ok(v@),
        Err(e) => Err(e),
    }
}

/// A store made from `m` by adding, in order, the first `n` embeddings under
/// the ids the index assigned to them, with their documents; the first
/// failure ends it.
pub open spec fn filled<I>(
    m: StoreModel<I>,
    assigned: Seq<Result<u64, String>>,
    docs: Seq<String>,
    n: nat,
) -> Result<StoreModel<I>, ResourceError>
    decreases n,
{
    if n == 0 {
        Ok(m)
    } else {
        match filled(m, assigned, docs, (n - 1) as nat) {
            Err(e) => Err(e),
            Ok(p) => match p.add_result(assigned[n - 1]) {
                Err(e) => Err(e),
                Ok(_) => Ok(p.added(assigned[n - 1], docs[n - 1])),
            },
        }
    }
}

/// A store whose index was built from nothing yet, with `outcome`.
pub open spec fn fresh_store<I>(outcome: Result<I, String>) -> StoreModel<I> {
    StoreModel { state: IndexState::Uninitialized, documents: Seq::empty() }.constructed(outcome)
}

pub open spec fn min_len(a: nat, b: nat) -> nat {
    if a <= b {
        a
    } else {
        b
    }
}

proof fn lemma_filled_failure_persists<I>(
    m: StoreModel<I>,
    assigned: Seq<Result<u64, String>>,
    docs: Seq<String>,
    k: nat,
    n: nat,
)
    requires
        k <= n,
        filled(m, assigned, docs, k) is Err,
    ensures
        filled(m, assigned, docs, n) == filled(m, assigned, docs, k),
    decreases n,
{
    if n > k {
        lemma_filled_failure_persists(m, assigned, docs, k, (n - 1) as nat);
    }
}

impl<I> StoreModel<I> {
    /// The failure a store in this state reports before asking its index
    /// anything, if any.
    pub open spec fn state_error(self) -> Option<ResourceError> {
        match self.state {
            IndexState::Uninitialized => Some(ResourceError::NotConstructed),
            IndexState::Faulted(e) => Some(ResourceError::ConstructionFailure(e)),
            IndexState::Ready(_) => None,
        }
    }

    /// The store once construction produced `outcome`; only an
    /// uninitialized store takes it.
    pub open spec fn constructed(self, outcome: Result<I, String>) -> StoreModel<I> {
        match self.state {
            IndexState::Uninitialized => StoreModel {
                state: match outcome {
                    Ok(i) => IndexState::Ready(i),
                    Err(e) => IndexState::Faulted(e),
                },
                documents: self.documents,
            },
            _ => self,
        }
    }

    /// What adding an embedding reports, given the id the index assigned to
    /// it or the index's failure.
    pub open spec fn add_result(self, assigned: Result<u64, String>) -> Result<(), ResourceError> {
        match self.state_error() {
            Some(e) => Err(e),
            None => match assigned {
                Err(e) => Err(ResourceError::IndexFailure(e)),
                Ok(id) => if id >= usize::MAX {
                    Err(ResourceError::IdOutOfRange(id))
                } else {
                    Ok(())
                },
            },
        }
    }

    /// The store after adding an embedding: on success the document sits at
    /// the assigned id, slots before it exist, and nothing else changed.
    pub open spec fn added(self, assigned: Result<u64, String>, document: String) -> StoreModel<I> {
        if self.add_result(assigned) is Ok {
            let id = assigned->Ok_0 as int;
            StoreModel {
                state: self.state,
                documents: grown(self.documents, id + 1).update(id, Some(document)),
            }
        } else {
            self
        }
    }

    /// What a nearest-documents query reports, given the index's ranked
    /// `(id, distance)` answer or its failure.
    pub open spec fn closest_result<D>(self, ranked: Result<Seq<(u64, D)>, String>) -> Result<
        Seq<(D, String)>,
        ResourceError,
    > {
        match self.state_error() {
            Some(e) => Err(e),
            None => match ranked {
                Err(e) => Err(ResourceError::IndexFailure(e)),
                Ok(r) => Ok(closest_documents(self.documents, r)),
            },
        }
    }
}

/// A similarity index built on first use, beside the documents of the
/// embeddings it holds, addressed by the ids the index assigns.
///
/// The index itself computes distances and ids; this store keeps the state
/// machine of its construction and the documents, and is told what the index
/// answered.
#[verifier::reject_recursive_types(I)]
pub struct VectorDBWithDocuments<I> {
    state: IndexState<I>,
    documents: Vec<Option<String>>,
}

impl<I> View for VectorDBWithDocuments<I> {
    type V = StoreModel<I>;

    closed spec fn view(&self) -> StoreModel<I> {
        StoreModel { state: self.state, documents: self.documents@ }
    }
}

impl<I> VectorDBWithDocuments<I> {
    /// A store whose index construction gave `outcome`, filled with the
    /// embeddings' assigned ids paired in order with `documents`, as far as
    /// the shorter of the two goes. The first failure is returned instead.
    pub fn with_embeddings(
        outcome: Result<I, String>,
        assigned: Vec<Result<u64, String>>,
        documents: Vec<String>,
    ) -> (r: Result<Self, ResourceError>)
        ensures
            r is Ok ==> filled(fresh_store(outcome), assigned@, documents@, min_len(assigned@.len(), documents@.len()))
                == Ok::<StoreModel<I>, ResourceError>(r->Ok_0@),
            r is Err ==> filled(fresh_store(outcome), assigned@, documents@, min_len(assigned@.len(), documents@.len()))
                == Err::<StoreModel<I>, ResourceError>(r->Err_0),
    {
        let ghost start = fresh_store(outcome);
        let mut db = Self::new();
        db.construct(outcome);
        assert(db@ == start) by {
            assert(db@.documents =~= start.documents);
        }
        let n: usize = if assigned.len() <= documents.len() {
            assigned.len()
        } else {
            documents.len()
        };
        let mut i: usize = 0;
        while i < n
            invariant
                i <= n,
                n == min_len(assigned@.len(), documents@.len()),
                start == fresh_store(outcome),
                filled(start, assigned@, documents@, i as nat) == Ok::<StoreModel<I>, ResourceError>(db@),
            decreases n - i,
        {
            let id = match &assigned[i] {
                Ok(id) => Ok(*id),
                Err(e) => Err(e.clone()),
            };
            let document = documents[i].clone();
            assert(id == assigned@[i as int]);
            assert(document == documents@[i as int]);
            match db.add_embedding(id, document) {
                Err(e) => {
                    assert(filled(start, assigned@, documents@, (i + 1) as nat) == Err::<
                        StoreModel<I>,
                        ResourceError,
                    >(e));
                    proof {
                        lemma_filled_failure_persists(start, assigned@, documents@, (i + 1) as nat, n as nat);
                    }
                    assert(filled(start, assigned@, documents@, min_len(assigned@.len(), documents@.len()))
                        == Err::<StoreModel<I>, ResourceError>(e));
                    return Err(e);
                },
                Ok(()) => {},
            }
            i = i + 1;
        }
        Ok(db)
    }

    /// A store whose index is not built yet and which holds no document.
    pub fn new() -> (r: Self)
        ensures
            r@.state is Uninitialized,
            r@.documents == Seq::<Option<String>>::empty(),
    {
        VectorDBWithDocuments { state: IndexState::Uninitialized, documents: Vec::new() }
    }

    /// Whether construction of the index was already tried.
    pub fn is_constructed(&self) -> (r: bool)
        ensures
            r == !(self@.state is Uninitialized),
    {
        match self.state {
            IndexState::Uninitialized => false,
            _ => true,
        }
    }

    /// Records the outcome of building the index. A store whose construction
    /// was already tried keeps its state, so construction takes effect once.
    pub fn construct(&mut self, outcome: Result<I, String>)
        ensures
            final(self)@ == old(self)@.constructed(outcome),
    {
        if let IndexState::Uninitialized = self.state {
            self.state = match outcome {
                Ok(index) => IndexState::Ready(index),
                Err(e) => IndexState::Faulted(e),
            };
        }
    }

    /// The built index, for the caller to query or extend; or the failure a
    /// store in this state reports.
    pub fn index(&self) -> (r: Result<&I, ResourceError>)
        ensures
            self@.state_error() is None ==> r is Ok && self@.state == IndexState::Ready(*r->Ok_0),
            self@.state_error() is Some ==> r == Err::<&I, ResourceError>(self@.state_error()->Some_0),
    {
        match &self.state {
            IndexState::Uninitialized => Err(ResourceError::NotConstructed),
            IndexState::Faulted(e) => Err(ResourceError::ConstructionFailure(e.clone())),
            IndexState::Ready(index) => Ok(index),
        }
    }

    /// Stores `document` at the id the index assigned to its embedding,
    /// growing the document list with empty slots as needed. A faulted store
    /// replays its construction failure; a failed index call is reported and
    /// leaves the store as it was.
    pub fn add_embedding(&mut self, assigned: Result<u64, String>, document: String) -> (r: Result<
        (),
        ResourceError,
    >)
        ensures
            r == old(self)@.add_result(assigned),
            final(self)@ == old(self)@.added(assigned, document),
            r is Ok ==> final(self)@.documents.len() > assigned->Ok_0,
    {
        let ghost start = self@;
        let ghost given = assigned;
        let ghost doc = document;
        match &self.state {
            IndexState::Uninitialized => {
                return Err(ResourceError::NotConstructed);
            },
            IndexState::Faulted(e) => {
                return Err(ResourceError::ConstructionFailure(e.clone()));
            },
            IndexState::Ready(_) => {},
        }
        let id = match assigned {
            Err(e) => {
                return Err(ResourceError::IndexFailure(e));
            },
            Ok(id) => id,
        };
        if id >= usize::MAX as u64 {
            return Err(ResourceError::IdOutOfRange(id));
        }
        let slot = id as usize;
        let ghost before = self.documents@;
        if slot >= self.documents.len() {
            while self.documents.len() <= slot
                invariant
                    slot < usize::MAX,
                    self@.state == start.state,
                    before.len() <= self.documents@.len() <= slot + 1,
                    self.documents@ == grown(before, self.documents@.len() as int),
                decreases slot + 1 - self.documents.len(),
            {
                self.documents.push(None);
                assert(self.documents@ =~= grown(before, self.documents@.len() as int));
            }
        }
        assert(self.documents@ =~= grown(before, slot + 1));
        self.documents.set(slot, Some(document));
        assert(self@.documents =~= start.added(given, doc).documents);
        Ok(())
    }

    /// The documents of the index's ranked answer, in its order, each beside
    /// its distance; ids whose slot is empty or missing are left out. An
    /// empty store gives an empty answer.
    pub fn get_closest<D: Copy>(&self, ranked: Result<Vec<(u64, D)>, String>) -> (r: Result<
        Vec<(D, String)>,
        ResourceError,
    >)
        ensures
            seq_result(r) == self@.closest_result(seq_result(ranked)),
    {
        match &self.state {
            IndexState::Uninitialized => {
                return Err(ResourceError::NotConstructed);
            },
            IndexState::Faulted(e) => {
                return Err(ResourceError::ConstructionFailure(e.clone()));
            },
            IndexState::Ready(_) => {},
        }
        let ranked = match ranked {
            Err(e) => {
                return Err(ResourceError::IndexFailure(e));
            },
            Ok(v) => v,
        };
        let mut out: Vec<(D, String)> = Vec::new();
        let mut i: usize = 0;
        while i < ranked.len()
            invariant
                i <= ranked@.len(),
                out@ == closest_documents(self.documents@, ranked@.take(i as int)),
            decreases ranked@.len() - i,
        {
            let (id, distance) = ranked[i];
            assert(ranked@.take(i + 1).drop_last() =~= ranked@.take(i as int));
            if id < self.documents.len() as u64 {
                if let Some(doc) = &self.documents[id as usize] {
                    out.push((distance, doc.clone()));
                }
            }
            i = i + 1;
        }
        assert(ranked@.take(ranked@.len() as int) =~= ranked@);
        Ok(out)
    }
}

impl<I> Default for VectorDBWithDocuments<I> {
    fn default() -> (r: Self)
        ensures
            r@.state is Uninitialized,
            r@.documents == Seq::<Option<String>>::empty(),
    {
        Self::new()
    }
}

} // verus!
