use crate::error::ResourceError;
use crate::handle::Handle;
use crate::resource_table::{ResourceTable, TableModel};
use crate::vector_store::{filled, fresh_store, min_len, seq_result, StoreModel, VectorDBWithDocuments};
use vstd::prelude::*;

verus! {

/// The document bodies of a nearest-documents answer, without distances.
pub open spec fn bodies<D>(r: Result<Seq<(D, String)>, ResourceError>) -> Result<Seq<String>, ResourceError> {
    match r {
        Ok(s) => Ok(s.map_values(|p: (D, String)| p.1)),
        Err(e) => Err(e),
    }
}

/// The resources a plugin can reach through handles, one table per kind:
/// language models, embedding stores, pages and content nodes.
#[verifier::reject_recursive_types(M)]
#[verifier::reject_recursive_types(I)]
#[verifier::reject_recursive_types(P)]
#[verifier::reject_recursive_types(N)]
pub struct ResourceStorage<M, I, P, N> {
    pub models: ResourceTable<M>,
    pub embedding_dbs: ResourceTable<VectorDBWithDocuments<I>>,
    pub pages: ResourceTable<P>,
    pub nodes: ResourceTable<N>,
}

impl<M, I, P, N> ResourceStorage<M, I, P, N> {
    pub open spec fn wf(&self) -> bool {
        &&& self.models@.wf()
        &&& self.embedding_dbs@.wf()
        &&& self.pages@.wf()
        &&& self.nodes@.wf()
    }

    /// The model of the embedding store `h` names, if it is live.
    pub open spec fn db_model(&self, h: Handle) -> Option<StoreModel<I>> {
        match self.embedding_dbs@.lookup(h) {
            Some(db) => Some(db@),
            None => None,
        }
    }

    /// Storage with no resource of any kind.
    pub fn new() -> (r: Self)
        ensures
            r.wf(),
            r.models@.entries.is_empty(),
            r.embedding_dbs@.entries.is_empty(),
            r.pages@.entries.is_empty(),
            r.nodes@.entries.is_empty(),
    {
        ResourceStorage {
            models: ResourceTable::new(),
            embedding_dbs: ResourceTable::new(),
            pages: ResourceTable::new(),
            nodes: ResourceTable::new(),
        }
    }

    /// Builds an embedding store from the outcome of its index construction
    /// and the ids the index assigned to the given embeddings, paired in
    /// order with `documents`, and stores it under a fresh owning handle.
    /// A failure while filling it is returned and nothing is stored.
    pub fn create_embedding_db(
        &mut self,
        outcome: Result<I, String>,
        assigned: Vec<Result<u64, String>>,
        documents: Vec<String>,
    ) -> (r: Result<Handle, ResourceError>)
        requires
            old(self).wf(),
            old(self).embedding_dbs@.next_generation < u64::MAX,
        ensures
            final(self).wf(),
            final(self).models == old(self).models,
            final(self).pages == old(self).pages,
            final(self).nodes == old(self).nodes,
            ({
                let made = filled(fresh_store(outcome), assigned@, documents@, min_len(assigned@.len(), documents@.len()));
                match r {
                    Ok(h) => {
                        &&& made is Ok
                        &&& h.owned
                        &&& h.generation == old(self).embedding_dbs@.next_generation
                        &&& !old(self).embedding_dbs@.entries.contains_key(h.index as usize)
                        &&& final(self).db_model(h) == Some(made->Ok_0)
                        &&& final(self).embedding_dbs@ == old(self).embedding_dbs@.inserted(
                            h.index as usize,
                            final(self).embedding_dbs@.lookup(h)->Some_0,
                        )
                    },
                    Err(e) => {
                        &&& made == Err::<StoreModel<I>, ResourceError>(e)
                        &&& final(self).embedding_dbs == old(self).embedding_dbs
                    },
                }
            }),
    {
        let db = VectorDBWithDocuments::with_embeddings(outcome, assigned, documents);
        match db {
            Err(e) => Err(e),
            Ok(db) => Ok(self.embedding_dbs.insert(db)),
        }
    }

    /// Adds an embedding's document to the store `h` names, given the id the
    /// store's index assigned to the embedding (or the index's failure).
    pub fn add_embedding(&mut self, h: Handle, assigned: Result<u64, String>, document: String) -> (r: Result<
        (),
        ResourceError,
    >)
        requires
            old(self).wf(),
        ensures
            final(self).wf(),
            final(self).models == old(self).models,
            final(self).pages == old(self).pages,
            final(self).nodes == old(self).nodes,
            old(self).db_model(h) is None ==> r == Err::<(), ResourceError>(ResourceError::NotFound)
                && final(self).embedding_dbs@ == old(self).embedding_dbs@,
            old(self).db_model(h) is Some ==> {
                &&& r == old(self).db_model(h)->Some_0.add_result(assigned)
                &&& final(self).db_model(h) == Some(old(self).db_model(h)->Some_0.added(assigned, document))
                &&& final(self).embedding_dbs@ == (TableModel {
                    entries: old(self).embedding_dbs@.entries.insert(
                        h.index as usize,
                        (h.generation, final(self).embedding_dbs@.lookup(h)->Some_0),
                    ),
                    next_generation: old(self).embedding_dbs@.next_generation,
                })
            },
    {
        match self.embedding_dbs.get_mut(h) {
            None => Err(ResourceError::NotFound),
            Some(db) => db.add_embedding(assigned, document),
        }
    }

    /// The document bodies of the index's ranked answer for the store `h`
    /// names, in ranked order, without the ids whose slot is empty.
    pub fn find_closest_documents<D: Copy>(&self, h: Handle, ranked: Result<Vec<(u64, D)>, String>) -> (r:
        Result<Vec<String>, ResourceError>)
        ensures
            self.db_model(h) is None ==> r == Err::<Vec<String>, ResourceError>(ResourceError::NotFound),
            self.db_model(h) is Some ==> seq_result(r) == bodies(
                self.db_model(h)->Some_0.closest_result(seq_result(ranked)),
            ),
    {
        let db = match self.embedding_dbs.get(h) {
            None => {
                return Err(ResourceError::NotFound);
            },
            Some(db) => db,
        };
        let found = match db.get_closest(ranked) {
            Err(e) => {
                return Err(e);
            },
            Ok(found) => found,
        };
        let mut out: Vec<String> = Vec::new();
        let mut i: usize = 0;
        while i < found.len()
            invariant
                i <= found@.len(),
                out@ == found@.take(i as int).map_values(|p: (D, String)| p.1),
            decreases found@.len() - i,
        {
            out.push(found[i].1.clone());
            i = i + 1;
            assert(out@ =~= found@.take(i as int).map_values(|p: (D, String)| p.1));
        }
        assert(found@.take(found@.len() as int) =~= found@);
        Ok(out)
    }

    /// Releases the embedding store `h` names; see `ResourceTable::drop_key`.
    pub fn drop_embedding_db(&mut self, h: Handle) -> (r: Result<(), ResourceError>)
        requires
            old(self).wf(),
        ensures
            final(self).wf(),
            final(self).models == old(self).models,
            final(self).pages == old(self).pages,
            final(self).nodes == old(self).nodes,
            final(self).embedding_dbs@ == old(self).embedding_dbs@.released(h),
            r == old(self).embedding_dbs@.release_result(h),
    {
        self.embedding_dbs.drop_key(h)
    }
}

} // verus!
