use std::cell::RefCell;

use floneum_host::broker::ResourceStorage;
use floneum_host::error::ResourceError;
use floneum_host::handle::Handle;
use floneum_host::vector_store::VectorDBWithDocuments;

// A brute-force stand-in for the similarity index: ids in insertion order,
// answers ranked by Euclidean distance. Like a real index it is extended
// through a shared reference.
struct FlatIndex {
    vectors: RefCell<Vec<Vec<f32>>>,
}

impl FlatIndex {
    fn new() -> Self {
        FlatIndex { vectors: RefCell::new(Vec::new()) }
    }

    fn add(&self, v: Vec<f32>) -> Result<u64, String> {
        let mut vectors = self.vectors.borrow_mut();
        vectors.push(v);
        Ok((vectors.len() - 1) as u64)
    }

    fn query(&self, q: &[f32], k: usize) -> Result<Vec<(u64, f32)>, String> {
        let mut all: Vec<(u64, f32)> = self
            .vectors
            .borrow()
            .iter()
            .enumerate()
            .map(|(i, v)| {
                let d: f32 = v.iter().zip(q).map(|(a, b)| (a - b) * (a - b)).sum();
                (i as u64, d.sqrt())
            })
            .collect();
        all.sort_by(|a, b| a.1.partial_cmp(&b.1).unwrap());
        all.truncate(k);
        Ok(all)
    }
}

fn ready_store() -> VectorDBWithDocuments<FlatIndex> {
    let mut db = VectorDBWithDocuments::new();
    db.construct(Ok(FlatIndex::new()));
    db
}

fn add(db: &mut VectorDBWithDocuments<FlatIndex>, v: Vec<f32>, doc: &str) -> Result<(), ResourceError> {
    let id = match db.index() {
        Ok(index) => index.add(v),
        Err(e) => return Err(e),
    };
    db.add_embedding(id, doc.to_string())
}

fn closest(db: &VectorDBWithDocuments<FlatIndex>, q: &[f32], k: usize) -> Result<Vec<(f32, String)>, ResourceError> {
    let ranked = match db.index() {
        Ok(index) => index.query(q, k),
        Err(e) => return Err(e),
    };
    db.get_closest(ranked)
}

#[test]
fn nearest_two_of_three() {
    let mut db = ready_store();
    add(&mut db, vec![1.0, 0.0, 0.0], "alpha").unwrap();
    add(&mut db, vec![0.0, 1.0, 0.0], "beta").unwrap();
    add(&mut db, vec![0.9, 0.1, 0.0], "gamma").unwrap();
    let found = closest(&db, &[1.0, 0.0, 0.0], 2).unwrap();
    let docs: Vec<String> = found.iter().map(|p| p.1.clone()).collect();
    assert_eq!(docs, vec!["alpha".to_string(), "gamma".to_string()]);
    assert!(found[0].0 <= found[1].0);
}

#[test]
fn closest_gives_min_k_n_sorted_with_own_documents() {
    let mut db = ready_store();
    let names = ["a", "b", "c", "d", "e"];
    for (i, name) in names.iter().enumerate() {
        add(&mut db, vec![i as f32, 0.0], name).unwrap();
    }
    for k in 0..=5usize {
        let found = closest(&db, &[0.2, 0.0], k).unwrap();
        assert_eq!(found.len(), k);
        for w in found.windows(2) {
            assert!(w[0].0 <= w[1].0);
        }
        for (i, (_, doc)) in found.iter().enumerate() {
            assert_eq!(doc, names[i]);
        }
    }
}

#[test]
fn empty_store_gives_empty_answer() {
    let db = ready_store();
    assert_eq!(closest(&db, &[1.0, 2.0], 3).unwrap(), Vec::new());
    let ranked: Result<Vec<(u64, f32)>, String> = Ok(vec![(0, 0.5), (4, 1.0)]);
    assert_eq!(db.get_closest(ranked).unwrap(), Vec::new());
}

#[test]
fn missing_slots_are_dropped() {
    let mut db: VectorDBWithDocuments<()> = VectorDBWithDocuments::new();
    db.construct(Ok(()));
    db.add_embedding(Ok(3), "three".to_string()).unwrap();
    db.add_embedding(Ok(1), "one".to_string()).unwrap();
    let ranked: Result<Vec<(u64, u8)>, String> = Ok(vec![(3, 1), (0, 2), (9, 3), (1, 4), (2, 5)]);
    let found = db.get_closest(ranked).unwrap();
    assert_eq!(found, vec![(1u8, "three".to_string()), (4u8, "one".to_string())]);
}

#[test]
fn faulted_store_replays_the_same_error() {
    let mut db: VectorDBWithDocuments<()> = VectorDBWithDocuments::new();
    assert!(!db.is_constructed());
    db.construct(Err("disk full".to_string()));
    assert!(db.is_constructed());
    let expected = ResourceError::ConstructionFailure("disk full".to_string());
    assert_eq!(db.add_embedding(Ok(0), "x".to_string()), Err(expected.clone()));
    db.construct(Ok(()));
    assert_eq!(db.index().err(), Some(expected.clone()));
    assert_eq!(db.add_embedding(Ok(1), "y".to_string()), Err(expected.clone()));
    let ranked: Result<Vec<(u64, u8)>, String> = Ok(vec![(0, 1)]);
    assert_eq!(db.get_closest(ranked), Err(expected.clone()));
    let failed: Result<Vec<(u64, u8)>, String> = Err("query".to_string());
    assert_eq!(db.get_closest(failed), Err(expected));
}

#[test]
fn construction_takes_effect_once() {
    let mut db: VectorDBWithDocuments<u32> = VectorDBWithDocuments::new();
    db.construct(Ok(1));
    db.construct(Ok(2));
    db.construct(Err("late".to_string()));
    assert_eq!(db.index(), Ok(&1));
}

#[test]
fn unbuilt_store_reports_not_constructed() {
    let mut db: VectorDBWithDocuments<u32> = VectorDBWithDocuments::default();
    assert_eq!(db.index(), Err(ResourceError::NotConstructed));
    assert_eq!(db.add_embedding(Ok(0), "x".to_string()), Err(ResourceError::NotConstructed));
    let ranked: Result<Vec<(u64, u8)>, String> = Ok(vec![]);
    assert_eq!(db.get_closest(ranked), Err(ResourceError::NotConstructed));
}

#[test]
fn index_failures_leave_store_usable() {
    let mut db: VectorDBWithDocuments<()> = VectorDBWithDocuments::new();
    db.construct(Ok(()));
    assert_eq!(
        db.add_embedding(Err("bad dimension".to_string()), "x".to_string()),
        Err(ResourceError::IndexFailure("bad dimension".to_string()))
    );
    let failed: Result<Vec<(u64, u8)>, String> = Err("timeout".to_string());
    assert_eq!(db.get_closest(failed), Err(ResourceError::IndexFailure("timeout".to_string())));
    db.add_embedding(Ok(0), "x".to_string()).unwrap();
    let ranked: Result<Vec<(u64, u8)>, String> = Ok(vec![(0, 9)]);
    assert_eq!(db.get_closest(ranked).unwrap(), vec![(9u8, "x".to_string())]);
}

#[test]
fn id_beyond_addressable_slots_is_refused() {
    let mut db: VectorDBWithDocuments<()> = VectorDBWithDocuments::new();
    db.construct(Ok(()));
    assert_eq!(db.add_embedding(Ok(u64::MAX), "x".to_string()), Err(ResourceError::IdOutOfRange(u64::MAX)));
}

#[test]
fn with_embeddings_pairs_ids_and_documents() {
    let db = VectorDBWithDocuments::with_embeddings(
        Ok(()),
        vec![Ok(1), Ok(0), Ok(7)],
        vec!["one".to_string(), "zero".to_string()],
    )
    .unwrap();
    let ranked: Result<Vec<(u64, u8)>, String> = Ok(vec![(0, 1), (1, 2), (7, 3)]);
    assert_eq!(db.get_closest(ranked).unwrap(), vec![(1u8, "zero".to_string()), (2u8, "one".to_string())]);
}

#[test]
fn with_embeddings_stops_at_first_failure() {
    let r = VectorDBWithDocuments::<()>::with_embeddings(
        Ok(()),
        vec![Ok(0), Err("boom".to_string()), Err("later".to_string())],
        vec!["a".to_string(), "b".to_string(), "c".to_string()],
    );
    assert_eq!(r.err(), Some(ResourceError::IndexFailure("boom".to_string())));
    let faulted = VectorDBWithDocuments::<()>::with_embeddings(Err("no disk".to_string()), vec![], vec![]);
    assert!(faulted.is_ok());
    let faulted = VectorDBWithDocuments::<()>::with_embeddings(
        Err("no disk".to_string()),
        vec![Ok(0)],
        vec!["a".to_string()],
    );
    assert_eq!(faulted.err(), Some(ResourceError::ConstructionFailure("no disk".to_string())));
}

#[test]
fn storage_round_trip_for_embedding_dbs() {
    let mut storage: ResourceStorage<(), (), (), ()> = ResourceStorage::new();
    let h = storage.create_embedding_db(Ok(()), vec![Ok(0), Ok(1)], vec!["p".to_string(), "q".to_string()]).unwrap();
    assert!(h.owned);
    storage.add_embedding(h, Ok(2), "r".to_string()).unwrap();
    let ranked: Result<Vec<(u64, u8)>, String> = Ok(vec![(2, 0), (0, 1)]);
    assert_eq!(storage.find_closest_documents(h, ranked).unwrap(), vec!["r".to_string(), "p".to_string()]);
    assert_eq!(storage.drop_embedding_db(h.borrowed()), Err(ResourceError::OwnershipViolation));
    assert_eq!(storage.drop_embedding_db(h), Ok(()));
    assert_eq!(storage.add_embedding(h, Ok(3), "s".to_string()), Err(ResourceError::NotFound));
    let ranked: Result<Vec<(u64, u8)>, String> = Ok(vec![(0, 1)]);
    assert_eq!(storage.find_closest_documents(h, ranked), Err(ResourceError::NotFound));
    assert_eq!(storage.drop_embedding_db(h), Err(ResourceError::NotFound));
}

#[test]
fn failed_creation_stores_nothing() {
    let mut storage: ResourceStorage<(), (), (), ()> = ResourceStorage::new();
    let r = storage.create_embedding_db(Err("no disk".to_string()), vec![Ok(0)], vec!["a".to_string()]);
    assert_eq!(r, Err(ResourceError::ConstructionFailure("no disk".to_string())));
    assert_eq!(storage.embedding_dbs.next_generation(), 0);
    let stale = Handle { index: 0, generation: 0, owned: true };
    assert!(storage.embedding_dbs.get(stale).is_none());
}
