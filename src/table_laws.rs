use crate::error::ResourceError;
use crate::handle::Handle;
use crate::resource_table::TableModel;
use vstd::prelude::*;

verus! {

/// One mutating step on a table. An insert names the vacant slot the table
/// picks; one that names an occupied slot, or comes when the generations are
/// used up, is a step no table takes and leaves the table as it is.
pub enum TableOp<T> {
    Insert(usize, T),
    Release(Handle),
}

pub open spec fn apply_op<T>(m: TableModel<T>, op: TableOp<T>) -> TableModel<T> {
    match op {
        TableOp::Insert(key, v) => {
            if !m.entries.contains_key(key) && m.next_generation < u64::MAX {
                m.inserted(key, v)
            } else {
                m
            }
        },
        TableOp::Release(h) => m.released(h),
    }
}

pub open spec fn apply_ops<T>(m: TableModel<T>, ops: Seq<TableOp<T>>) -> TableModel<T>
    decreases ops.len(),
{
    if ops.len() == 0 {
        m
    } else {
        apply_op(apply_ops(m, ops.drop_last()), ops.last())
    }
}

proof fn lemma_dead_handle_stays_dead<T>(m: TableModel<T>, h: Handle, ops: Seq<TableOp<T>>)
    requires
        !m.is_live(h),
        h.generation < m.next_generation,
    ensures
        !apply_ops(m, ops).is_live(h),
        h.generation < apply_ops(m, ops).next_generation,
    decreases ops.len(),
{
    if ops.len() > 0 {
        lemma_dead_handle_stays_dead(m, h, ops.drop_last());
    }
}

/// After a release through an owning handle, that handle finds nothing, and
/// it goes on finding nothing through any later inserts and releases, even
/// when a new resource reuses its slot; releasing it again reports
/// `NotFound` and changes nothing.
pub proof fn lemma_released_handle_stays_dead<T>(m: TableModel<T>, h: Handle, ops: Seq<TableOp<T>>)
    requires
        h.owned,
        h.generation < m.next_generation,
    ensures
        m.released(h).lookup(h) is None,
        apply_ops(m.released(h), ops).lookup(h) is None,
        apply_ops(m.released(h), ops).released(h) == apply_ops(m.released(h), ops),
        apply_ops(m.released(h), ops).release_result(h) == Err::<(), ResourceError>(
            ResourceError::NotFound,
        ),
{
    lemma_dead_handle_stays_dead(m.released(h), h, ops);
}

/// An insert never reuses the identity of a live resource: the new handle's
/// slot was vacant and its generation is newer than every stored one, every
/// handle that was live still finds the same resource, and the new handle
/// finds the new one.
pub proof fn lemma_insert_is_fresh<T>(m: TableModel<T>, key: usize, v: T)
    requires
        m.wf(),
        !m.entries.contains_key(key),
        m.next_generation < u64::MAX,
    ensures
        m.inserted(key, v).wf(),
        forall|h: Handle| #[trigger] m.is_live(h) ==> TableModel::<T>::slot(h) != key,
        forall|k: usize| #[trigger]
            m.entries.contains_key(k) ==> m.entries[k].0 != m.next_generation,
        forall|h: Handle| #[trigger]
            m.is_live(h) ==> m.inserted(key, v).lookup(h) == m.lookup(h),
        m.inserted(key, v).lookup(Handle { index: key as u64, generation: m.next_generation, owned: true })
            == Some(v),
{
    let n = m.inserted(key, v);
    assert forall|k: usize| #[trigger] n.entries.contains_key(k) implies n.entries[k].0
        < n.next_generation by {
        if k != key {
            assert(m.entries.contains_key(k));
        }
    }
    let nh = Handle { index: key as u64, generation: m.next_generation, owned: true };
    assert(nh.index as usize == key);
}

} // verus!
