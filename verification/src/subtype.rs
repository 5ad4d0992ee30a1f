//! Entities that come in kinds: a base row that names the kind, and one
//! satellite row in the table of that kind.
//!
//! This module is the model against which the mutations of such entities
//! are stated. For one id it records which kind the base row names, if
//! there is a base row, and in which satellite tables a row for the id
//! stands. Each statement of a mutation is read as one operation on that
//! record; the record is in order when the satellite rows are exactly the
//! one that the base row calls for.

use crate::transaction::StepView;
use vstd::prelude::*;

verus! {

/// What a statement does to the rows of one id.
pub enum Op<K> {
    /// Inserts the base row, of the given kind.
    InsertBase(K),
    /// Sets the kind of the base row, where there is one.
    UpdateBase(K),
    /// Deletes the base row.
    DeleteBase,
    /// Inserts the satellite row of the given kind.
    InsertSatellite(K),
    /// Updates the satellite row of the given kind, where there is one.
    UpdateSatellite(K),
    /// Deletes the satellite row of the given kind, where there is one.
    DeleteSatellite(K),
    /// Touches other tables only.
    Other,
}

/// The rows of one id: the kind that the base row names, and the kinds in
/// whose tables a satellite row stands.
#[verifier::reject_recursive_types(K)]
pub struct Entity<K> {
    pub base: Option<K>,
    pub satellites: Set<K>,
}

/// A step of a transaction together with what it does to the rows of the
/// entity.
pub struct Meant<K> {
    pub op: Op<K>,
    pub step: StepView,
}

/// The steps of a run.
pub open spec fn steps_of<K>(run: Seq<Meant<K>>) -> Seq<StepView> {
    Seq::new(run.len(), |i: int| run[i].step)
}

/// The operations of a run.
pub open spec fn ops_of<K>(run: Seq<Meant<K>>) -> Seq<Op<K>> {
    Seq::new(run.len(), |i: int| run[i].op)
}

/// A step that touches other tables only.
pub open spec fn other<K>(step: StepView) -> Meant<K> {
    Meant { op: Op::Other, step }
}

/// The rows of an id that has none.
pub open spec fn absent<K>() -> Entity<K> {
    Entity { base: None, satellites: Set::empty() }
}

/// The rows of an entity of the given kind that is in order.
pub open spec fn live<K>(kind: K) -> Entity<K> {
    Entity { base: Some(kind), satellites: Set::empty().insert(kind) }
}

/// Whether the rows are in order: no base row and no satellite row, or a
/// base row and the one satellite row of its kind.
pub open spec fn in_order<K>(e: Entity<K>) -> bool {
    match e.base {
        Some(kind) => e == live(kind),
        None => e == absent::<K>(),
    }
}

/// The rows after one operation.
pub open spec fn apply<K>(e: Entity<K>, op: Op<K>) -> Entity<K> {
    match op {
        Op::InsertBase(kind) => Entity { base: Some(kind), satellites: e.satellites },
        Op::UpdateBase(kind) => Entity {
            base: if e.base is Some {
                Some(kind)
            } else {
                None
            },
            satellites: e.satellites,
        },
        Op::DeleteBase => Entity { base: None, satellites: e.satellites },
        Op::InsertSatellite(kind) => Entity { base: e.base, satellites: e.satellites.insert(kind) },
        Op::UpdateSatellite(_) => e,
        Op::DeleteSatellite(kind) => Entity { base: e.base, satellites: e.satellites.remove(kind) },
        Op::Other => e,
    }
}

/// The rows after a run of operations.
pub open spec fn apply_all<K>(e: Entity<K>, ops: Seq<Op<K>>) -> Entity<K>
    decreases ops.len(),
{
    if ops.len() == 0 {
        e
    } else {
        apply(apply_all(e, ops.drop_last()), ops.last())
    }
}

/// The rows after a transaction of the given operations: all of them
/// applied where it was committed, none where it was rolled back.
pub open spec fn transact<K>(e: Entity<K>, ops: Seq<Op<K>>, committed: bool) -> Entity<K> {
    if committed {
        apply_all(e, ops)
    } else {
        e
    }
}

/// The operation that writes the satellite row of the kind `fields` for
/// an entity whose satellite row is of the kind `current`: an update where
/// the two agree, an insert where they do not.
pub open spec fn write_satellite<K>(current: K, fields: K) -> Op<K> {
    if fields == current {
        Op::UpdateSatellite(fields)
    } else {
        Op::InsertSatellite(fields)
    }
}

/// The operations that remove the satellite row of the kind `current`
/// where the entity changes to another kind.
pub open spec fn drop_satellite<K>(current: K, kind: K) -> Seq<Op<K>> {
    if current != kind {
        seq![Op::DeleteSatellite(current)]
    } else {
        Seq::empty()
    }
}

/// A run of operations is applied one part after the other.
pub proof fn lemma_apply_parts<K>(e: Entity<K>, first: Seq<Op<K>>, second: Seq<Op<K>>)
    ensures
        apply_all(e, first + second) == apply_all(apply_all(e, first), second),
    decreases second.len(),
{
    if second.len() == 0 {
        assert(first + second =~= first);
    } else {
        lemma_apply_parts(e, first, second.drop_last());
        assert((first + second).drop_last() =~= first + second.drop_last());
        assert((first + second).last() == second.last());
    }
}

/// The operations of a run in two parts are those of the parts.
pub proof fn lemma_ops_of_parts<K>(first: Seq<Meant<K>>, second: Seq<Meant<K>>)
    ensures
        ops_of(first + second) == ops_of(first) + ops_of(second),
        steps_of(first + second) == steps_of(first) + steps_of(second),
{
    assert(ops_of(first + second) =~= ops_of(first) + ops_of(second));
    assert(steps_of(first + second) =~= steps_of(first) + steps_of(second));
}

/// A run of one operation.
pub proof fn lemma_apply_one<K>(e: Entity<K>, op: Op<K>)
    ensures
        apply_all(e, seq![op]) == apply(e, op),
{
    assert(seq![op].drop_last() =~= Seq::<Op<K>>::empty());
    assert(apply_all(e, Seq::<Op<K>>::empty()) == e);
}

/// Operations on other tables leave the rows as they are.
pub proof fn lemma_others_change_nothing<K>(e: Entity<K>, ops: Seq<Op<K>>)
    requires
        forall|i: int| 0 <= i < ops.len() ==> ops[i] is Other,
    ensures
        apply_all(e, ops) == e,
    decreases ops.len(),
{
    if ops.len() > 0 {
        lemma_others_change_nothing(e, ops.drop_last());
    }
}

/// Creation: on an id without rows, inserting the base row and the
/// satellite row of its kind gives an entity in order.
pub proof fn lemma_create_in_order<K>(kind: K)
    ensures
        apply(apply(absent::<K>(), Op::InsertBase(kind)), Op::InsertSatellite(kind)) == live(kind),
        in_order(live(kind)),
{
}

/// A change of kind: on an entity in order, deleting the old satellite
/// row where the kind changes, setting the kind, and writing the satellite
/// row of the new kind gives an entity in order, in whichever order the
/// base row and the old satellite row are dealt with.
pub proof fn lemma_retype_in_order<K>(current: K, kind: K)
    ensures
        apply(
            apply(apply_all(live(current), drop_satellite(current, kind)), Op::UpdateBase(kind)),
            write_satellite(current, kind),
        ) == live(kind),
        apply(
            apply_all(apply(live(current), Op::UpdateBase(kind)), drop_satellite(current, kind)),
            write_satellite(current, kind),
        ) == live(kind),
{
    let e = live(current);
    if current != kind {
        lemma_apply_one(e, Op::DeleteSatellite(current));
        lemma_apply_one(apply(e, Op::UpdateBase(kind)), Op::DeleteSatellite(current));
        assert(Set::<K>::empty().insert(current).remove(current).insert(kind) =~= Set::<K>::empty(
        ).insert(kind));
    } else {
        assert(apply_all(e, Seq::<Op<K>>::empty()) == e);
        assert(apply_all(apply(e, Op::UpdateBase(kind)), Seq::<Op<K>>::empty()) == apply(
            e,
            Op::UpdateBase(kind),
        ));
    }
}

/// Deletion: on an entity in order, deleting the satellite row of its kind
/// and the base row leaves no row.
pub proof fn lemma_delete_leaves_nothing<K>(current: K)
    ensures
        apply(apply(live(current), Op::DeleteSatellite(current)), Op::DeleteBase) == absent::<K>(),
        in_order(absent::<K>()),
{
    assert(Set::<K>::empty().insert(current).remove(current) =~= Set::<K>::empty());
}

} // verus!
