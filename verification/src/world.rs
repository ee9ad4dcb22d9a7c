//! The entity registry and component store.
//!
//! A `World` owns a slot per entity id (generation counter and liveness),
//! one column per component kind, and a buffer of deferred component
//! insertions. Insertions through the deferred path become visible only
//! when `maintain` commits the buffer, never in the middle of a tick.
//! Destroyed slots are reused with a bumped generation, so a stale
//! `Entity` handle never touches a reused slot.

use vstd::prelude::*;
use vstd::pervasive::VecAdditionalExecFns;
use crate::num::Decimal;

verus! {

/// A pair of decimal coordinates, as stored in a component.
#[derive(Clone, Copy, PartialEq, Eq, Structural, Debug)]
pub struct Vec2 {
    pub x: Decimal,
    pub y: Decimal,
}

impl Vec2 {
    /// The origin, `{0, 0}`.
    pub open spec fn spec_zero() -> Vec2 {
        Vec2 { x: Decimal::spec_zero(), y: Decimal::spec_zero() }
    }

    /// The origin, `{0, 0}`.
    pub fn zero() -> (r: Vec2)
        ensures
            r == Vec2::spec_zero(),
    {
        Vec2 { x: Decimal::zero(), y: Decimal::zero() }
    }
}

/// A handle to an entity: its slot id and the generation it was created in.
#[derive(Clone, Copy, PartialEq, Eq, Structural, Debug)]
pub struct Entity {
    pub id: u64,
    pub gen: u64,
}

/// One entity slot: its current generation and whether it is live.
#[derive(Clone, Copy, PartialEq, Eq, Structural, Debug)]
pub struct Slot {
    pub gen: u64,
    pub alive: bool,
}

/// A component insertion recorded for the next maintenance point.
#[derive(Clone, Copy, PartialEq, Eq, Structural, Debug)]
pub enum DeferredOp {
    InsertPosition { target: Entity, value: Vec2 },
    InsertVelocity { target: Entity, value: Vec2 },
}

/// The entity the operation is aimed at.
pub open spec fn op_target(op: DeferredOp) -> Entity {
    match op {
        DeferredOp::InsertPosition { target, .. } => target,
        DeferredOp::InsertVelocity { target, .. } => target,
    }
}

/// A recorded operation names a slot that exists, in a generation no newer
/// than the slot's own.
pub open spec fn op_wf(op: DeferredOp, slots: Seq<Slot>) -> bool {
    let e = op_target(op);
    &&& (e.id as int) < slots.len()
    &&& e.gen <= slots[e.id as int].gen
}

/// One deferred insertion, applied to the component columns. It takes
/// effect only if its target slot is still live in the generation the
/// operation was recorded for; a stale operation is dropped.
pub open spec fn apply_op(
    pos: Seq<Option<Vec2>>,
    vel: Seq<Option<Vec2>>,
    slots: Seq<Slot>,
    op: DeferredOp,
) -> (Seq<Option<Vec2>>, Seq<Option<Vec2>>) {
    let e = op_target(op);
    if (e.id as int) < slots.len() && slots[e.id as int].alive && slots[e.id as int].gen == e.gen {
        match op {
            DeferredOp::InsertPosition { value, .. } => (pos.update(e.id as int, Some(value)), vel),
            DeferredOp::InsertVelocity { value, .. } => (pos, vel.update(e.id as int, Some(value))),
        }
    } else {
        (pos, vel)
    }
}

/// A whole buffer of deferred insertions, applied in order.
pub open spec fn apply_ops(
    pos: Seq<Option<Vec2>>,
    vel: Seq<Option<Vec2>>,
    slots: Seq<Slot>,
    ops: Seq<DeferredOp>,
) -> (Seq<Option<Vec2>>, Seq<Option<Vec2>>)
    decreases ops.len(),
{
    if ops.len() == 0 {
        (pos, vel)
    } else {
        let done = apply_ops(pos, vel, slots, ops.drop_last());
        apply_op(done.0, done.1, slots, ops.last())
    }
}

/// What one maintenance step does between two worlds: the buffer's
/// operations are committed in order onto the component columns and the
/// buffer empties; entities and the free list stand.
pub open spec fn maintain_rel(w0: World, w1: World) -> bool {
    &&& w1.pending@.len() == 0
    &&& w1.slots@ == w0.slots@
    &&& w1.free@ == w0.free@
    &&& (w1.positions@, w1.velocities@) == apply_ops(
        w0.positions@,
        w0.velocities@,
        w0.slots@,
        w0.pending@,
    )
}

/// The entity registry and component store, with its deferred buffer.
pub struct World {
    pub slots: Vec<Slot>,
    pub positions: Vec<Option<Vec2>>,
    pub velocities: Vec<Option<Vec2>>,
    pub pending: Vec<DeferredOp>,
    pub free: Vec<u64>,
}

impl World {
    /// Well-formedness: columns are as long as the slot table, the free
    /// list names distinct dead slots that can still bump their
    /// generation, recorded operations name existing slots, and a dead
    /// slot holds no components.
    pub open spec fn wf(self) -> bool {
        &&& self.positions@.len() == self.slots@.len()
        &&& self.velocities@.len() == self.slots@.len()
        &&& forall|i: int|
            0 <= i < self.free@.len() ==> (#[trigger] self.free@[i]) < self.slots@.len()
                && !self.slots@[self.free@[i] as int].alive
                && self.slots@[self.free@[i] as int].gen < u64::MAX
        &&& forall|i: int, j: int|
            0 <= i < j < self.free@.len() ==> #[trigger] self.free@[i] != #[trigger] self.free@[j]
        &&& forall|i: int| 0 <= i < self.pending@.len() ==> op_wf(#[trigger] self.pending@[i], self.slots@)
        &&& forall|i: int|
            0 <= i < self.slots@.len() && !(#[trigger] self.slots@[i]).alive ==> self.positions@[i] is None
                && self.velocities@[i] is None
    }

    /// How many slots the registry has ever allocated.
    pub open spec fn num_slots(self) -> nat {
        self.slots@.len()
    }

    /// Is the entity with this id currently live?
    pub open spec fn live(self, id: u64) -> bool {
        (id as int) < self.slots@.len() && self.slots@[id as int].alive
    }

    /// The committed position component of entity `id`, if any.
    pub open spec fn pos_of(self, id: u64) -> Option<Vec2> {
        if (id as int) < self.positions@.len() {
            self.positions@[id as int]
        } else {
            None
        }
    }

    /// The committed velocity component of entity `id`, if any.
    pub open spec fn vel_of(self, id: u64) -> Option<Vec2> {
        if (id as int) < self.velocities@.len() {
            self.velocities@[id as int]
        } else {
            None
        }
    }

    /// The id the next `create` call will hand out.
    pub open spec fn fresh_id(self) -> u64 {
        if self.free@.len() > 0 {
            self.free@.last()
        } else {
            self.slots@.len() as u64
        }
    }

    /// An empty world: no entities, no components, nothing pending.
    pub fn new() -> (w: World)
        ensures
            w.wf(),
            w.num_slots() == 0,
            w.pending@.len() == 0,
            w.free@.len() == 0,
    {
        World {
            slots: Vec::new(),
            positions: Vec::new(),
            velocities: Vec::new(),
            pending: Vec::new(),
            free: Vec::new(),
        }
    }

    /// Allocates a fresh entity: a dead slot reused in a new generation if
    /// one is free, a new slot otherwise. The entity is live at once but
    /// has no components; its slot was not live before the call.
    pub fn create(&mut self) -> (e: Entity)
        requires
            old(self).wf(),
        ensures
            final(self).wf(),
            e.id == old(self).fresh_id(),
            !old(self).live(e.id),
            final(self).live(e.id),
            final(self).slots@[e.id as int].gen == e.gen,
            (e.id as int) < old(self).slots@.len() ==> e.gen > old(self).slots@[e.id as int].gen,
            final(self).pos_of(e.id) is None,
            final(self).vel_of(e.id) is None,
            final(self).pending@ == old(self).pending@,
            forall|id: u64| id != e.id ==> final(self).live(id) == old(self).live(id),
            forall|id: u64|
                id != e.id ==> final(self).pos_of(id) == old(self).pos_of(id) && final(self).vel_of(id)
                    == old(self).vel_of(id),
            forall|id: u64|
                id != e.id && (id as int) < old(self).slots@.len() ==> final(self).slots@[id as int]
                    == old(self).slots@[id as int],
    {
        if self.free.len() > 0 {
            let id = self.free[self.free.len() - 1];
            proof {
                let k = self.free@.len() - 1;
                assert(self.free@[k] == id);
                assert(id < self.slots@.len() && !self.slots@[id as int].alive
                    && self.slots@[id as int].gen < u64::MAX);
            }
            self.free.pop();
            let cap = self.slots.len();
            assert(id < cap as u64);
            let idx = id as usize;
            let g = self.slots[idx].gen;
            self.slots.set(idx, Slot { gen: g + 1, alive: true });
            Entity { id, gen: g + 1 }
        } else {
            let id = self.slots.len() as u64;
            self.slots.push(Slot { gen: 0, alive: true });
            self.positions.push(None);
            self.velocities.push(None);
            Entity { id, gen: 0 }
        }
    }

    /// Destroys the entity named by a current handle: the slot dies, its
    /// components are dropped, and the slot joins the free list (unless
    /// its generation counter is exhausted, in which case it is retired).
    /// A stale or unknown handle changes nothing and returns false.
    pub fn destroy(&mut self, e: Entity) -> (ok: bool)
        requires
            old(self).wf(),
        ensures
            final(self).wf(),
            ok == (old(self).live(e.id) && old(self).slots@[e.id as int].gen == e.gen),
            !ok ==> *final(self) == *old(self),
            ok ==> !final(self).live(e.id) && final(self).pos_of(e.id) is None && final(self).vel_of(e.id) is None,
            ok ==> final(self).pending@ == old(self).pending@ && final(self).slots@.len() == old(self).slots@.len(),
            ok ==> forall|id: u64| id != e.id ==> final(self).live(id) == old(self).live(id),
            ok ==> forall|id: u64|
                id != e.id ==> final(self).pos_of(id) == old(self).pos_of(id) && final(self).vel_of(id)
                    == old(self).vel_of(id),
    {
        if e.id < self.slots.len() as u64 {
            let idx = e.id as usize;
            let s = self.slots[idx];
            if s.alive && s.gen == e.gen {
                self.slots.set(idx, Slot { gen: s.gen, alive: false });
                self.positions.set(idx, None);
                self.velocities.set(idx, None);
                if s.gen < u64::MAX {
                    proof {
                        assert forall|i: int| 0 <= i < self.free@.len() implies self.free@[i]
                            != e.id by {
                            assert(!old(self).slots@[old(self).free@[i] as int].alive);
                        }
                    }
                    self.free.push(e.id);
                }
                return true;
            }
            return false;
        }
        false
    }

    /// Records a position insertion to take effect at the next
    /// maintenance point. Nothing committed changes yet.
    pub fn insert_position_deferred(&mut self, e: Entity, v: Vec2)
        requires
            old(self).wf(),
            (e.id as int) < old(self).num_slots(),
            e.gen <= old(self).slots@[e.id as int].gen,
        ensures
            final(self).wf(),
            final(self).pending@ == old(self).pending@.push(DeferredOp::InsertPosition { target: e, value: v }),
            final(self).slots@ == old(self).slots@,
            final(self).positions@ == old(self).positions@,
            final(self).velocities@ == old(self).velocities@,
            final(self).free@ == old(self).free@,
    {
        self.pending.push(DeferredOp::InsertPosition { target: e, value: v });
    }

    /// Records a velocity insertion to take effect at the next
    /// maintenance point. Nothing committed changes yet.
    pub fn insert_velocity_deferred(&mut self, e: Entity, v: Vec2)
        requires
            old(self).wf(),
            (e.id as int) < old(self).num_slots(),
            e.gen <= old(self).slots@[e.id as int].gen,
        ensures
            final(self).wf(),
            final(self).pending@ == old(self).pending@.push(DeferredOp::InsertVelocity { target: e, value: v }),
            final(self).slots@ == old(self).slots@,
            final(self).positions@ == old(self).positions@,
            final(self).velocities@ == old(self).velocities@,
            final(self).free@ == old(self).free@,
    {
        self.pending.push(DeferredOp::InsertVelocity { target: e, value: v });
    }

    /// Is the entity with this id currently live?
    pub fn exists_entity(&self, id: u64) -> (r: bool)
        ensures
            r == self.live(id),
    {
        id < self.slots.len() as u64 && self.slots[id as usize].alive
    }

    /// The committed position of entity `id`, if it has one.
    pub fn get_position(&self, id: u64) -> (r: Option<Vec2>)
        ensures
            r == self.pos_of(id),
    {
        if id < self.positions.len() as u64 {
            self.positions[id as usize]
        } else {
            None
        }
    }

    /// The committed velocity of entity `id`, if it has one.
    pub fn get_velocity(&self, id: u64) -> (r: Option<Vec2>)
        ensures
            r == self.vel_of(id),
    {
        if id < self.velocities.len() as u64 {
            self.velocities[id as usize]
        } else {
            None
        }
    }

    /// Overwrites the committed velocity of a live entity that has one.
    /// Returns false, changing nothing, if the entity is not live or has
    /// no committed velocity component.
    pub fn set_velocity(&mut self, id: u64, v: Vec2) -> (ok: bool)
        requires
            old(self).wf(),
        ensures
            final(self).wf(),
            ok == (old(self).live(id) && old(self).vel_of(id) is Some),
            !ok ==> *final(self) == *old(self),
            ok ==> final(self).velocities@ == old(self).velocities@.update(id as int, Some(v)),
            ok ==> final(self).slots@ == old(self).slots@ && final(self).positions@ == old(self).positions@
                && final(self).pending@ == old(self).pending@ && final(self).free@ == old(self).free@,
    {
        if id < self.slots.len() as u64 {
            let idx = id as usize;
            if self.slots[idx].alive && self.velocities[idx].is_some() {
                self.velocities.set(idx, Some(v));
                return true;
            }
            return false;
        }
        false
    }

    /// The maintenance step: commits every recorded operation, in the
    /// order recorded, and empties the buffer. Entities and the free list
    /// are untouched; the component columns become the buffer's effect on
    /// their old contents.
    pub fn maintain(&mut self)
        requires
            old(self).wf(),
        ensures
            final(self).wf(),
            maintain_rel(*old(self), *final(self)),
    {
        let n = self.pending.len();
        let mut i: usize = 0;
        proof {
            assert(old(self).pending@.subrange(0, 0) =~= Seq::<DeferredOp>::empty());
        }
        while i < n
            invariant
                0 <= i <= n,
                self.wf(),
                n == self.pending@.len(),
                self.pending@ == old(self).pending@,
                self.slots@ == old(self).slots@,
                self.free@ == old(self).free@,
                (self.positions@, self.velocities@) == apply_ops(
                    old(self).positions@,
                    old(self).velocities@,
                    old(self).slots@,
                    old(self).pending@.subrange(0, i as int),
                ),
            decreases n - i,
        {
            proof {
                assert(old(self).pending@.subrange(0, i + 1).drop_last() =~= old(
                    self,
                ).pending@.subrange(0, i as int));
                assert(old(self).pending@.subrange(0, i + 1).last() == old(self).pending@[i as int]);
            }
            let op = self.pending[i];
            match op {
                DeferredOp::InsertPosition { target, value } => {
                    if target.id < self.slots.len() as u64 {
                        let idx = target.id as usize;
                        if self.slots[idx].alive && self.slots[idx].gen == target.gen {
                            self.positions.set(idx, Some(value));
                        }
                    }
                },
                DeferredOp::InsertVelocity { target, value } => {
                    if target.id < self.slots.len() as u64 {
                        let idx = target.id as usize;
                        if self.slots[idx].alive && self.slots[idx].gen == target.gen {
                            self.velocities.set(idx, Some(value));
                        }
                    }
                },
            }
            i = i + 1;
        }
        proof {
            assert(old(self).pending@.subrange(0, n as int) =~= old(self).pending@);
        }
        self.pending.clear();
    }
}

} // verus!
