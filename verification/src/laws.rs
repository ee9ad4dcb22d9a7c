//! The protocol's guarantees, stated and proved once and for all, on top
//! of the contracts of the handler, the store, and the maintenance step.

use vstd::prelude::*;
use crate::json::JsonItem;
use crate::num::{spec_parse_u64, spec_parse_decimal};
use crate::protocol::{
    Response, resp_err, spec_req_id, handle_post, dispatch_post, velocity_post, spawn_post,
};
use crate::world::{
    World, Vec2, Entity, Slot, op_target, op_wf, apply_op, apply_ops, maintain_rel, DeferredOp,
};

verus! {

/// Does this operation, applied against `slots`, change component index `id`?
pub open spec fn op_affects(op: DeferredOp, slots: Seq<Slot>, id: u64) -> bool {
    let e = op_target(op);
    &&& e.id == id
    &&& (id as int) < slots.len()
    &&& slots[id as int].alive
    &&& slots[id as int].gen == e.gen
}

/// A batch of operations none of which touches index `id` leaves both of
/// that index's components as they were.
proof fn lemma_apply_ops_untouched(
    pos: Seq<Option<Vec2>>,
    vel: Seq<Option<Vec2>>,
    slots: Seq<Slot>,
    ops: Seq<DeferredOp>,
    id: u64,
)
    requires
        pos.len() == slots.len(),
        vel.len() == slots.len(),
        forall|k: int| 0 <= k < ops.len() ==> !op_affects(#[trigger] ops[k], slots, id),
    ensures
        (id as int) < pos.len() ==> apply_ops(pos, vel, slots, ops).0[id as int] == pos[id as int],
        (id as int) < vel.len() ==> apply_ops(pos, vel, slots, ops).1[id as int] == vel[id as int],
        apply_ops(pos, vel, slots, ops).0.len() == pos.len(),
        apply_ops(pos, vel, slots, ops).1.len() == vel.len(),
    decreases ops.len(),
{
    if ops.len() > 0 {
        lemma_apply_ops_untouched(pos, vel, slots, ops.drop_last(), id);
        assert(!op_affects(ops.last(), slots, id));
    }
}

/// After a successful `spawn` and the next maintenance step, the new
/// entity holds exactly a zero position and a zero velocity.
pub proof fn lemma_spawn_commits(id: Seq<char>, w0: World, w1: World, w2: World, r: Response)
    requires
        w0.wf(),
        w1.wf(),
        spawn_post(id, w0, w1, r),
        maintain_rel(w1, w2),
    ensures
        r matches Response::Spawned { entity_id, .. } && w2.pos_of(entity_id) == Some(
            Vec2::spec_zero(),
        ) && w2.vel_of(entity_id) == Some(Vec2::spec_zero()) && w2.live(entity_id),
{
    let eid = w0.fresh_id();
    let g = w1.slots@[eid as int].gen;
    let e = Entity { id: eid, gen: g };
    let op_p = DeferredOp::InsertPosition { target: e, value: Vec2::spec_zero() };
    let op_v = DeferredOp::InsertVelocity { target: e, value: Vec2::spec_zero() };
    let prefix = w0.pending@;
    assert(w1.pending@ =~= prefix + seq![op_p, op_v]);
    assert((prefix + seq![op_p, op_v]).drop_last() =~= prefix + seq![op_p]);
    assert((prefix + seq![op_p]).drop_last() =~= prefix);
    assert((prefix + seq![op_p, op_v]).last() == op_v);
    assert((prefix + seq![op_p]).last() == op_p);
    assert forall|k: int| 0 <= k < prefix.len() implies !op_affects(
        #[trigger] prefix[k],
        w1.slots@,
        eid,
    ) by {
        assert(op_wf(w0.pending@[k], w0.slots@));
        let t = op_target(prefix[k]);
        if t.id == eid {
            assert((eid as int) < w0.slots@.len());
            assert(t.gen <= w0.slots@[eid as int].gen);
            assert(g > w0.slots@[eid as int].gen);
        }
    }
    lemma_apply_ops_untouched(w1.positions@, w1.velocities@, w1.slots@, prefix, eid);
    let mid = apply_ops(w1.positions@, w1.velocities@, w1.slots@, prefix);
    assert(w1.live(eid));
    assert((eid as int) < w1.positions@.len() && (eid as int) < w1.velocities@.len());
    let after_p = apply_op(mid.0, mid.1, w1.slots@, op_p);
    let after_v = apply_op(after_p.0, after_p.1, w1.slots@, op_v);
    let s1 = prefix + seq![op_p];
    let full = prefix + seq![op_p, op_v];
    assert(w1.pending@ == full);
    assert(apply_ops(w1.positions@, w1.velocities@, w1.slots@, s1) == after_p) by {
        assert(s1.drop_last() =~= prefix);
        assert(s1.last() == op_p);
    }
    assert(apply_ops(w1.positions@, w1.velocities@, w1.slots@, full) == after_v) by {
        assert(full.drop_last() =~= s1);
        assert(full.last() == op_v);
        assert(apply_ops(w1.positions@, w1.velocities@, w1.slots@, s1) == after_p);
    }
    assert(after_p.0 == mid.0.update(eid as int, Some(Vec2::spec_zero())) && after_p.1 == mid.1);
    assert(after_v.0 == after_p.0 && after_v.1 == after_p.1.update(
        eid as int,
        Some(Vec2::spec_zero()),
    ));
    assert((w2.positions@, w2.velocities@) == after_v);
    assert(w2.pos_of(eid) == Some(Vec2::spec_zero()));
    assert(w2.vel_of(eid) == Some(Vec2::spec_zero()));
    assert(w2.live(eid));
}

/// A `velocity` command whose three params parse, aimed at a live entity
/// with a committed velocity, sets that velocity to exactly the parsed
/// pair and answers with the bare echoed id — no error; nothing else in
/// the world moves.
pub proof fn lemma_velocity_applied(
    id: Seq<char>,
    raw: Seq<Option<String>>,
    w0: World,
    w1: World,
    r: Response,
)
    requires
        w0.wf(),
        velocity_post(id, raw, w0, w1, r),
        raw.len() >= 3,
        spec_parse_u64(raw[0].unwrap()@) is Some,
        spec_parse_decimal(raw[1].unwrap()@) is Some,
        spec_parse_decimal(raw[2].unwrap()@) is Some,
        w0.live(spec_parse_u64(raw[0].unwrap()@).unwrap()),
        w0.vel_of(spec_parse_u64(raw[0].unwrap()@).unwrap()) is Some,
    ensures
        (r matches Response::Done { id: rid } && rid@ == id),
        w1.vel_of(spec_parse_u64(raw[0].unwrap()@).unwrap()) == Some(
            Vec2 {
                x: spec_parse_decimal(raw[1].unwrap()@).unwrap(),
                y: spec_parse_decimal(raw[2].unwrap()@).unwrap(),
            },
        ),
        w1.positions@ == w0.positions@,
        forall|other: u64|
            other != spec_parse_u64(raw[0].unwrap()@).unwrap() ==> w1.vel_of(other) == w0.vel_of(
                other,
            ),
{
    let eid = spec_parse_u64(raw[0].unwrap()@).unwrap();
    assert((eid as int) < w0.velocities@.len());
    assert(w1.velocities@ == w0.velocities@.update(
        eid as int,
        Some(
            Vec2 {
                x: spec_parse_decimal(raw[1].unwrap()@).unwrap(),
                y: spec_parse_decimal(raw[2].unwrap()@).unwrap(),
            },
        ),
    ));
}

/// A `velocity` command with fewer than three params fails with
/// `too few params` and mutates no component — the world stands whole.
pub proof fn lemma_velocity_too_few_params(
    id: Seq<char>,
    raw: Seq<Option<String>>,
    w0: World,
    w1: World,
    r: Response,
)
    requires
        velocity_post(id, raw, w0, w1, r),
        raw.len() < 3,
    ensures
        w1 == w0,
        resp_err(r, Some(id), "too few params"@),
{
}

/// A request whose method is neither `spawn` nor `velocity` fails with
/// `unknown method`, the id echoed, and the world untouched.
pub proof fn lemma_unknown_method(
    id: Seq<char>,
    method: Seq<char>,
    raw: Seq<Option<String>>,
    w0: World,
    w1: World,
    r: Response,
)
    requires
        dispatch_post(id, method, raw, w0, w1, r),
        method != "spawn"@,
        method != "velocity"@,
    ensures
        w1 == w0,
        resp_err(r, Some(id), "unknown method"@),
{
}

/// A line that is not a JSON object, or an object without a string `id`,
/// is answered without an id and with a non-empty error text, and the
/// world is untouched.
pub proof fn lemma_no_id_no_echo(
    msg: Option<Vec<(String, JsonItem)>>,
    w0: World,
    w1: World,
    r: Response,
)
    requires
        handle_post(msg, w0, w1, r),
        msg matches Some(fields) ==> spec_req_id(fields@) is None,
    ensures
        w1 == w0,
        (r matches Response::Failed { id, err } && id is None && err@.len() > 0),
{
    reveal_strlit("not an object");
    reveal_strlit("missing id");
}

} // verus!
