//! The protocol handler: validates one parsed command line and applies it
//! to the world.
//!
//! A line must be a JSON object with a string `id`, a string `method`, and
//! an array `params` of strings, checked in that order; the first failure
//! answers with an error and touches nothing. `spawn` creates an entity
//! with deferred zero position and velocity components; `velocity`
//! overwrites the committed velocity of a live entity. Every command gets
//! exactly one response, and the `id` is echoed back whenever the request
//! yielded one.

use vstd::prelude::*;
use crate::json::{JsonItem, spec_lookup, lookup};
use crate::num::{spec_parse_u64, spec_parse_decimal, parse_u64, parse_decimal};
use crate::world::{World, Vec2, Entity, DeferredOp};

verus! {

/// The answer to one command.
#[derive(Debug, PartialEq)]
pub enum Response {
    /// A `spawn` succeeded; `entity_id` names the new entity.
    Spawned { id: String, entity_id: u64 },
    /// A `velocity` succeeded; nothing to report beyond the echoed id.
    Done { id: String },
    /// The command failed; `id` is echoed iff the request yielded one.
    Failed { id: Option<String>, err: String },
}

/// Does `r` report failure `err`, echoing `id` (or no id for `None`)?
pub open spec fn resp_err(r: Response, id: Option<Seq<char>>, err: Seq<char>) -> bool {
    match r {
        Response::Failed { id: rid, err: re } => re@ == err && (match (rid, id) {
            (Some(a), Some(b)) => a@ == b,
            (None, None) => true,
            _ => false,
        }),
        _ => false,
    }
}

/// The request's `id`, if it is present and a string.
pub open spec fn spec_req_id(fields: Seq<(String, JsonItem)>) -> Option<Seq<char>> {
    match spec_lookup(fields, "id"@) {
        Some(JsonItem::Str(s)) => Some(s@),
        _ => None,
    }
}

/// The request's `method`, if it is present and a string.
pub open spec fn spec_req_method(fields: Seq<(String, JsonItem)>) -> Option<Seq<char>> {
    match spec_lookup(fields, "method"@) {
        Some(JsonItem::Str(s)) => Some(s@),
        _ => None,
    }
}

/// The request's `params` array, if present and an array; elements keep
/// their string-or-not shape.
pub open spec fn spec_req_params(fields: Seq<(String, JsonItem)>) -> Option<Seq<Option<String>>> {
    match spec_lookup(fields, "params"@) {
        Some(JsonItem::Arr(a)) => Some(a@),
        _ => None,
    }
}

/// Every element of the array is a string.
pub open spec fn all_strings(a: Seq<Option<String>>) -> bool {
    forall|i: int| 0 <= i < a.len() ==> a[i] is Some
}

/// What a successful `spawn` does between `w0` and `w1`: one entity comes
/// live under the next fresh id, bare of components, with zero position
/// and velocity insertions newly recorded for the next maintenance point;
/// everything else stands.
pub open spec fn spawn_post(id: Seq<char>, w0: World, w1: World, r: Response) -> bool {
    let eid = w0.fresh_id();
    let e = Entity { id: eid, gen: w1.slots@[eid as int].gen };
    &&& (r matches Response::Spawned { id: rid, entity_id } && rid@ == id && entity_id == eid)
    &&& !w0.live(eid)
    &&& w1.live(eid)
    &&& ((eid as int) < w0.slots@.len() ==> e.gen > w0.slots@[eid as int].gen)
    &&& w1.pos_of(eid) is None
    &&& w1.vel_of(eid) is None
    &&& w1.pending@ == w0.pending@ + seq![
        DeferredOp::InsertPosition { target: e, value: Vec2::spec_zero() },
        DeferredOp::InsertVelocity { target: e, value: Vec2::spec_zero() },
    ]
    &&& forall|other: u64| other != eid ==> w1.live(other) == w0.live(other)
    &&& forall|other: u64|
        other != eid ==> w1.pos_of(other) == w0.pos_of(other) && w1.vel_of(other) == w0.vel_of(
            other,
        )
    &&& forall|other: u64|
        other != eid && (other as int) < w0.slots@.len() ==> w1.slots@[other as int]
            == w0.slots@[other as int]
}

/// What a `velocity` command does: with fewer than three params, or params
/// that do not parse as an id and two coordinates, or a target without a
/// live committed velocity, it fails and touches nothing; otherwise it
/// overwrites exactly that one velocity.
pub open spec fn velocity_post(
    id: Seq<char>,
    raw: Seq<Option<String>>,
    w0: World,
    w1: World,
    r: Response,
) -> bool {
    if raw.len() < 3 {
        w1 == w0 && resp_err(r, Some(id), "too few params"@)
    } else {
        let p0 = spec_parse_u64(raw[0].unwrap()@);
        let p1 = spec_parse_decimal(raw[1].unwrap()@);
        let p2 = spec_parse_decimal(raw[2].unwrap()@);
        if p0 is None || p1 is None || p2 is None {
            w1 == w0 && resp_err(r, Some(id), "invalid number"@)
        } else {
            let eid = p0.unwrap();
            let v = Vec2 { x: p1.unwrap(), y: p2.unwrap() };
            if w0.live(eid) && w0.vel_of(eid) is Some {
                &&& (r matches Response::Done { id: rid } && rid@ == id)
                &&& w1.velocities@ == w0.velocities@.update(eid as int, Some(v))
                &&& w1.slots@ == w0.slots@
                &&& w1.positions@ == w0.positions@
                &&& w1.pending@ == w0.pending@
                &&& w1.free@ == w0.free@
            } else {
                w1 == w0 && resp_err(r, Some(id), "unknown entity"@)
            }
        }
    }
}

/// Dispatch on a validated request's method.
pub open spec fn dispatch_post(
    id: Seq<char>,
    method: Seq<char>,
    raw: Seq<Option<String>>,
    w0: World,
    w1: World,
    r: Response,
) -> bool {
    if method == "spawn"@ {
        spawn_post(id, w0, w1, r)
    } else if method == "velocity"@ {
        velocity_post(id, raw, w0, w1, r)
    } else {
        w1 == w0 && resp_err(r, Some(id), "unknown method"@)
    }
}

/// The whole contract of handling one parsed line: the validation ladder
/// of the protocol, each rung failing with its own error and an untouched
/// world, and the dispatch at the top.
pub open spec fn handle_post(
    msg: Option<Vec<(String, JsonItem)>>,
    w0: World,
    w1: World,
    r: Response,
) -> bool {
    match msg {
        None => w1 == w0 && resp_err(r, None, "not an object"@),
        Some(fields_vec) => {
            let fields = fields_vec@;
            match spec_req_id(fields) {
                None => w1 == w0 && resp_err(r, None, "missing id"@),
                Some(id) => match spec_req_method(fields) {
                    None => w1 == w0 && resp_err(r, Some(id), "missing method"@),
                    Some(method) => match spec_req_params(fields) {
                        None => w1 == w0 && resp_err(r, Some(id), "missing/invalid params"@),
                        Some(raw) => if !all_strings(raw) {
                            w1 == w0 && resp_err(r, Some(id), "missing/invalid params"@)
                        } else {
                            dispatch_post(id, method, raw, w0, w1, r)
                        },
                    },
                },
            }
        },
    }
}

/// Handles one parsed command line against the world and returns its one
/// response, exactly as `handle_post` describes.
#[verifier::loop_isolation(false)]
pub fn handle_message(world: &mut World, msg: Option<Vec<(String, JsonItem)>>) -> (r: Response)
    requires
        old(world).wf(),
    ensures
        final(world).wf(),
        handle_post(msg, *old(world), *final(world), r),
{
    let fields = match msg {
        Some(fields) => fields,
        None => {
            return Response::Failed { id: None, err: String::from_str("not an object") };
        },
    };
    let id = match lookup(&fields, &String::from_str("id")) {
        Some(JsonItem::Str(s)) => s.clone(),
        _ => {
            return Response::Failed { id: None, err: String::from_str("missing id") };
        },
    };
    let method = match lookup(&fields, &String::from_str("method")) {
        Some(JsonItem::Str(s)) => s.clone(),
        _ => {
            return Response::Failed { id: Some(id), err: String::from_str("missing method") };
        },
    };
    let params = match lookup(&fields, &String::from_str("params")) {
        Some(JsonItem::Arr(a)) => a,
        _ => {
            return Response::Failed {
                id: Some(id),
                err: String::from_str("missing/invalid params"),
            };
        },
    };
    let n = params.len();
    let mut i: usize = 0;
    while i < n
        invariant
            0 <= i <= n,
            n == params@.len(),
            forall|j: int| 0 <= j < i ==> params@[j] is Some,
        decreases n - i,
    {
        if params[i].is_none() {
            return Response::Failed {
                id: Some(id),
                err: String::from_str("missing/invalid params"),
            };
        }
        i = i + 1;
    }
    if method.eq(&String::from_str("spawn")) {
        let e = world.create();
        world.insert_position_deferred(e, Vec2::zero());
        world.insert_velocity_deferred(e, Vec2::zero());
        proof {
            assert(world.pending@ =~= old(world).pending@ + seq![
                DeferredOp::InsertPosition { target: e, value: Vec2::spec_zero() },
                DeferredOp::InsertVelocity { target: e, value: Vec2::spec_zero() },
            ]);
        }
        Response::Spawned { id, entity_id: e.id }
    } else if method.eq(&String::from_str("velocity")) {
        if n < 3 {
            return Response::Failed { id: Some(id), err: String::from_str("too few params") };
        }
        let p0 = match &params[0] {
            Some(s) => parse_u64(s.as_str()),
            None => None,
        };
        let p1 = match &params[1] {
            Some(s) => parse_decimal(s.as_str()),
            None => None,
        };
        let p2 = match &params[2] {
            Some(s) => parse_decimal(s.as_str()),
            None => None,
        };
        let (eid, x, y) = match (p0, p1, p2) {
            (Some(eid), Some(x), Some(y)) => (eid, x, y),
            _ => {
                return Response::Failed { id: Some(id), err: String::from_str("invalid number") };
            },
        };
        let ok = world.set_velocity(eid, Vec2 { x, y });
        if ok {
            Response::Done { id }
        } else {
            Response::Failed { id: Some(id), err: String::from_str("unknown entity") }
        }
    } else {
        Response::Failed { id: Some(id), err: String::from_str("unknown method") }
    }
}

} // verus!
