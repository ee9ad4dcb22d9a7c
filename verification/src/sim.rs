//! The tick scheduler: one command per tick, then the maintenance commit.
//!
//! A `Simulation` owns the world and the command queue. Each `tick` pops
//! at most one queued line, handles it, renders its one response line, and
//! then commits the deferred buffer, so an insertion becomes visible
//! exactly one maintenance point after the command that recorded it. The
//! queue reporting `Disconnected` is the one terminal outcome; responses
//! come out in exactly the order the lines went in.

use vstd::prelude::*;
use crate::json::{JsonItem, json_object_of, parse_json_line};
use crate::protocol::{Response, handle_post, handle_message};
use crate::output::{spec_response_line, response_to_line};
use crate::queue::{CommandQueue, PopOutcome};
use crate::world::{World, maintain_rel};

verus! {

/// What one tick produced.
#[derive(Debug, PartialEq)]
pub enum TickOutcome {
    /// One command was handled; this is its response line.
    Emitted(String),
    /// Nothing was queued; the maintenance step still ran.
    Idle,
    /// The queue is drained and its producer is gone: the run is over.
    Stopped,
}

/// The world and the queue feeding it, ticked together.
pub struct Simulation {
    pub world: World,
    pub queue: CommandQueue,
}

/// What one tick does: with a line queued, its message is handled against
/// the world, the response's line is emitted, and the maintenance step
/// commits what the command deferred; with an empty open queue only the
/// maintenance step runs; with an empty closed queue everything stands
/// and the run is declared over.
pub open spec fn tick_post(s0: Simulation, s1: Simulation, r: TickOutcome) -> bool {
    if s0.queue.items@.len() > 0 {
        &&& s1.queue.items@ == s0.queue.items@.drop_first()
        &&& s1.queue.closed == s0.queue.closed
        &&& (r matches TickOutcome::Emitted(line) && exists|wm: World, resp: Response|
            #[trigger] handle_post(s0.queue.items@[0], s0.world, wm, resp) && maintain_rel(
                wm,
                s1.world,
            ) && line@ == spec_response_line(resp))
    } else if s0.queue.closed {
        &&& r == TickOutcome::Stopped
        &&& s1 == s0
    } else {
        &&& r == TickOutcome::Idle
        &&& s1.queue == s0.queue
        &&& maintain_rel(s0.world, s1.world)
    }
}

impl Simulation {
    /// A fresh simulation: empty world, open empty queue.
    pub fn new() -> (s: Simulation)
        ensures
            s.world.wf(),
            s.world.num_slots() == 0,
            s.world.pending@.len() == 0,
            s.queue.items@.len() == 0,
            !s.queue.closed,
    {
        Simulation { world: World::new(), queue: CommandQueue::new() }
    }

    /// Parses one line of input and queues it, in arrival order. The
    /// world is untouched.
    pub fn ingest_line(&mut self, line: &str)
        ensures
            final(self).queue.items@ == old(self).queue.items@.push(json_object_of(line@)),
            final(self).queue.closed == old(self).queue.closed,
            final(self).world == old(self).world,
    {
        let msg = parse_json_line(line);
        self.queue.push(msg);
    }

    /// Marks the input side as permanently finished.
    pub fn close_input(&mut self)
        ensures
            final(self).queue.items@ == old(self).queue.items@,
            final(self).queue.closed,
            final(self).world == old(self).world,
    {
        self.queue.close();
    }

    /// One tick: pop at most one line, handle it, emit its response,
    /// commit the deferred buffer.
    pub fn tick(&mut self) -> (r: TickOutcome)
        requires
            old(self).world.wf(),
        ensures
            final(self).world.wf(),
            tick_post(*old(self), *final(self), r),
    {
        let msg = match self.queue.try_pop() {
            PopOutcome::Popped(msg) => msg,
            PopOutcome::Empty => {
                self.world.maintain();
                return TickOutcome::Idle;
            },
            PopOutcome::Disconnected => {
                return TickOutcome::Stopped;
            },
        };
        let resp = handle_message(&mut self.world, msg);
        let ghost wm = self.world;
        let line = response_to_line(&resp);
        self.world.maintain();
        proof {
            assert(handle_post(old(self).queue.items@[0], old(self).world, wm, resp));
            assert(maintain_rel(wm, self.world));
            assert(line@ == spec_response_line(resp));
        }
        TickOutcome::Emitted(line)
    }
}

/// A run of the whole pipeline over a batch of messages: starting from
/// `w0`, each message in turn is handled and committed, producing one
/// response line each, in order; `w1` is where the world ends up.
pub open spec fn run_rel(
    msgs: Seq<Option<Vec<(String, JsonItem)>>>,
    w0: World,
    w1: World,
    lines: Seq<String>,
) -> bool
    decreases msgs.len(),
{
    if msgs.len() == 0 {
        w1 == w0 && lines.len() == 0
    } else {
        &&& lines.len() == msgs.len()
        &&& exists|wm: World, wc: World, resp: Response|
            #![trigger handle_post(msgs[0], w0, wm, resp), maintain_rel(wm, wc)]
            handle_post(msgs[0], w0, wm, resp) && maintain_rel(wm, wc) && lines[0]@
                == spec_response_line(resp) && run_rel(msgs.drop_first(), wc, w1, lines.drop_first())
    }
}

/// The messages a batch of input lines parses to, in order.
pub open spec fn msgs_of(lines: Seq<String>) -> Seq<Option<Vec<(String, JsonItem)>>> {
    lines.map_values(|l: String| json_object_of(l@))
}

/// Extending a run by one more handled message at its end.
proof fn lemma_run_rel_snoc(
    msgs: Seq<Option<Vec<(String, JsonItem)>>>,
    w0: World,
    w1: World,
    lines: Seq<String>,
    m: Option<Vec<(String, JsonItem)>>,
    wm: World,
    w2: World,
    resp: Response,
    line: String,
)
    requires
        run_rel(msgs, w0, w1, lines),
        handle_post(m, w1, wm, resp),
        maintain_rel(wm, w2),
        line@ == spec_response_line(resp),
    ensures
        run_rel(msgs.push(m), w0, w2, lines.push(line)),
    decreases msgs.len(),
{
    if msgs.len() == 0 {
        assert(msgs.push(m)[0] == m);
        assert(msgs.push(m).drop_first() =~= Seq::<Option<Vec<(String, JsonItem)>>>::empty());
        assert(lines.push(line)[0] == line);
        assert(lines.push(line).drop_first() =~= Seq::<String>::empty());
        assert(run_rel(msgs.push(m).drop_first(), w2, w2, lines.push(line).drop_first()));
        assert(handle_post(msgs.push(m)[0], w0, wm, resp) && maintain_rel(wm, w2) && lines.push(
            line,
        )[0]@ == spec_response_line(resp) && run_rel(
            msgs.push(m).drop_first(),
            w2,
            w2,
            lines.push(line).drop_first(),
        ));
    } else {
        let (wma, wca, respa) = choose|wma: World, wca: World, respa: Response|
            #![trigger handle_post(msgs[0], w0, wma, respa), maintain_rel(wma, wca)]
            handle_post(msgs[0], w0, wma, respa) && maintain_rel(wma, wca) && lines[0]@
                == spec_response_line(respa) && run_rel(msgs.drop_first(), wca, w1, lines.drop_first());
        lemma_run_rel_snoc(
            msgs.drop_first(),
            wca,
            w1,
            lines.drop_first(),
            m,
            wm,
            w2,
            resp,
            line,
        );
        assert(msgs.push(m).drop_first() =~= msgs.drop_first().push(m));
        assert(lines.push(line).drop_first() =~= lines.drop_first().push(line));
        assert(msgs.push(m)[0] == msgs[0]);
        assert(lines.push(line)[0] == lines[0]);
        assert(handle_post(msgs.push(m)[0], w0, wma, respa) && maintain_rel(wma, wca) && lines.push(
            line,
        )[0]@ == spec_response_line(respa) && run_rel(
            msgs.push(m).drop_first(),
            wca,
            w2,
            lines.push(line).drop_first(),
        ));
    }
}

/// Feeds a batch of input lines through a fresh simulation, one command
/// per tick, and returns the response lines: exactly one per input line,
/// in the order the inputs came — the whole run is `run_rel` from the
/// empty world.
#[verifier::loop_isolation(false)]
pub fn process_lines(lines: &Vec<String>) -> (out: Vec<String>)
    ensures
        out@.len() == lines@.len(),
        exists|w0: World, w1: World|
            w0.wf() && w0.num_slots() == 0 && w0.pending@.len() == 0 && #[trigger] run_rel(
                msgs_of(lines@),
                w0,
                w1,
                out@,
            ),
{
    let ghost msgs = msgs_of(lines@);
    let mut sim = Simulation::new();
    let ghost w_start = sim.world;
    let n = lines.len();
    let mut out: Vec<String> = Vec::new();
    let mut i: usize = 0;
    while i < n
        invariant
            0 <= i <= n,
            n == lines@.len(),
            sim.world.wf(),
            sim.queue.items@.len() == 0,
            !sim.queue.closed,
            out@.len() == i,
            run_rel(msgs.subrange(0, i as int), w_start, sim.world, out@),
        decreases n - i,
    {
        proof {
            assert(msgs.subrange(0, i + 1).drop_last() =~= msgs.subrange(0, i as int));
            assert(msgs.subrange(0, i + 1).last() == json_object_of(lines@[i as int]@));
        }
        sim.ingest_line(lines[i].as_str());
        let ghost w_before = sim.world;
        let r = sim.tick();
        match r {
            TickOutcome::Emitted(line) => {
                proof {
                    let (wm, resp) = choose|wm: World, resp: Response|
                        #[trigger] handle_post(json_object_of(lines@[i as int]@), w_before, wm, resp)
                            && maintain_rel(wm, sim.world) && line@ == spec_response_line(resp);
                    lemma_run_rel_snoc(
                        msgs.subrange(0, i as int),
                        w_start,
                        w_before,
                        out@,
                        json_object_of(lines@[i as int]@),
                        wm,
                        sim.world,
                        resp,
                        line,
                    );
                    assert(msgs.subrange(0, i as int).push(json_object_of(lines@[i as int]@))
                        =~= msgs.subrange(0, i + 1));
                }
                out.push(line);
            },
            TickOutcome::Idle => {
                proof {
                    assert(false);
                }
            },
            TickOutcome::Stopped => {
                proof {
                    assert(false);
                }
            },
        }
        i = i + 1;
    }
    proof {
        assert(msgs.subrange(0, n as int) =~= msgs);
    }
    out
}

} // verus!
