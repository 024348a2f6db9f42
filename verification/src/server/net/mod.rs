//! Frame server decisions: protocol constants and sender-side coalescing.
//!
//! After each command from the compositor a short grace window is observed
//! and the queue drained; of that batch only the newest frame is delivered,
//! window events are all forwarded in order, and a shutdown never swallows
//! a pending frame (the frame goes out first, then the pump stops).


pub mod cert;
pub mod session;

use vstd::prelude::*;

use crate::protocol::message::{WindowEventKind, WindowEventKindV};
use crate::server::bridge::{events_view, NetCommand, NetCommandV};
use crate::server::rendering::{FrameBuffer, FrameBufferV};

verus! {

/// Protocol version advertised in the Hello/Welcome handshake.
pub const PROTOCOL_VERSION: u16 = 1u16;

/// Connection error code: Hello/Welcome version mismatch.
pub const ERROR_VERSION_MISMATCH: u32 = 1u32;

/// Grace window for sender-side coalescing, in milliseconds.
pub const COALESCE_WINDOW_MS: u64 = 2u64;

/// The newest frame in a batch of commands, with its frame id.
pub open spec fn newest_frame(s: Seq<NetCommandV>) -> Option<(FrameBufferV, u64)>
    decreases s.len(),
{
    if s.len() == 0 {
        None
    } else {
        match s.last() {
            NetCommandV::Frame { frame, frame_id } => Some((frame, frame_id)),
            _ => newest_frame(s.drop_last()),
        }
    }
}

/// The window-event lists of a batch, in order.
pub open spec fn event_lists(s: Seq<NetCommandV>) -> Seq<Seq<(u64, WindowEventKindV)>>
    decreases s.len(),
{
    if s.len() == 0 {
        Seq::empty()
    } else {
        match s.last() {
            NetCommandV::WindowEvents(e) => event_lists(s.drop_last()).push(e),
            _ => event_lists(s.drop_last()),
        }
    }
}

/// Whether a batch holds a shutdown.
pub open spec fn has_shutdown(s: Seq<NetCommandV>) -> bool {
    exists|i: int| 0 <= i < s.len() && s[i] is Shutdown
}

/// What the pump delivers for one drained batch.
#[derive(Debug)]
pub struct PumpBatch {
    /// The newest frame of the batch and its frame id, if any.
    pub frame: Option<(FrameBuffer, u64)>,
    /// Every window-event list of the batch, in order.
    pub window_events: Vec<Vec<(u64, WindowEventKind)>>,
    /// Whether the pump stops after delivering this batch.
    pub shutdown: bool,
}

/// Split a drained batch into what the pump delivers: the newest frame,
/// all window-event lists in order, and whether a shutdown came in.
pub fn coalesce(batch: Vec<NetCommand>) -> (r: PumpBatch)
    ensures
        match newest_frame(batch@.map_values(|c: NetCommand| c@)) {
            Some((f, id)) => r.frame matches Some((g, gid)) && g@ == f && gid == id,
            None => r.frame is None,
        },
        r.window_events@.map_values(|e: Vec<(u64, WindowEventKind)>| events_view(e@)) == event_lists(
            batch@.map_values(|c: NetCommand| c@),
        ),
        r.shutdown == has_shutdown(batch@.map_values(|c: NetCommand| c@)),
{
    let ghost all = batch@.map_values(|c: NetCommand| c@);
    let mut batch = batch;
    let mut frame: Option<(FrameBuffer, u64)> = None;
    let mut window_events: Vec<Vec<(u64, WindowEventKind)>> = Vec::new();
    let mut shutdown = false;
    let ghost mut k: int = 0;
    while batch.len() > 0
        invariant
            0 <= k <= all.len(),
            batch@.map_values(|c: NetCommand| c@) == all.skip(k),
            match newest_frame(all.take(k)) {
                Some((f, id)) => frame matches Some((g, gid)) && g@ == f && gid == id,
                None => frame is None,
            },
            window_events@.map_values(|e: Vec<(u64, WindowEventKind)>| events_view(e@)) == event_lists(
                all.take(k),
            ),
            shutdown == has_shutdown(all.take(k)),
        decreases batch@.len(),
    {
        proof {
            assert(batch@.map_values(|c: NetCommand| c@).len() == batch@.len());
            assert(k < all.len());
        }
        let ghost pre = batch@;
        let cmd = batch.remove(0);
        proof {
            assert(pre.map_values(|c: NetCommand| c@)[0] == pre[0]@);
            assert(all.skip(k)[0] == cmd@);
            assert(all.take(k + 1).drop_last() =~= all.take(k));
            assert(all.take(k + 1).last() == cmd@);
        }
        let ghost before = window_events@;
        match cmd {
            NetCommand::Frame { frame: f, frame_id } => {
                frame = Some((f, frame_id));
            },
            NetCommand::WindowEvents(events) => {
                window_events.push(events);
                proof {
                    assert(window_events@.map_values(|e: Vec<(u64, WindowEventKind)>| events_view(e@))
                        =~= before.map_values(|e: Vec<(u64, WindowEventKind)>| events_view(e@)).push(
                        events_view(events@),
                    ));
                }
            },
            NetCommand::Shutdown => {
                shutdown = true;
            },
        }
        proof {
            let t = all.take(k + 1);
            if has_shutdown(all.take(k)) {
                let j = choose|j: int| 0 <= j < all.take(k).len() && all.take(k)[j] is Shutdown;
                assert(t[j] is Shutdown);
            }
            if has_shutdown(t) && !(cmd@ is Shutdown) {
                let j = choose|j: int| 0 <= j < t.len() && t[j] is Shutdown;
                assert(j != k);
                assert(all.take(k)[j] is Shutdown);
            }
            if cmd@ is Shutdown {
                assert(t[k] is Shutdown);
            }
            assert(all.skip(k + 1) =~= all.skip(k).skip(1));
            assert(batch@.map_values(|c: NetCommand| c@) =~= all.skip(k + 1));
            k = k + 1;
        }
    }
    proof {
        assert(all.take(k) =~= all);
    }
    PumpBatch { frame, window_events, shutdown }
}

/// One send of the frame pump: what goes to which session slot.
#[derive(Debug, Clone, Copy, PartialEq, Eq, Structural)]
pub enum Delivery {
    /// The batch's newest frame, to session slot `slot`.
    Frame { slot: usize },
    /// The batch's `list`-th window-event list, to session slot `slot`.
    Events { slot: usize, list: usize },
}

/// The sends of one batch to `sessions` session slots: the newest frame
/// (if the batch has one) to every slot exactly once, then each
/// window-event list in arrival order, each to every slot.
pub open spec fn delivery_plan(has_frame: bool, lists: nat, sessions: nat) -> Seq<Delivery> {
    (if has_frame {
        Seq::new(sessions, |s: int| Delivery::Frame { slot: s as usize })
    } else {
        Seq::empty()
    }) + event_sends(lists * sessions, sessions)
}

/// The first `count` window-event sends to `sessions` slots: list after
/// list, each to slot 0, 1, … in turn.
pub open spec fn event_sends(count: nat, sessions: nat) -> Seq<Delivery> {
    Seq::new(
        count,
        |k: int| Delivery::Events { slot: (k % sessions as int) as usize, list: (k / sessions as int) as usize },
    )
}

/// The order in which the pump hands a coalesced batch to `sessions`
/// session slots.
pub fn plan_deliveries(batch: &PumpBatch, sessions: usize) -> (plan: Vec<Delivery>)
    requires
        (batch.window_events@.len() + 1) * sessions <= usize::MAX,
    ensures
        plan@ == delivery_plan(batch.frame is Some, batch.window_events@.len(), sessions as nat),
{
    let ghost n = sessions as int;
    let ghost lists = batch.window_events@.len() as int;
    let mut plan: Vec<Delivery> = Vec::new();
    if batch.frame.is_some() {
        let mut s: usize = 0;
        while s < sessions
            invariant
                s <= sessions,
                plan@ == Seq::new(s as nat, |t: int| Delivery::Frame { slot: t as usize }),
            decreases sessions - s,
        {
            plan.push(Delivery::Frame { slot: s });
            s = s + 1;
            assert(plan@ =~= Seq::new(s as nat, |t: int| Delivery::Frame { slot: t as usize }));
        }
    }
    let ghost front = plan@;
    assert(front == (if batch.frame is Some {
        Seq::new(sessions as nat, |t: int| Delivery::Frame { slot: t as usize })
    } else {
        Seq::<Delivery>::empty()
    }));
    let mut i: usize = 0;
    while i < batch.window_events.len()
        invariant
            i <= lists,
            lists == batch.window_events@.len(),
            n == sessions,
            (lists + 1) * n <= usize::MAX,
            plan@ == front + event_sends((i * n) as nat, sessions as nat),
        decreases lists - i,
    {
        let mut s: usize = 0;
        while s < sessions
            invariant
                s <= sessions,
                i < lists,
                n == sessions,
                (lists + 1) * n <= usize::MAX,
                plan@ == front + event_sends((i * n + s) as nat, sessions as nat),
            decreases sessions - s,
        {
            let ghost k: int = i * n + s;
            proof {
                assert(0 <= k) by (nonlinear_arith)
                    requires k == i * n + s, i >= 0, n >= 0, s >= 0;
                vstd::arithmetic::div_mod::lemma_fundamental_div_mod_converse(k, n, i as int, s as int);
            }
            let ghost before = plan@;
            plan.push(Delivery::Events { slot: s, list: i });
            s = s + 1;
            assert(plan@ =~= front + event_sends((k + 1) as nat, sessions as nat)) by {
                assert(before =~= front + event_sends(k as nat, sessions as nat));
                assert forall|j: int| 0 <= j < plan@.len() implies plan@[j] == (front + event_sends((k + 1) as nat, sessions as nat))[j] by {
                    if j < before.len() {
                    } else {
                        assert(j == front.len() + k);
                    }
                }
            }
            assert((k + 1) as nat == (i * n + s) as nat);
        }
        proof {
            assert(i * n + n == (i + 1) * n) by (nonlinear_arith);
        }
        i = i + 1;
    }
    assert(plan@ =~= delivery_plan(batch.frame is Some, batch.window_events@.len(), sessions as nat));
    plan
}

/// A batch never holds more event lists than commands.
proof fn lemma_event_lists_len(s: Seq<NetCommandV>)
    ensures
        event_lists(s).len() <= s.len(),
    decreases s.len(),
{
    if s.len() > 0 {
        lemma_event_lists_len(s.drop_last());
    }
}

/// One round of the frame pump: the drained batch, coalesced, and the
/// sends that deliver it.
#[derive(Debug)]
pub struct PumpRound {
    /// What the batch comes to; the pump stops after the round when
    /// `batch.shutdown` is set.
    pub batch: PumpBatch,
    /// The sends, in order, to the session slots.
    pub plan: Vec<Delivery>,
}

/// Decide one round of the frame pump for a drained batch and `sessions`
/// session slots: every slot gets the batch's newest frame exactly once
/// (earlier frames of the batch are dropped), then every window-event
/// list of the batch in arrival order; the pump stops after the round
/// exactly when the batch holds a shutdown.
pub fn pump_round(pending: Vec<NetCommand>, sessions: usize) -> (r: PumpRound)
    requires
        (pending@.len() + 1) * sessions <= usize::MAX,
    ensures
        match newest_frame(pending@.map_values(|c: NetCommand| c@)) {
            Some((f, id)) => r.batch.frame matches Some((g, gid)) && g@ == f && gid == id,
            None => r.batch.frame is None,
        },
        r.batch.window_events@.map_values(|e: Vec<(u64, WindowEventKind)>| events_view(e@)) == event_lists(
            pending@.map_values(|c: NetCommand| c@),
        ),
        r.batch.shutdown == has_shutdown(pending@.map_values(|c: NetCommand| c@)),
        r.plan@ == delivery_plan(
            newest_frame(pending@.map_values(|c: NetCommand| c@)) is Some,
            event_lists(pending@.map_values(|c: NetCommand| c@)).len(),
            sessions as nat,
        ),
{
    let ghost v = pending@.map_values(|c: NetCommand| c@);
    let ghost count = pending@.len();
    let batch = coalesce(pending);
    proof {
        lemma_event_lists_len(v);
        let a = batch.window_events@.len() as int;
        assert(a == batch.window_events@.map_values(|e: Vec<(u64, WindowEventKind)>| events_view(e@)).len());
        let b = count as int;
        let n = sessions as int;
        assert(a <= b);
        assert((a + 1) * n <= (b + 1) * n) by (nonlinear_arith)
            requires a <= b, n >= 0;
    }
    let plan = plan_deliveries(&batch, sessions);
    PumpRound { batch, plan }
}

} // verus!
