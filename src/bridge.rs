use vstd::prelude::*;
use crate::event::TrayEvent;
use crate::item::TrayItem;
use crate::menu::MenuNode;
use crate::registry::{RegistryModel, model_replay};

verus! {

/// One item of the bus client's initial snapshot: its bus address, the
/// item, and its menu tree when the client already has one.
pub struct SnapshotEntry {
    pub service_key: String,
    pub item: TrayItem,
    pub menu: Option<Vec<MenuNode>>,
}

/// The Add event that stands for a snapshot entry.
pub open spec fn snapshot_event(s: SnapshotEntry) -> TrayEvent {
    TrayEvent::Add(s.service_key, s.item, s.menu)
}

/// The events that open the bridge's stream: one Add for each snapshot
/// entry, in the snapshot's order.
pub fn initial_events(snapshot: Vec<SnapshotEntry>) -> (r: Vec<TrayEvent>)
    ensures
        r@.len() == snapshot@.len(),
        forall|i: int| 0 <= i < r@.len() ==> #[trigger] r@[i] == snapshot_event(snapshot@[i]),
{
    let ghost original = snapshot@;
    let mut rest = snapshot;
    let mut out: Vec<TrayEvent> = Vec::new();
    while rest.len() > 0
        invariant
            out@.len() + rest@.len() == original.len(),
            rest@ == original.subrange(out@.len() as int, original.len() as int),
            forall|i: int| 0 <= i < out@.len() ==> #[trigger] out@[i] == snapshot_event(original[i]),
        decreases rest@.len(),
    {
        let entry = rest.remove(0);
        out.push(TrayEvent::Add(entry.service_key, entry.item, entry.menu));
    }
    out
}

/// What the background worker sees next while it waits on the bus
/// subscription and on the shutdown signal at once.
pub enum WorkerInput {
    /// An event of the subscription.
    Event(TrayEvent),
    /// The subscription ended or failed.
    StreamEnded,
    /// The foreground side dropped its end of the channel.
    ConsumerGone,
    /// The shutdown signal was sent.
    Shutdown,
}

/// What the background worker does about an input.
pub enum WorkerAction {
    /// Send the event, unchanged, into the channel.
    Forward(TrayEvent),
    /// Leave the loop and end the worker.
    Stop,
}

/// Whether the worker is stopped after `input`, having been `stopped` before.
pub open spec fn stopped_after(stopped: bool, input: WorkerInput) -> bool {
    stopped || !(input is Event)
}

/// The event that the worker forwards for `input`, if any.
pub open spec fn forwarded_by(stopped: bool, input: WorkerInput) -> Option<TrayEvent> {
    if !stopped && input is Event {
        Some(input->Event_0)
    } else {
        None
    }
}

/// The events that a worker forwards, in order, for a sequence of inputs.
pub open spec fn forwarded(stopped: bool, inputs: Seq<WorkerInput>) -> Seq<TrayEvent>
    decreases inputs.len(),
{
    if inputs.len() == 0 {
        Seq::empty()
    } else {
        let head = match forwarded_by(stopped, inputs[0]) {
            Some(e) => seq![e],
            None => Seq::empty(),
        };
        head + forwarded(stopped_after(stopped, inputs[0]), inputs.subrange(1, inputs.len() as int))
    }
}

/// The decisions of the background worker that bridges the bus client's
/// event stream into the foreground's channel.
pub struct BridgeWorker {
    stopped: bool,
}

impl BridgeWorker {
    /// A worker that has not stopped.
    pub fn new() -> (r: BridgeWorker)
        ensures
            !r.is_stopped(),
    {
        BridgeWorker { stopped: false }
    }

    /// Whether the worker has left its loop.
    pub closed spec fn is_stopped(&self) -> bool {
        self.stopped
    }

    /// Whether the worker has left its loop.
    pub fn stopped(&self) -> (r: bool)
        ensures
            r == self.is_stopped(),
    {
        self.stopped
    }

    /// Decides what to do with the next input: a running worker forwards a
    /// subscription event verbatim and stops on anything else; a stopped
    /// worker forwards nothing more.
    pub fn step(&mut self, input: WorkerInput) -> (r: WorkerAction)
        ensures
            final(self).is_stopped() == stopped_after(old(self).is_stopped(), input),
            match forwarded_by(old(self).is_stopped(), input) {
                Some(e) => r == WorkerAction::Forward(e),
                None => r is Stop,
            },
    {
        if self.stopped {
            return WorkerAction::Stop;
        }
        match input {
            WorkerInput::Event(e) => WorkerAction::Forward(e),
            _ => {
                self.stopped = true;
                WorkerAction::Stop
            },
        }
    }
}

/// The events that a sequence of subscription inputs carries, in order.
pub open spec fn payloads(inputs: Seq<WorkerInput>) -> Seq<TrayEvent>
    recommends
        forall|i: int| 0 <= i < inputs.len() ==> #[trigger] inputs[i] is Event,
{
    inputs.map_values(|x: WorkerInput| x->Event_0)
}

/// A stopped worker forwards nothing, whatever comes next.
pub proof fn lemma_stopped_forwards_nothing(inputs: Seq<WorkerInput>)
    ensures
        forwarded(true, inputs) == Seq::<TrayEvent>::empty(),
    decreases inputs.len(),
{
    if inputs.len() > 0 {
        lemma_stopped_forwards_nothing(inputs.subrange(1, inputs.len() as int));
        assert(forwarded(true, inputs) =~= Seq::<TrayEvent>::empty());
    }
}

/// What a worker forwards for `a` followed by `b` is what it forwards for
/// `a`, then what it forwards for `b` from the state that `a` left.
pub proof fn lemma_forwarded_split(stopped: bool, a: Seq<WorkerInput>, b: Seq<WorkerInput>)
    ensures
        forwarded(stopped, a + b) == forwarded(stopped, a) + forwarded(stopped_after_all(stopped, a), b),
    decreases a.len(),
{
    if a.len() == 0 {
        assert(a + b =~= b);
        assert(forwarded(stopped, a) + forwarded(stopped, b) =~= forwarded(stopped, b));
    } else {
        let ab = a + b;
        let a1 = a.subrange(1, a.len() as int);
        assert(ab.subrange(1, ab.len() as int) =~= a1 + b);
        assert(ab[0] == a[0]);
        lemma_forwarded_split(stopped_after(stopped, a[0]), a1, b);
        let head = match forwarded_by(stopped, a[0]) {
            Some(e) => seq![e],
            None => Seq::<TrayEvent>::empty(),
        };
        assert(head + (forwarded(stopped_after(stopped, a[0]), a1) + forwarded(
            stopped_after_all(stopped, a),
            b,
        )) =~= (head + forwarded(stopped_after(stopped, a[0]), a1)) + forwarded(
            stopped_after_all(stopped, a),
            b,
        ));
    }
}

/// Whether a worker is stopped after a sequence of inputs.
pub open spec fn stopped_after_all(stopped: bool, inputs: Seq<WorkerInput>) -> bool
    decreases inputs.len(),
{
    if inputs.len() == 0 {
        stopped
    } else {
        stopped_after_all(stopped_after(stopped, inputs[0]), inputs.subrange(1, inputs.len() as int))
    }
}

/// After the shutdown signal the worker forwards no further event: what it
/// forwards for a run is what it forwarded before the signal.
pub proof fn lemma_shutdown_stops(before: Seq<WorkerInput>, after: Seq<WorkerInput>)
    ensures
        forwarded(false, before.push(WorkerInput::Shutdown) + after) == forwarded(false, before),
{
    let s = seq![WorkerInput::Shutdown];
    assert(before.push(WorkerInput::Shutdown) + after =~= before + (s + after));
    lemma_forwarded_split(false, before, s + after);
    let st = stopped_after_all(false, before);
    assert((s + after)[0] == WorkerInput::Shutdown);
    assert((s + after).subrange(1, (s + after).len() as int) =~= after);
    lemma_stopped_forwards_nothing(after);
    assert(forwarded(st, s + after) =~= Seq::<TrayEvent>::empty());
    assert(forwarded(false, before) + Seq::<TrayEvent>::empty() =~= forwarded(false, before));
}

/// A running worker forwards the subscription's events verbatim and in
/// their order of arrival.
pub proof fn lemma_forwards_verbatim(inputs: Seq<WorkerInput>)
    requires
        forall|i: int| 0 <= i < inputs.len() ==> #[trigger] inputs[i] is Event,
    ensures
        forwarded(false, inputs) == payloads(inputs),
    decreases inputs.len(),
{
    if inputs.len() > 0 {
        let rest = inputs.subrange(1, inputs.len() as int);
        assert forall|i: int| 0 <= i < rest.len() implies #[trigger] rest[i] is Event by {
            assert(rest[i] == inputs[i + 1]);
        }
        lemma_forwards_verbatim(rest);
        assert(inputs[0] is Event);
        assert(payloads(inputs) =~= seq![inputs[0]->Event_0] + payloads(rest));
    }
}

/// Events that pass through a running bridge leave the registry in the
/// state that folding the subscription's events, in order, gives.
pub proof fn lemma_bridge_replay<H>(m: RegistryModel<H>, inputs: Seq<WorkerInput>)
    requires
        forall|i: int| 0 <= i < inputs.len() ==> #[trigger] inputs[i] is Event,
    ensures
        model_replay(m, forwarded(false, inputs)) == model_replay(m, payloads(inputs)),
{
    lemma_forwards_verbatim(inputs);
}

} // verus!
