//! The orchestrator's dispatch engine: the ordered pass of one key event
//! through the chain of disambiguation stages, the serialized fan-in of
//! many devices' events into one output sink, and the poisoning
//! discipline of the shared engine state.
//!
//! The disambiguation managers themselves are external collaborators:
//! each answers one `process` call with an optional ordered list of
//! effects and a stop flag. This module takes those answers as plain
//! values and decides, with proof, which effects reach the sink and in
//! what order. Threads, locking and the sink's device I/O are the
//! unverified shell's; the shell performs one record's operations to
//! completion while it holds the shared lock, which is what makes the
//! schedule below the observed interleaving.

use crate::keys::RawEvent;
use crate::keys::Routed;
use crate::keys::is_key_raw;
use crate::keys::route_event;
use vstd::prelude::*;

verus! {

/// The process inputs of the daemon, resolved before the core starts.
pub struct KtrlArgs {
    pub kbd_path: Vec<String>,
    pub watch: bool,
    pub config_path: String,
    pub assets_path: String,
    pub ipc_port: usize,
    pub ipc_msg: Option<String>,
    pub notify_port: usize,
}

/// One effect value: a unit of output behavior (key emission, layer
/// change, ...) produced by a disambiguation stage or the fallback path.
/// Its meaning is the collaborators' business; the engine only orders
/// and forwards it.
#[derive(Clone, Copy, PartialEq, Eq, Structural, Debug)]
pub struct FxVal {
    pub id: u64,
}

/// One disambiguation stage's answer to a `process` call: the effects to
/// perform now, in order, and whether the event is consumed (no later
/// stage may reinterpret it).
pub struct ProcessOut {
    pub effects: Option<Vec<FxVal>>,
    pub stop_processing: bool,
}

/// The effects a stage's answer asks for, in order.
pub open spec fn spec_effects(o: ProcessOut) -> Seq<FxVal> {
    match o.effects {
        Some(v) => v@,
        None => Seq::empty(),
    }
}

/// The stages of the disambiguation chain, in their fixed priority
/// order: tap-hold first, then tap-dance, then tap-mod.
#[derive(Clone, Copy, PartialEq, Eq, Structural, Debug)]
pub enum DispatchStage {
    TapHold,
    TapDance,
    TapMod,
}

/// What the dispatch loop does after one stage has answered.
#[derive(Clone, Copy, PartialEq, Eq, Structural, Debug)]
pub enum DispatchNext {
    /// Ask this stage next.
    RunStage(DispatchStage),
    /// No stage consumed the event: perform the fallback effect.
    RunFallback,
    /// The event was consumed: dispatch ends here.
    Finished,
}

/// The stage the chain starts with: tap-hold has first refusal.
pub fn dispatch_start() -> (r: DispatchStage)
    ensures
        r == DispatchStage::TapHold,
{
    DispatchStage::TapHold
}

/// The step contract of the chain: after a stage's effects are
/// performed, a stop flag ends dispatch — no later stage runs — and
/// otherwise the next stage in the fixed order gets the event, the
/// fallback path standing last.
pub fn dispatch_after(stage: DispatchStage, out: &ProcessOut) -> (r: DispatchNext)
    ensures
        out.stop_processing ==> r == DispatchNext::Finished,
        !out.stop_processing ==> r == match stage {
            DispatchStage::TapHold => DispatchNext::RunStage(DispatchStage::TapDance),
            DispatchStage::TapDance => DispatchNext::RunStage(DispatchStage::TapMod),
            DispatchStage::TapMod => DispatchNext::RunFallback,
        },
{
    if out.stop_processing {
        DispatchNext::Finished
    } else {
        match stage {
            DispatchStage::TapHold => DispatchNext::RunStage(DispatchStage::TapDance),
            DispatchStage::TapDance => DispatchNext::RunStage(DispatchStage::TapMod),
            DispatchStage::TapMod => DispatchNext::RunFallback,
        }
    }
}

/// The effects one key event's dispatch applies, in order: each stage's
/// effects in priority order, cut off after the first stage that
/// consumes the event, and the fallback effect exactly when no stage
/// consumed it.
pub open spec fn spec_dispatch(
    th: ProcessOut,
    td: ProcessOut,
    tm: ProcessOut,
    fallback: FxVal,
) -> Seq<FxVal> {
    spec_effects(th) + if th.stop_processing {
        Seq::empty()
    } else {
        spec_effects(td) + if td.stop_processing {
            Seq::empty()
        } else {
            spec_effects(tm) + if tm.stop_processing {
                Seq::empty()
            } else {
                seq![fallback]
            }
        }
    }
}

/// Appends a stage's effects, in the stage's order, to the effects
/// gathered so far.
fn append_effects(acc: &mut Vec<FxVal>, o: &ProcessOut)
    ensures
        final(acc)@ == old(acc)@ + spec_effects(*o),
{
    match &o.effects {
        Some(v) => {
            let n: usize = v.len();
            let mut i: usize = 0;
            while i < n
                invariant
                    n == v@.len(),
                    0 <= i <= n,
                    acc@ == old(acc)@ + v@.take(i as int),
                decreases n - i,
            {
                acc.push(v[i]);
                proof {
                    assert(old(acc)@ + v@.take(i + 1) =~= (old(acc)@ + v@.take(i as int)).push(
                        v@[i as int],
                    ));
                }
                i = i + 1;
            }
            proof {
                assert(v@.take(n as int) =~= v@);
            }
        },
        None => {
            proof {
                assert(old(acc)@ + Seq::<FxVal>::empty() =~= old(acc)@);
            }
        },
    }
}

/// The dispatch routine for one key event, given each stage's answer to
/// its `process` call and the fallback effect computed from the event
/// and the current layer state.
///
/// Returns exactly the effects dispatch applies, in application order.
/// The event itself does not appear: the stages' answers already carry
/// everything the chain decides on. Under the daemon the shell asks each
/// stage lazily (a consumed event never reaches a later manager) and
/// performs each effect as it comes, aborting the whole call on the
/// first effect that fails; the order performed is the order returned.
pub fn handle_key_event(th: &ProcessOut, td: &ProcessOut, tm: &ProcessOut, fallback: FxVal) -> (r:
    Vec<FxVal>)
    ensures
        r@ == spec_dispatch(*th, *td, *tm, fallback),
{
    let mut acc: Vec<FxVal> = Vec::new();
    append_effects(&mut acc, th);
    if th.stop_processing {
        proof {
            assert(acc@ =~= spec_dispatch(*th, *td, *tm, fallback));
        }
        return acc;
    }
    append_effects(&mut acc, td);
    if td.stop_processing {
        proof {
            assert(acc@ =~= spec_dispatch(*th, *td, *tm, fallback));
        }
        return acc;
    }
    append_effects(&mut acc, tm);
    if tm.stop_processing {
        proof {
            assert(acc@ =~= spec_dispatch(*th, *td, *tm, fallback));
        }
        return acc;
    }
    acc.push(fallback);
    proof {
        assert(acc@ =~= spec_dispatch(*th, *td, *tm, fallback));
    }
    acc
}

/// One operation the output sink observes: a non-key event passed
/// through verbatim, or one effect of a dispatched key event.
#[derive(Clone, Copy, PartialEq, Eq, Structural, Debug)]
pub enum SinkOp {
    WriteRaw(RawEvent),
    Fx(FxVal),
}

/// Everything one lock acquisition works on: the raw event one device's
/// reader took, which device it came from, and — for a key event — the
/// stages' answers and the fallback effect.
pub struct DeviceEventRecord {
    pub device: usize,
    pub raw: RawEvent,
    pub th: ProcessOut,
    pub td: ProcessOut,
    pub tm: ProcessOut,
    pub fallback: FxVal,
}

/// The sink operations one record causes: a raw event that fails key
/// conversion is forwarded byte-for-byte as the only operation — no
/// stage answer is consulted — and a key event contributes its
/// dispatched effects in order.
pub open spec fn spec_ops_for(rec: DeviceEventRecord) -> Seq<SinkOp> {
    if is_key_raw(rec.raw) {
        spec_dispatch(rec.th, rec.td, rec.tm, rec.fallback).map_values(|f: FxVal| SinkOp::Fx(f))
    } else {
        seq![SinkOp::WriteRaw(rec.raw)]
    }
}

/// The work done under one lock acquisition: routes the record's raw
/// event and returns, in order, the operations the sink observes for it.
pub fn process_locked(rec: &DeviceEventRecord) -> (r: Vec<SinkOp>)
    ensures
        r@ == spec_ops_for(*rec),
{
    match route_event(&rec.raw) {
        Routed::PassThrough(raw) => {
            let mut ops: Vec<SinkOp> = Vec::new();
            ops.push(SinkOp::WriteRaw(raw));
            proof {
                assert(ops@ =~= spec_ops_for(*rec));
            }
            ops
        },
        Routed::Dispatch(_key_event) => {
            let effects = handle_key_event(&rec.th, &rec.td, &rec.tm, rec.fallback);
            let n: usize = effects.len();
            let mut ops: Vec<SinkOp> = Vec::new();
            let mut i: usize = 0;
            while i < n
                invariant
                    n == effects@.len(),
                    0 <= i <= n,
                    ops@ == effects@.take(i as int).map_values(|f: FxVal| SinkOp::Fx(f)),
                decreases n - i,
            {
                ops.push(SinkOp::Fx(effects[i]));
                proof {
                    assert(effects@.take(i + 1).map_values(|f: FxVal| SinkOp::Fx(f)) =~= effects@.take(
                        i as int,
                    ).map_values(|f: FxVal| SinkOp::Fx(f)).push(SinkOp::Fx(effects@[i as int])));
                }
                i = i + 1;
            }
            proof {
                assert(effects@.take(n as int) =~= effects@);
            }
            ops
        },
    }
}

/// One sink operation together with the device whose record caused it.
#[derive(Clone, Copy, PartialEq, Eq, Structural, Debug)]
pub struct TaggedOp {
    pub device: usize,
    pub op: SinkOp,
}

/// One record's sink operations, each tagged with the record's device.
pub open spec fn spec_tagged_ops(rec: DeviceEventRecord) -> Seq<TaggedOp> {
    spec_ops_for(rec).map_values(|op: SinkOp| TaggedOp { device: rec.device, op })
}

/// What the sink observes over a whole schedule: the records' operation
/// blocks, whole and in schedule order. The schedule is the order in
/// which the reader threads acquired the shared lock; because each
/// record's operations form one contiguous block, no two events'
/// effects ever interleave.
pub open spec fn spec_run_schedule(s: Seq<DeviceEventRecord>) -> Seq<TaggedOp>
    decreases s.len(),
{
    if s.len() == 0 {
        Seq::empty()
    } else {
        spec_run_schedule(s.drop_last()) + spec_tagged_ops(s.last())
    }
}

/// Runs a schedule of records — the interleaving, at the lock, of the
/// devices' event streams — and returns everything the sink observes,
/// in order.
pub fn run_schedule(schedule: &Vec<DeviceEventRecord>) -> (r: Vec<TaggedOp>)
    ensures
        r@ == spec_run_schedule(schedule@),
{
    let n: usize = schedule.len();
    let mut out: Vec<TaggedOp> = Vec::new();
    let mut i: usize = 0;
    while i < n
        invariant
            n == schedule@.len(),
            0 <= i <= n,
            out@ == spec_run_schedule(schedule@.take(i as int)),
        decreases n - i,
    {
        let rec = &schedule[i];
        let ops = process_locked(rec);
        let m: usize = ops.len();
        let mut j: usize = 0;
        while j < m
            invariant
                m == ops@.len(),
                0 <= j <= m,
                ops@ == spec_ops_for(schedule@[i as int]),
                i < n == schedule@.len(),
                rec == &schedule@[i as int],
                out@ == spec_run_schedule(schedule@.take(i as int)) + spec_tagged_ops(
                    schedule@[i as int],
                ).take(j as int),
            decreases m - j,
        {
            out.push(TaggedOp { device: rec.device, op: ops[j] });
            proof {
                let tagged = spec_tagged_ops(schedule@[i as int]);
                assert(tagged[j as int] == (TaggedOp { device: rec.device, op: ops@[j as int] }));
                assert(spec_run_schedule(schedule@.take(i as int)) + tagged.take(j + 1)
                    =~= (spec_run_schedule(schedule@.take(i as int)) + tagged.take(j as int)).push(
                    tagged[j as int],
                ));
            }
            j = j + 1;
        }
        proof {
            let tagged = spec_tagged_ops(schedule@[i as int]);
            assert(tagged.take(m as int) =~= tagged);
            assert(schedule@.take(i + 1).drop_last() =~= schedule@.take(i as int));
            assert(schedule@.take(i + 1).last() == schedule@[i as int]);
        }
        i = i + 1;
    }
    proof {
        assert(schedule@.take(n as int) =~= schedule@);
    }
    out
}

/// The subsequence of a schedule belonging to one device, in schedule
/// order.
pub open spec fn device_records(s: Seq<DeviceEventRecord>, d: usize) -> Seq<DeviceEventRecord>
    decreases s.len(),
{
    if s.len() == 0 {
        Seq::empty()
    } else {
        device_records(s.drop_last(), d) + if s.last().device == d {
            seq![s.last()]
        } else {
            Seq::empty()
        }
    }
}

/// The subsequence of the sink's observations caused by one device, in
/// observation order.
pub open spec fn device_ops(t: Seq<TaggedOp>, d: usize) -> Seq<TaggedOp>
    decreases t.len(),
{
    if t.len() == 0 {
        Seq::empty()
    } else {
        device_ops(t.drop_last(), d) + if t.last().device == d {
            seq![t.last()]
        } else {
            Seq::empty()
        }
    }
}

proof fn lemma_device_ops_add(a: Seq<TaggedOp>, b: Seq<TaggedOp>, d: usize)
    ensures
        device_ops(a + b, d) == device_ops(a, d) + device_ops(b, d),
    decreases b.len(),
{
    if b.len() == 0 {
        assert(a + b =~= a);
        assert(device_ops(a, d) + device_ops(b, d) =~= device_ops(a, d));
    } else {
        lemma_device_ops_add(a, b.drop_last(), d);
        assert((a + b).drop_last() =~= a + b.drop_last());
        assert((a + b).last() == b.last());
        if b.last().device == d {
            assert(device_ops(a + b, d) =~= device_ops(a, d) + device_ops(b, d));
        } else {
            assert(device_ops(a + b, d) =~= device_ops(a, d) + device_ops(b, d));
        }
    }
}

proof fn lemma_device_ops_uniform(t: Seq<TaggedOp>, e: usize, d: usize)
    requires
        forall|i: int| 0 <= i < t.len() ==> (#[trigger] t[i]).device == e,
    ensures
        e == d ==> device_ops(t, d) == t,
        e != d ==> device_ops(t, d) == Seq::<TaggedOp>::empty(),
    decreases t.len(),
{
    if t.len() > 0 {
        lemma_device_ops_uniform(t.drop_last(), e, d);
        if e == d {
            assert(device_ops(t, d) =~= t);
        } else {
            assert(device_ops(t, d) =~= Seq::<TaggedOp>::empty());
        }
    }
}

/// The fan-in ordering law: for any schedule — any interleaving, at the
/// lock, of the devices' event streams — what the sink observes for one
/// device is exactly what running that device's records alone would
/// produce, in that device's own order. Together with the block shape of
/// `spec_run_schedule` (one record's operations stand contiguous, none
/// begins before the previous one's are complete), this is the ordered
/// effect-dispatch contract of the fan-in engine.
pub proof fn lemma_per_device_order(s: Seq<DeviceEventRecord>, d: usize)
    ensures
        device_ops(spec_run_schedule(s), d) == spec_run_schedule(device_records(s, d)),
    decreases s.len(),
{
    if s.len() > 0 {
        let rest = s.drop_last();
        let last = s.last();
        lemma_per_device_order(rest, d);
        lemma_device_ops_add(spec_run_schedule(rest), spec_tagged_ops(last), d);
        assert(forall|i: int|
            0 <= i < spec_tagged_ops(last).len() ==> (#[trigger] spec_tagged_ops(last)[i]).device
                == last.device);
        lemma_device_ops_uniform(spec_tagged_ops(last), last.device, d);
        if last.device == d {
            let dr = device_records(rest, d);
            assert(device_records(s, d) == dr + seq![last]);
            assert((dr + seq![last]).drop_last() =~= dr);
            assert((dr + seq![last]).last() == last);
            assert(spec_run_schedule(dr + seq![last]) == spec_run_schedule(dr) + spec_tagged_ops(
                last,
            ));
        } else {
            assert(device_records(s, d) =~= device_records(rest, d));
            assert(device_ops(spec_run_schedule(s), d) =~= spec_run_schedule(
                device_records(s, d),
            ));
        }
    }
}

/// Failure to acquire the shared engine state.
#[derive(Clone, Copy, PartialEq, Eq, Structural, Debug)]
pub enum LockError {
    /// A thread terminated abnormally while holding the state: the
    /// disambiguation state cannot be assumed consistent, and every
    /// later acquisition fails rather than proceed with it.
    Poisoned,
}

/// The poisoning discipline of the one lock around the shared engine
/// state. The lock itself is the shell's mutual-exclusion primitive;
/// this models what each outcome of an acquisition attempt means and
/// proves that poisoning, once entered, is permanent.
pub struct SharedStateLock {
    /// A holder terminated abnormally mid-dispatch.
    pub poisoned: bool,
    /// Some thread currently holds the state.
    pub held: bool,
}

/// The operations threads perform on the shared lock.
#[derive(Clone, Copy, PartialEq, Eq, Structural, Debug)]
pub enum LockOp {
    Acquire,
    Release,
    /// The holder terminates abnormally while holding the state.
    AbortHolding,
}

/// What an acquisition attempt does: a poisoned lock refuses every
/// acquisition, forever; a healthy free lock is taken.
pub open spec fn spec_acquire(s: SharedStateLock) -> (SharedStateLock, Result<(), LockError>) {
    if s.poisoned {
        (s, Err(LockError::Poisoned))
    } else {
        (SharedStateLock { poisoned: false, held: true }, Ok(()))
    }
}

/// What releasing does: the state is handed back unpoisoned.
pub open spec fn spec_release(s: SharedStateLock) -> SharedStateLock {
    SharedStateLock { poisoned: s.poisoned, held: false }
}

/// What an abnormal termination of the holder does: the state is marked
/// poisoned and given up.
pub open spec fn spec_abort_holding(s: SharedStateLock) -> SharedStateLock {
    SharedStateLock { poisoned: true, held: false }
}

/// One lock operation's successor state.
pub open spec fn spec_lock_step(s: SharedStateLock, op: LockOp) -> SharedStateLock {
    match op {
        LockOp::Acquire => spec_acquire(s).0,
        LockOp::Release => spec_release(s),
        LockOp::AbortHolding => spec_abort_holding(s),
    }
}

/// The lock state after a sequence of operations.
pub open spec fn spec_lock_run(s: SharedStateLock, ops: Seq<LockOp>) -> SharedStateLock
    decreases ops.len(),
{
    if ops.len() == 0 {
        s
    } else {
        spec_lock_step(spec_lock_run(s, ops.drop_last()), ops.last())
    }
}

impl SharedStateLock {
    /// The state at startup: healthy and free.
    pub fn new() -> (r: SharedStateLock)
        ensures
            !r.poisoned,
            !r.held,
    {
        SharedStateLock { poisoned: false, held: false }
    }

    /// An acquisition attempt, as the shell observes it once the
    /// underlying primitive grants or refuses the state. Poisoning is
    /// surfaced as the fatal error; it never proceeds silently.
    pub fn acquire(&mut self) -> (r: Result<(), LockError>)
        requires
            !old(self).held,
        ensures
            (*final(self), r) == spec_acquire(*old(self)),
            old(self).poisoned <==> r == Err::<(), LockError>(LockError::Poisoned),
    {
        if self.poisoned {
            Err(LockError::Poisoned)
        } else {
            self.held = true;
            Ok(())
        }
    }

    /// A normal release at the end of one event's dispatch.
    pub fn release(&mut self)
        requires
            old(self).held,
        ensures
            *final(self) == spec_release(*old(self)),
    {
        self.held = false;
    }

    /// The holder terminates abnormally mid-dispatch: the shared state
    /// is marked untrustworthy for everyone, forever.
    pub fn abort_holding(&mut self)
        requires
            old(self).held,
        ensures
            *final(self) == spec_abort_holding(*old(self)),
            final(self).poisoned,
    {
        self.poisoned = true;
        self.held = false;
    }
}

/// Poisoning is permanent: whatever operations follow, a lock that was
/// poisoned stays poisoned, and in particular every later acquisition
/// attempt fails with the poisoned-state error rather than proceed.
pub proof fn lemma_poison_is_permanent(s: SharedStateLock, ops: Seq<LockOp>)
    requires
        s.poisoned,
    ensures
        spec_lock_run(s, ops).poisoned,
        spec_acquire(spec_lock_run(s, ops)).1 == Err::<(), LockError>(LockError::Poisoned),
    decreases ops.len(),
{
    if ops.len() > 0 {
        lemma_poison_is_permanent(s, ops.drop_last());
    }
}

/// The poisoning law of a dispatch fault: if the holder of the shared
/// state terminates abnormally mid-dispatch, then after any further
/// operations by any threads, every acquisition attempt — every other
/// in-flight or subsequent dispatch call — fails with the
/// poisoned-state error.
pub proof fn lemma_abort_poisons_every_later_acquire(s: SharedStateLock, ops: Seq<LockOp>)
    requires
        s.held,
    ensures
        spec_acquire(spec_lock_run(spec_abort_holding(s), ops)).1 == Err::<(), LockError>(
            LockError::Poisoned,
        ),
{
    lemma_poison_is_permanent(spec_abort_holding(s), ops);
}

} // verus!
