use ktrl::keys::{EventKind, KeyEvent, RawEvent, Routed, route_event};
use ktrl::ktrl::{
    dispatch_after, dispatch_start, handle_key_event, process_locked, run_schedule,
    DeviceEventRecord, DispatchNext, DispatchStage, FxVal, LockError, ProcessOut, SharedStateLock,
    SinkOp, TaggedOp,
};

fn fx(id: u64) -> FxVal {
    FxVal { id }
}

fn silent() -> ProcessOut {
    ProcessOut { effects: None, stop_processing: false }
}

fn answer(ids: &[u64], stop: bool) -> ProcessOut {
    ProcessOut { effects: Some(ids.iter().map(|i| fx(*i)).collect()), stop_processing: stop }
}

fn key(code: u16, value: i32) -> RawEvent {
    RawEvent { kind: EventKind::Key, code, value }
}

#[test]
fn key_events_convert_and_keep_code_and_value() {
    let raw = key(30, 1);
    assert_eq!(KeyEvent::try_from_raw(&raw), Some(KeyEvent { code: 30, value: 1 }));
    assert_eq!(route_event(&raw), Routed::Dispatch(KeyEvent { code: 30, value: 1 }));
}

#[test]
fn non_key_events_pass_through_byte_for_byte() {
    for kind in [EventKind::Syn, EventKind::Msc, EventKind::Rel, EventKind::Other] {
        let raw = RawEvent { kind, code: 7, value: -3 };
        assert_eq!(KeyEvent::try_from_raw(&raw), None);
        assert_eq!(route_event(&raw), Routed::PassThrough(raw));
    }
}

#[test]
fn a_failed_conversion_reaches_the_sink_only_as_the_raw_event() {
    // The record carries stage answers, but for a non-key event none of
    // them is consulted: the only sink operation is the verbatim event.
    let raw = RawEvent { kind: EventKind::Rel, code: 1, value: 5 };
    let rec = DeviceEventRecord {
        device: 0,
        raw,
        th: answer(&[11], true),
        td: answer(&[12], true),
        tm: answer(&[13], true),
        fallback: fx(99),
    };
    assert_eq!(process_locked(&rec), vec![SinkOp::WriteRaw(raw)]);
}

#[test]
fn the_tap_hold_stage_has_first_refusal() {
    let r = handle_key_event(&answer(&[1, 2], true), &answer(&[3], false), &silent(), fx(9));
    assert_eq!(r, vec![fx(1), fx(2)]);
}

#[test]
fn a_stop_without_effects_ends_dispatch_silently() {
    let stop = ProcessOut { effects: None, stop_processing: true };
    let r = handle_key_event(&stop, &answer(&[3], false), &silent(), fx(9));
    assert_eq!(r, Vec::<FxVal>::new());
}

#[test]
fn later_stages_run_only_when_earlier_ones_decline() {
    let r = handle_key_event(&answer(&[1], false), &answer(&[2], false), &answer(&[3], true), fx(9));
    assert_eq!(r, vec![fx(1), fx(2), fx(3)]);
}

#[test]
fn the_fallback_runs_exactly_when_no_stage_consumed_the_event() {
    let r = handle_key_event(&silent(), &silent(), &silent(), fx(9));
    assert_eq!(r, vec![fx(9)]);
    let r = handle_key_event(&silent(), &silent(), &answer(&[], true), fx(9));
    assert_eq!(r, Vec::<FxVal>::new());
}

#[test]
fn the_step_machine_walks_the_fixed_stage_order() {
    assert_eq!(dispatch_start(), DispatchStage::TapHold);
    assert_eq!(
        dispatch_after(DispatchStage::TapHold, &silent()),
        DispatchNext::RunStage(DispatchStage::TapDance)
    );
    assert_eq!(
        dispatch_after(DispatchStage::TapDance, &silent()),
        DispatchNext::RunStage(DispatchStage::TapMod)
    );
    assert_eq!(dispatch_after(DispatchStage::TapMod, &silent()), DispatchNext::RunFallback);
    assert_eq!(
        dispatch_after(DispatchStage::TapHold, &answer(&[1], true)),
        DispatchNext::Finished
    );
}

fn tagged(device: usize, ids: &[u64]) -> Vec<TaggedOp> {
    ids.iter().map(|i| TaggedOp { device, op: SinkOp::Fx(fx(*i)) }).collect()
}

#[test]
fn a_schedule_preserves_per_device_order_and_never_interleaves_effects() {
    // Two devices' scripted key events, interleaved as the lock admitted
    // them: A1, B1, A2.
    let a1 = DeviceEventRecord {
        device: 0,
        raw: key(30, 1),
        th: answer(&[1, 2], true),
        td: silent(),
        tm: silent(),
        fallback: fx(0),
    };
    let b1 = DeviceEventRecord {
        device: 1,
        raw: key(31, 1),
        th: silent(),
        td: answer(&[7], true),
        tm: silent(),
        fallback: fx(0),
    };
    let a2 = DeviceEventRecord {
        device: 0,
        raw: key(30, 0),
        th: silent(),
        td: silent(),
        tm: silent(),
        fallback: fx(3),
    };
    let observed = run_schedule(&vec![a1, b1, a2]);

    // Each event's effects form one contiguous block, in schedule order.
    let mut expected = tagged(0, &[1, 2]);
    expected.extend(tagged(1, &[7]));
    expected.extend(tagged(0, &[3]));
    assert_eq!(observed, expected);

    // Device A's operations appear in A's own event order.
    let a_ops: Vec<&TaggedOp> = observed.iter().filter(|t| t.device == 0).collect();
    assert_eq!(
        a_ops,
        vec![
            &TaggedOp { device: 0, op: SinkOp::Fx(fx(1)) },
            &TaggedOp { device: 0, op: SinkOp::Fx(fx(2)) },
            &TaggedOp { device: 0, op: SinkOp::Fx(fx(3)) },
        ]
    );
}

#[test]
fn a_poisoned_lock_fails_every_later_acquisition() {
    let mut lock = SharedStateLock::new();
    assert_eq!(lock.acquire(), Ok(()));
    // The holder dies mid-dispatch.
    lock.abort_holding();
    assert_eq!(lock.acquire(), Err(LockError::Poisoned));
    assert_eq!(lock.acquire(), Err(LockError::Poisoned));
}

#[test]
fn a_healthy_lock_serializes_dispatch() {
    let mut lock = SharedStateLock::new();
    assert_eq!(lock.acquire(), Ok(()));
    lock.release();
    assert_eq!(lock.acquire(), Ok(()));
    lock.release();
    assert!(!lock.poisoned);
}
