//! Exclusive capture of one device node: compatibility validation,
//! bounded retry with exponential backoff around the permission race, and
//! acceptance of blocking reads.
//!
//! Opening, grabbing and reading the device node itself are kernel I/O
//! and are driven by an unverified shell; it reports each attempt's
//! outcome and the device's capabilities as plain values, and this module
//! makes every decision.

use crate::keys::RawEvent;
use vstd::prelude::*;
use vstd::string::StringExecFns;

verus! {

/// What the shell read off a freshly opened device node: whether its
/// capability set includes absolute-axis events, and its reported name
/// (empty when the device reports none).
pub struct DeviceInfo {
    pub has_abs_axes: bool,
    pub name: String,
}

impl Clone for DeviceInfo {
    fn clone(&self) -> (r: Self)
        ensures
            r == *self,
    {
        DeviceInfo { has_abs_axes: self.has_abs_axes, name: self.name.clone() }
    }
}

/// Why capturing a device failed.
#[derive(Clone, Copy, PartialEq, Eq, Structural, Debug)]
pub enum OpenFailure {
    /// The open was denied: the race between the creation notification
    /// and the permission rules; retryable, and the error reported when
    /// the retry budget is exhausted. The process then lacks the group
    /// membership that grants device access.
    PermissionDenied,
    /// The capability set includes absolute-axis events: capturing such
    /// a device exclusively would intercept pointer input; permanent.
    UnsupportedTouchpad,
    /// The device reports the daemon's own output-device name: capturing
    /// it would feed the daemon its own synthesized output; permanent.
    SelfOutputDevice,
    /// Any other open failure; fatal at once, never retried.
    OtherIo,
}

/// The outcome of one attempt to open a device node, as the shell
/// observed it.
pub enum AttemptOutcome {
    Opened(DeviceInfo),
    Denied,
    Failed,
}

/// The name under which the daemon's own virtual output device reports
/// itself.
pub open spec fn spec_output_device_name() -> Seq<char> {
    "ktrl"@
}

/// Validation verdict for an opened device.
pub open spec fn spec_validate(info: DeviceInfo) -> Result<(), OpenFailure> {
    if info.has_abs_axes {
        Err(OpenFailure::UnsupportedTouchpad)
    } else if info.name@ == spec_output_device_name() {
        Err(OpenFailure::SelfOutputDevice)
    } else {
        Ok(())
    }
}

/// Rejects devices that must never be captured: absolute-axis devices
/// (always `UnsupportedTouchpad`, whatever else the device reports), and
/// the daemon's own output device (`SelfOutputDevice`, even when the
/// device is otherwise fully compatible). Every other device is accepted.
pub fn validate_device(info: &DeviceInfo) -> (r: Result<(), OpenFailure>)
    ensures
        r == spec_validate(*info),
{
    if info.has_abs_axes {
        return Err(OpenFailure::UnsupportedTouchpad);
    }
    let own_name: String = "ktrl".to_owned();
    if info.name.eq(&own_name) {
        return Err(OpenFailure::SelfOutputDevice);
    }
    Ok(())
}

/// Whether a failed open attempt is retried or is fatal at once.
#[derive(Clone, Copy, PartialEq, Eq, Structural, Debug)]
pub enum RetryClass {
    Retryable,
    Fatal,
}

/// The error classifier of the retry loop: only a denied open is
/// retryable, every other failure is fatal at once.
pub fn classify_open_failure(e: &OpenFailure) -> (r: RetryClass)
    ensures
        (r == RetryClass::Retryable) == (*e == OpenFailure::PermissionDenied),
{
    match e {
        OpenFailure::PermissionDenied => RetryClass::Retryable,
        _ => RetryClass::Fatal,
    }
}

/// The retry policy around the open race: a small base delay, doubled
/// after each denied attempt, and a cap on the number of retries after
/// the first attempt.
#[derive(Clone, Copy, PartialEq, Eq, Structural, Debug)]
pub struct RetryPolicy {
    pub base_delay_ms: u64,
    pub max_retries: usize,
}

/// The policy the daemon runs with.
pub fn default_retry_policy() -> (r: RetryPolicy)
    ensures
        r.base_delay_ms == 3,
        r.max_retries == 10,
{
    RetryPolicy { base_delay_ms: 3, max_retries: 10 }
}

/// The backoff delay before the retry that follows `n` failed attempts:
/// the base delay doubled `n` times, saturating instead of overflowing.
pub open spec fn spec_delay_ms(base: u64, n: nat) -> u64
    decreases n,
{
    if n == 0 {
        base
    } else {
        let prev = spec_delay_ms(base, (n - 1) as nat);
        if prev > u64::MAX / 2 {
            u64::MAX
        } else {
            (2 * prev) as u64
        }
    }
}

impl RetryPolicy {
    /// The delay, in milliseconds, to sleep before the retry that
    /// follows `retries_done` failed attempts.
    pub fn delay_after(&self, retries_done: usize) -> (r: u64)
        ensures
            r == spec_delay_ms(self.base_delay_ms, retries_done as nat),
    {
        let mut d: u64 = self.base_delay_ms;
        let mut i: usize = 0;
        while i < retries_done
            invariant
                0 <= i <= retries_done,
                d == spec_delay_ms(self.base_delay_ms, i as nat),
            decreases retries_done - i,
        {
            if d > u64::MAX / 2 {
                d = u64::MAX;
            } else {
                d = 2 * d;
            }
            i = i + 1;
        }
        d
    }
}

/// The result the bounded retry loop arrives at, given the outcome of
/// each successive attempt and the number of attempts allowed: the first
/// attempt that is not denied decides (its device still subject to
/// validation), and a denial with no retry budget left reports the
/// permission error.
pub open spec fn spec_open_result(outcomes: Seq<AttemptOutcome>, attempts: nat) -> Result<
    DeviceInfo,
    OpenFailure,
>
    decreases attempts,
{
    if attempts == 0 || outcomes.len() == 0 {
        Err(OpenFailure::PermissionDenied)
    } else {
        match outcomes[0] {
            AttemptOutcome::Opened(info) => match spec_validate(info) {
                Ok(_) => Ok(info),
                Err(e) => Err(e),
            },
            AttemptOutcome::Failed => Err(OpenFailure::OtherIo),
            AttemptOutcome::Denied => if attempts == 1 {
                Err(OpenFailure::PermissionDenied)
            } else {
                spec_open_result(outcomes.drop_first(), (attempts - 1) as nat)
            },
        }
    }
}

/// A captured input device: the model handle the dispatch engine works
/// with. The shell owns the kernel handle; path and report identify it
/// here.
pub struct KbdIn {
    pub path: String,
    pub info: DeviceInfo,
}

/// The status of one blocking device read, as the kernel interface
/// reports it: fully successful, or anything else (desynchronized
/// stream, buffer overrun).
#[derive(Clone, Copy, PartialEq, Eq, Structural, Debug)]
pub enum ReadStatus {
    Success,
    Desync,
}

/// Failure of a device read; the shell logs it with the device's path
/// and lets the device's reader terminate.
#[derive(Clone, Copy, PartialEq, Eq, Structural, Debug)]
pub enum ReadError {
    BadStatus,
}

impl KbdIn {
    /// The bounded retry loop around device capture, run against the
    /// outcomes of the successive open attempts (in a simulation, a
    /// script; under the daemon, what the shell observed). Succeeds
    /// exactly when some attempt within the budget of
    /// `policy.max_retries + 1` opens a device that passes validation;
    /// denials below the budget are retried, a denial at the budget
    /// reports the permission error, and any other failure is fatal at
    /// once.
    pub fn new(path: &str, outcomes: &Vec<AttemptOutcome>, policy: &RetryPolicy) -> (r: Result<
        KbdIn,
        OpenFailure,
    >)
        requires
            outcomes@.len() > policy.max_retries,
        ensures
            ({
                let expected = spec_open_result(outcomes@, (policy.max_retries + 1) as nat);
                match r {
                    Ok(k) => expected matches Ok(info) && k.info == info && k.path@ == path@,
                    Err(e) => expected == Err::<DeviceInfo, OpenFailure>(e),
                }
            }),
    {
        let budget: usize = policy.max_retries;
        let mut idx: usize = 0;
        proof {
            assert(outcomes@.skip(0) =~= outcomes@);
        }
        loop
            invariant
                budget == policy.max_retries,
                0 <= idx <= budget,
                outcomes@.len() > budget,
                spec_open_result(outcomes@.skip(idx as int), (budget + 1 - idx) as nat)
                    == spec_open_result(outcomes@, (budget + 1) as nat),
            decreases budget - idx,
        {
            proof {
                assert(outcomes@.skip(idx as int)[0] == outcomes@[idx as int]);
            }
            match &outcomes[idx] {
                AttemptOutcome::Opened(info) => {
                    proof {
                        let s = outcomes@.skip(idx as int);
                        let n = (budget + 1 - idx) as nat;
                        assert(s[0] == AttemptOutcome::Opened(*info));
                        assert(n >= 1 && s.len() > 0);
                        assert(spec_open_result(s, n) == (match spec_validate(*info) {
                            Ok(u) => Ok::<DeviceInfo, OpenFailure>(*info),
                            Err(e) => Err::<DeviceInfo, OpenFailure>(e),
                        }));
                    }
                    return match validate_device(info) {
                        Ok(_) => Ok(KbdIn { path: path.to_owned(), info: info.clone() }),
                        Err(e) => Err(e),
                    };
                },
                AttemptOutcome::Failed => {
                    proof {
                        let s = outcomes@.skip(idx as int);
                        assert(s[0] == AttemptOutcome::Failed);
                        assert(spec_open_result(s, (budget + 1 - idx) as nat) == Err::<
                            DeviceInfo,
                            OpenFailure,
                        >(OpenFailure::OtherIo));
                    }
                    return Err(OpenFailure::OtherIo);
                },
                AttemptOutcome::Denied => {
                    if idx == budget {
                        proof {
                            let s = outcomes@.skip(idx as int);
                            assert(s[0] == AttemptOutcome::Denied);
                            assert(spec_open_result(s, 1) == Err::<DeviceInfo, OpenFailure>(
                                OpenFailure::PermissionDenied,
                            ));
                        }
                        return Err(OpenFailure::PermissionDenied);
                    }
                    proof {
                        assert(outcomes@.skip(idx as int).drop_first() =~= outcomes@.skip(
                            idx + 1,
                        ));
                    }
                    idx = idx + 1;
                },
            }
        }
    }

    /// Acceptance of one blocking read: only a fully successful status
    /// yields the event; any other status is the fatal read error.
    pub fn read(&self, status: ReadStatus, event: RawEvent) -> (r: Result<RawEvent, ReadError>)
        ensures
            status == ReadStatus::Success ==> r == Ok::<RawEvent, ReadError>(event),
            status != ReadStatus::Success ==> r == Err::<RawEvent, ReadError>(ReadError::BadStatus),
    {
        match status {
            ReadStatus::Success => Ok(event),
            ReadStatus::Desync => Err(ReadError::BadStatus),
        }
    }
}

} // verus!
