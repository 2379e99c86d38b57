//! An oscillator: it paces ticks of the devices attached to it against the
//! monotonic clock.
use vstd::prelude::*;

use std::time::Instant;

use crate::cpu::CpuError;
use crate::Tickable;

verus! {

#[verifier::external_type_specification]
#[verifier::external_body]
pub struct ExInstant(Instant);

/// Relies on `std::time::Instant::now`: a reading of the monotonic clock.
/// Nothing is known of the value.
#[verifier::external_body]
fn clock_now() -> (r: Instant) {
    Instant::now()
}

/// Relies on `std::time::Instant::saturating_duration_since`: the time from
/// `earlier` to `later` (zero if `later` is earlier), in nanoseconds. Nothing
/// is known of the value.
#[verifier::external_body]
fn nanos_since(earlier: &Instant, later: &Instant) -> (r: u128) {
    later.saturating_duration_since(*earlier).as_nanos()
}

/// Nanoseconds in a second.
pub const NANOS_PER_SECOND: u64 = 1_000_000_000;

/// Hertz in a megahertz.
pub const HERTZ_PER_MEGAHERTZ: u64 = 1_000_000;

/// Whether one pass over `before` can leave `after` with the outcome `r`:
/// the devices tick in order, the pass stops at the first that fails and
/// reports it under its name, and the devices after that one stay as they
/// were.
pub open spec fn passed<D: Tickable>(
    before: Seq<(String, D)>,
    after: Seq<(String, D)>,
    r: Result<(), CpuError>,
) -> bool {
    &&& after.len() == before.len()
    &&& forall|i: int| 0 <= i < before.len() ==> #[trigger] after[i].0 == before[i].0
    &&& match r {
        Ok(()) => forall|i: int|
            0 <= i < before.len() ==> D::ticked(before[i].1, #[trigger] after[i].1, Ok(())),
        Err(e) => exists|k: int|
            0 <= k < before.len() && ticked_before(before, after, k) && (e matches CpuError::ChildTick(
                name,
                cause,
            ) && name@ == before[k].0@ && D::ticked(before[k].1, after[k].1, Err(*cause)))
                && forall|i: int| k < i < before.len() ==> #[trigger] after[i] == before[i],
    }
}

/// The devices before `k` ticked successfully.
pub open spec fn ticked_before<D: Tickable>(
    before: Seq<(String, D)>,
    after: Seq<(String, D)>,
    k: int,
) -> bool {
    forall|i: int| 0 <= i < k ==> D::ticked(before[i].1, #[trigger] after[i].1, Ok(()))
}

/// Ticks the devices attached to it, in the order they were attached, at
/// most once per interval. It does not catch up on ticks it missed.
pub struct Oscillator<D> {
    last_pass: Instant,
    delta: u64,
    devices: Vec<(String, D)>,
}

impl<D: Tickable> Oscillator<D> {
    /// The least time between two passes, in nanoseconds.
    pub closed spec fn interval(&self) -> u64 {
        self.delta
    }

    /// The attached devices with their names, in order.
    pub closed spec fn devices(&self) -> Seq<(String, D)> {
        self.devices@
    }

    /// An oscillator with no device and `delta` nanoseconds between passes,
    /// counting from now.
    pub fn new(delta: u64) -> (r: Oscillator<D>)
        ensures
            r.interval() == delta,
            r.devices().len() == 0,
    {
        Oscillator { last_pass: clock_now(), delta, devices: Vec::new() }
    }

    /// An oscillator that passes `hz` times a second.
    pub fn from_hertz(hz: u64) -> (r: Oscillator<D>)
        requires
            hz > 0,
        ensures
            r.interval() == NANOS_PER_SECOND / hz,
            r.devices().len() == 0,
    {
        Oscillator::new(NANOS_PER_SECOND / hz)
    }

    /// An oscillator that passes `mhz` million times a second.
    pub fn from_megahertz(mhz: u64) -> (r: Oscillator<D>)
        requires
            1 <= mhz <= u64::MAX / HERTZ_PER_MEGAHERTZ,
        ensures
            r.interval() == NANOS_PER_SECOND / ((mhz * HERTZ_PER_MEGAHERTZ) as u64),
            r.devices().len() == 0,
    {
        Oscillator::from_hertz(mhz * HERTZ_PER_MEGAHERTZ)
    }

    /// Attaches `device` under `name`, after the devices already attached.
    pub fn connect(&mut self, name: &str, device: D)
        ensures
            final(self).interval() == old(self).interval(),
            final(self).devices().len() == old(self).devices().len() + 1,
            final(self).devices().drop_last() == old(self).devices(),
            final(self).devices().last().0@ == name@,
            final(self).devices().last().1 == device,
    {
        self.devices.push((name.to_owned(), device));
        assert(self.devices().drop_last() =~= old(self).devices());
    }

    /// Detaches the devices, in order, with their names.
    pub fn into_devices(self) -> (r: Vec<(String, D)>)
        ensures
            r@ == self.devices(),
    {
        self.devices
    }

    /// Whether a pass is due after `elapsed` nanoseconds: only once more
    /// than the interval has gone by.
    pub fn due(&self, elapsed: u128) -> (r: bool)
        ensures
            r == (elapsed > self.interval() as u128),
    {
        elapsed > self.delta as u128
    }

    /// Ticks every device once, in order; stops at the first failure and
    /// reports it with the device's name.
    pub fn pass(&mut self) -> (r: Result<(), CpuError>)
        ensures
            final(self).interval() == old(self).interval(),
            passed(old(self).devices(), final(self).devices(), r),
    {
        let ghost before = self.devices@;
        let mut i: usize = 0;
        while i < self.devices.len()
            invariant
                i <= self.devices@.len(),
                self.devices@.len() == before.len(),
                self.delta == old(self).delta,
                before == old(self).devices@,
                forall|j: int| 0 <= j < before.len() ==> #[trigger] self.devices@[j].0 == before[j].0,
                ticked_before(before, self.devices@, i as int),
                forall|j: int| i <= j < before.len() ==> #[trigger] self.devices@[j] == before[j],
            decreases before.len() - i,
        {
            let ghost cur = self.devices@;
            let r = self.devices[i].1.tick();
            let ghost now = self.devices@;
            assert(forall|j: int| 0 <= j < cur.len() && j != i ==> now[j] == cur[j]);
            let ghost outcome = r;
            match r {
                Ok(_) => {
                    assert forall|j: int| 0 <= j < i + 1 implies D::ticked(
                        before[j].1,
                        #[trigger] now[j].1,
                        Ok(()),
                    ) by {
                        if j < i {
                            assert(D::ticked(before[j].1, cur[j].1, Ok(())));
                        } else {
                            assert(cur[j] == before[j]);
                            assert(outcome == Ok::<(), CpuError>(outcome->Ok_0));
                        }
                    }
                },
                Err(e) => {
                    assert(cur[i as int] == before[i as int]);
                    let name = self.devices[i].0.clone();
                    let ghost cause = e;
                    let out = Err(CpuError::ChildTick(name, Box::new(e)));
                    proof {
                        assert forall|j: int| 0 <= j < i implies D::ticked(
                            before[j].1,
                            #[trigger] now[j].1,
                            Ok(()),
                        ) by {
                            assert(D::ticked(before[j].1, cur[j].1, Ok(())));
                        }
                        let eo = out->Err_0;
                        assert(ticked_before(before, now, i as int) && (eo matches CpuError::ChildTick(
                            n,
                            c,
                        ) && n@ == before[i as int].0@ && D::ticked(before[i as int].1, now[i as int].1, Err(*c))));
                    }
                    return out;
                },
            }
            i = i + 1;
        }
        Ok(())
    }
}

impl<D: Tickable> Tickable for Oscillator<D> {
    open spec fn ticked(before: Self, after: Self, r: Result<(), CpuError>) -> bool {
        &&& after.interval() == before.interval()
        &&& (r is Ok && after.devices() == before.devices()) || passed(
            before.devices(),
            after.devices(),
            r,
        )
    }

    /// Reads the clock; when more than the interval has gone by since the
    /// last successful pass, ticks every device and restarts the interval.
    fn tick(&mut self) -> (r: Result<(), CpuError>) {
        let now = clock_now();
        let elapsed = nanos_since(&self.last_pass, &now);
        if self.due(elapsed) {
            self.pass()?;
            self.last_pass = now;
        }
        Ok(())
    }
}

} // verus!
