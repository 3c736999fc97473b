//! The duty controller and the two effect algorithms.

use vstd::prelude::*;

use crate::Error;
use crate::arith::sat_mul;
use crate::pin::PwmPin;
use crate::schedule::breath_delays;
use crate::schedule::breath_step_delay;
use crate::schedule::breath_writes;
use crate::schedule::decay;
use crate::schedule::hb_down_delay;
use crate::schedule::hb_period;
use crate::schedule::hb_short;
use crate::schedule::heartbeat_delays;
use crate::schedule::heartbeat_writes;
use crate::schedule::pause;
use crate::schedule::ramp_down;
use crate::schedule::ramp_up;
use crate::timing::Delay;

verus! {

/// The duty controller: owns a PWM channel and a timing capability together
/// with calibration bounds that construction validated.
///
/// `pwm_mid` is derived from the bounds at construction and never changes;
/// the two effect methods drive the channel through their whole duty
/// schedule before returning.
pub struct LEDEffect<PWM: PwmPin, D: Delay> {
    pin: PWM,
    delay: D,
    pwm_min: u32,
    pwm_max: u32,
    pwm_mid: u32,
}

impl<PWM: PwmPin, D: Delay> LEDEffect<PWM, D> {
    /// The owned PWM channel, for specification purposes.
    pub closed spec fn spec_pin(&self) -> PWM {
        self.pin
    }

    /// The owned timing capability, for specification purposes.
    pub closed spec fn spec_delay(&self) -> D {
        self.delay
    }

    /// The calibrated minimum duty value.
    pub closed spec fn duty_min(&self) -> u32 {
        self.pwm_min
    }

    /// The calibrated maximum duty value.
    pub closed spec fn duty_max(&self) -> u32 {
        self.pwm_max
    }

    /// The calibrated midpoint duty value.
    pub closed spec fn duty_mid(&self) -> u32 {
        self.pwm_mid
    }

    /// Calibration invariant, established by construction: the bounds are
    /// strictly ordered and the midpoint sits halfway between them
    /// (truncated).
    pub open spec fn wf(&self) -> bool {
        &&& self.duty_min() < self.duty_max()
        &&& self.duty_mid() == self.duty_min() + (self.duty_max() - self.duty_min()) / 2
    }

    /// Validated construction that hands the capabilities back on failure.
    ///
    /// Succeeds exactly when `pwm_max` is strictly greater than `pwm_min`;
    /// on success the PWM output is enabled (and nothing is written), on
    /// failure both capabilities come back untouched beside an
    /// `InvalidParameter` error.
    pub fn try_new(pin: PWM, delay: D, pwm_min: u32, pwm_max: u32) -> (r: Result<
        Self,
        (PWM, D, Error),
    >)
        ensures
            r is Ok <==> pwm_min < pwm_max,
            (match r {
                Ok(c) => {
                    &&& c.wf()
                    &&& c.duty_min() == pwm_min
                    &&& c.duty_max() == pwm_max
                    &&& c.duty_mid() == pwm_min + (pwm_max - pwm_min) / 2
                    &&& c.spec_pin().enabled()
                    &&& c.spec_pin().writes() == pin.writes()
                    &&& c.spec_pin().duty() == pin.duty()
                    &&& c.spec_pin().max_duty() == pin.max_duty()
                    &&& c.spec_delay() == delay
                },
                Err((p, d, e)) => {
                    &&& p == pin
                    &&& d == delay
                    &&& e is InvalidParameter
                },
            }),
    {
        if pwm_max <= pwm_min {
            return Err((pin, delay, Error::InvalidParameter));
        }
        let pwm_mid = pwm_min + (pwm_max - pwm_min) / 2;
        let mut pin = pin;
        pin.enable();
        Ok(LEDEffect { pin, delay, pwm_min, pwm_max, pwm_mid })
    }

    /// Create a controller from a PWM channel, a timing capability and
    /// calibration bounds.
    ///
    /// Succeeds exactly when `pwm_max` is strictly greater than `pwm_min`,
    /// enabling the PWM output as its one side effect; otherwise fails with
    /// `InvalidParameter`, dropping the supplied capabilities unused.
    pub fn new(pin: PWM, delay: D, pwm_min: u32, pwm_max: u32) -> (r: Result<Self, Error>)
        ensures
            r is Ok <==> pwm_min < pwm_max,
            (match r {
                Ok(c) => {
                    &&& c.wf()
                    &&& c.duty_min() == pwm_min
                    &&& c.duty_max() == pwm_max
                    &&& c.duty_mid() == pwm_min + (pwm_max - pwm_min) / 2
                    &&& c.spec_pin().enabled()
                    &&& c.spec_pin().writes() == pin.writes()
                    &&& c.spec_pin().duty() == pin.duty()
                    &&& c.spec_pin().max_duty() == pin.max_duty()
                    &&& c.spec_delay() == delay
                },
                Err(e) => e is InvalidParameter,
            }),
    {
        match Self::try_new(pin, delay, pwm_min, pwm_max) {
            Ok(c) => Ok(c),
            Err((_p, _d, e)) => Err(e),
        }
    }

    /// Heartbeat effect: `flash_beats` discrete flash-and-decay beats at a
    /// tempo derived from `bpm`, with an extra pause every `grouped_as`
    /// beats to accent the rhythm, then the output set fully off.
    ///
    /// The channel receives exactly the duty values of
    /// [`heartbeat_writes`] followed by an absolute 0, and the timing
    /// capability exactly the delays of [`heartbeat_delays`]. Parameters
    /// that would divide by zero — `bpm == 0`, `grouped_as == 0`, or a
    /// calibration span so narrow that the midpoint equals the minimum —
    /// fail fast with `InvalidParameter` before anything is written.
    pub fn heartbeat(&mut self, flash_beats: u32, grouped_as: u32, bpm: u32) -> (r: Result<
        (),
        Error,
    >)
        requires
            old(self).wf(),
        ensures
            final(self).wf(),
            final(self).duty_min() == old(self).duty_min(),
            final(self).duty_max() == old(self).duty_max(),
            final(self).duty_mid() == old(self).duty_mid(),
            r is Ok <==> bpm >= 1 && grouped_as >= 1 && old(self).duty_min() < old(
                self,
            ).duty_mid(),
            r is Err ==> r->Err_0 is InvalidParameter && *final(self) == *old(self),
            r is Ok ==> {
                &&& final(self).spec_pin().enabled() == old(self).spec_pin().enabled()
                &&& final(self).spec_pin().max_duty() == old(self).spec_pin().max_duty()
                &&& final(self).spec_pin().writes() == old(self).spec_pin().writes()
                    + heartbeat_writes(
                    old(self).duty_min(),
                    old(self).duty_mid(),
                    old(self).duty_max(),
                    flash_beats,
                ) + seq![0u32]
                &&& final(self).spec_pin().duty() == 0
                &&& final(self).spec_delay().delays() == old(self).spec_delay().delays()
                    + heartbeat_delays(
                    old(self).duty_min(),
                    old(self).duty_mid(),
                    grouped_as,
                    bpm,
                    flash_beats,
                )
            },
    {
        if bpm == 0 || grouped_as == 0 || self.pwm_mid <= self.pwm_min {
            return Err(Error::InvalidParameter);
        }
        let ghost w0 = self.pin.writes();
        let ghost d0 = self.delay.delays();
        let ghost en0 = self.pin.enabled();
        let ghost mx0 = self.pin.max_duty();
        let ghost min0 = self.pwm_min;
        let ghost max0 = self.pwm_max;
        let ghost mid0 = self.pwm_mid;

        let period_time = (60_000 / bpm) / 6;
        let short_period_time = period_time / 3;
        let down_delay_time = (period_time * 2) / (self.pwm_mid - self.pwm_min);

        let mut n: u32 = 0;
        while n < flash_beats
            invariant
                self.pwm_min == min0,
                self.pwm_max == max0,
                self.pwm_mid == mid0,
                min0 < mid0,
                bpm >= 1,
                grouped_as >= 1,
                n <= flash_beats,
                period_time == hb_period(bpm),
                period_time <= 10000,
                short_period_time == hb_short(bpm),
                down_delay_time == hb_down_delay(min0, mid0, bpm),
                self.pin.enabled() == en0,
                self.pin.max_duty() == mx0,
                self.pin.writes() == w0 + heartbeat_writes(min0, mid0, max0, n),
                self.delay.delays() == d0 + heartbeat_delays(min0, mid0, grouped_as, bpm, n),
            decreases flash_beats - n,
        {
            n = n + 1;
            let ghost wb = self.pin.writes();
            let ghost db = self.delay.delays();

            self.pin.set_duty(self.pwm_max);
            self.delay.delay_ms(short_period_time);

            self.pin.set_duty(self.pwm_min);
            self.delay.delay_ms(short_period_time * 2);

            self.pin.set_duty(self.pwm_mid);

            let mut current: u32 = self.pwm_mid;
            self.pin.set_duty(current);
            self.delay.delay_ms(down_delay_time);
            proof {
                assert(self.pin.writes() =~= wb + seq![max0, min0, mid0] + decay(mid0, current));
                assert(self.delay.delays() =~= db + seq![
                    short_period_time,
                    (2 * short_period_time) as u32,
                ] + Seq::new((mid0 - current + 1) as nat, |i: int| down_delay_time));
            }
            while current > self.pwm_min
                invariant
                    self.pwm_min == min0,
                    self.pwm_max == max0,
                    self.pwm_mid == mid0,
                    min0 <= current <= mid0,
                    self.pin.enabled() == en0,
                    self.pin.max_duty() == mx0,
                    self.pin.writes() == wb + seq![max0, min0, mid0] + decay(mid0, current),
                    self.delay.delays() == db + seq![
                        short_period_time,
                        (2 * short_period_time) as u32,
                    ] + Seq::new((mid0 - current + 1) as nat, |i: int| down_delay_time),
                decreases current - min0,
            {
                current = current - 1;
                self.pin.set_duty(current);
                self.delay.delay_ms(down_delay_time);
                proof {
                    assert(decay(mid0, current) =~= decay(mid0, (current + 1) as u32).push(
                        current,
                    ));
                    assert(wb + seq![max0, min0, mid0] + decay(mid0, (current + 1) as u32).push(
                        current,
                    ) =~= (wb + seq![max0, min0, mid0] + decay(mid0, (current + 1) as u32)).push(
                        current,
                    ));
                    assert(Seq::new((mid0 - current + 1) as nat, |i: int| down_delay_time)
                        =~= Seq::new((mid0 - (current + 1) + 1) as nat, |i: int| down_delay_time)
                        .push(down_delay_time));
                    assert(db + seq![short_period_time, (2 * short_period_time) as u32] + Seq::new(
                        (mid0 - (current + 1) + 1) as nat,
                        |i: int| down_delay_time,
                    ).push(down_delay_time) =~= (db + seq![
                        short_period_time,
                        (2 * short_period_time) as u32,
                    ] + Seq::new((mid0 - (current + 1) + 1) as nat, |i: int| down_delay_time)).push(
                        down_delay_time,
                    ));
                }
            }

            let wait = if n % grouped_as != 0 {
                period_time
            } else if grouped_as == 1 {
                period_time * 2
            } else {
                (period_time * 2).saturating_add(sat_mul(grouped_as, period_time))
            };
            self.delay.delay_ms(wait);
            proof {
                assert(wait == pause(n, grouped_as, hb_period(bpm)));
                assert(self.pin.writes() =~= w0 + heartbeat_writes(min0, mid0, max0, n));
                assert(self.delay.delays() =~= d0 + heartbeat_delays(
                    min0,
                    mid0,
                    grouped_as,
                    bpm,
                    n,
                ));
            }
        }
        self.pin.set_duty(0);
        proof {
            assert(self.pin.writes() =~= w0 + heartbeat_writes(min0, mid0, max0, flash_beats)
                + seq![0u32]);
        }
        Ok(())
    }

    /// Breathing effect: a smooth linear fade from the calibrated minimum up
    /// to the maximum and back, spread over `duration` milliseconds, then
    /// the output set fully off (an absolute 0, which may lie below the
    /// calibrated minimum).
    ///
    /// The channel receives exactly the duty values of
    /// [`breath_writes`] and the timing capability exactly the delays of
    /// [`breath_delays`]. A duration small enough that the step delay
    /// truncates to 0 simply runs the ramps at the fastest rate the
    /// hardware allows; no failure path exists.
    pub fn breath(&mut self, duration: u32) -> (r: Result<(), Error>)
        requires
            old(self).wf(),
        ensures
            r is Ok,
            final(self).wf(),
            final(self).duty_min() == old(self).duty_min(),
            final(self).duty_max() == old(self).duty_max(),
            final(self).duty_mid() == old(self).duty_mid(),
            final(self).spec_pin().enabled() == old(self).spec_pin().enabled(),
            final(self).spec_pin().max_duty() == old(self).spec_pin().max_duty(),
            final(self).spec_pin().writes() == old(self).spec_pin().writes() + breath_writes(
                old(self).duty_min(),
                old(self).duty_max(),
            ),
            final(self).spec_pin().duty() == 0,
            final(self).spec_delay().delays() == old(self).spec_delay().delays() + breath_delays(
                old(self).duty_min(),
                old(self).duty_max(),
                duration,
            ),
    {
        let ghost w0 = self.pin.writes();
        let ghost d0 = self.delay.delays();
        let ghost en0 = self.pin.enabled();
        let ghost mx0 = self.pin.max_duty();
        let ghost min0 = self.pwm_min;
        let ghost max0 = self.pwm_max;
        let ghost mid0 = self.pwm_mid;

        let period_time = duration / 6;
        let span = self.pwm_max - self.pwm_min;
        // Both ramps deliberately share one delay formula; changing either
        // would alter the observable timing.
        let up_delay = (period_time * 2) / span;
        let down_delay = (period_time * 2) / span;

        let mut current: u32 = self.pwm_min;
        while current < self.pwm_max
            invariant
                self.pwm_min == min0,
                self.pwm_max == max0,
                self.pwm_mid == mid0,
                min0 < max0,
                min0 <= current <= max0,
                up_delay == breath_step_delay(min0, max0, duration),
                self.pin.enabled() == en0,
                self.pin.max_duty() == mx0,
                self.pin.writes() == w0 + ramp_up(min0, current),
                self.delay.delays() == d0 + Seq::new((current - min0) as nat, |i: int| up_delay),
            decreases max0 - current,
        {
            self.pin.set_duty(current);
            self.delay.delay_ms(up_delay);
            proof {
                assert(ramp_up(min0, (current + 1) as u32) =~= ramp_up(min0, current).push(
                    current,
                ));
                assert(w0 + ramp_up(min0, current).push(current) =~= (w0 + ramp_up(
                    min0,
                    current,
                )).push(current));
                assert(Seq::new((current + 1 - min0) as nat, |i: int| up_delay) =~= Seq::new(
                    (current - min0) as nat,
                    |i: int| up_delay,
                ).push(up_delay));
                assert(d0 + Seq::new((current - min0) as nat, |i: int| up_delay).push(up_delay)
                    =~= (d0 + Seq::new((current - min0) as nat, |i: int| up_delay)).push(up_delay));
            }
            current = current + 1;
        }

        current = self.pwm_max;
        while current > self.pwm_min
            invariant
                self.pwm_min == min0,
                self.pwm_max == max0,
                self.pwm_mid == mid0,
                min0 < max0,
                min0 <= current <= max0,
                down_delay == breath_step_delay(min0, max0, duration),
                self.pin.enabled() == en0,
                self.pin.max_duty() == mx0,
                self.pin.writes() == w0 + ramp_up(min0, max0) + ramp_down(max0, current),
                self.delay.delays() == d0 + Seq::new((max0 - min0) as nat, |i: int| down_delay)
                    + Seq::new((max0 - current) as nat, |i: int| down_delay),
            decreases current - min0,
        {
            self.pin.set_duty(current);
            self.delay.delay_ms(down_delay);
            proof {
                assert(ramp_down(max0, (current - 1) as u32) =~= ramp_down(max0, current).push(
                    current,
                ));
                assert(w0 + ramp_up(min0, max0) + ramp_down(max0, current).push(current) =~= (w0
                    + ramp_up(min0, max0) + ramp_down(max0, current)).push(current));
                assert(Seq::new((max0 - (current - 1)) as nat, |i: int| down_delay) =~= Seq::new(
                    (max0 - current) as nat,
                    |i: int| down_delay,
                ).push(down_delay));
                assert(d0 + Seq::new((max0 - min0) as nat, |i: int| down_delay) + Seq::new(
                    (max0 - current) as nat,
                    |i: int| down_delay,
                ).push(down_delay) =~= (d0 + Seq::new((max0 - min0) as nat, |i: int| down_delay)
                    + Seq::new((max0 - current) as nat, |i: int| down_delay)).push(down_delay));
            }
            current = current - 1;
        }

        self.delay.delay_ms(period_time * 2);
        self.pin.set_duty(0);
        proof {
            assert(self.pin.writes() =~= w0 + breath_writes(min0, max0));
            assert(self.delay.delays() =~= d0 + breath_delays(min0, max0, duration));
        }
        Ok(())
    }

    /// Release ownership of the PWM channel back to the caller.
    ///
    /// Always succeeds; the channel comes back exactly as the last effect
    /// left it — no disable call and no extra duty write is issued.
    pub fn destroy(self) -> (r: PWM)
        ensures
            r == self.spec_pin(),
    {
        self.pin
    }

    /// Release both owned capabilities back to the caller, untouched.
    pub fn into_parts(self) -> (r: (PWM, D))
        ensures
            r == (self.spec_pin(), self.spec_delay()),
    {
        (self.pin, self.delay)
    }

    /// The calibration bounds (minimum, midpoint, maximum), in duty units.
    pub fn calibration(&self) -> (r: (u32, u32, u32))
        ensures
            r == (self.duty_min(), self.duty_mid(), self.duty_max()),
    {
        (self.pwm_min, self.pwm_mid, self.pwm_max)
    }
}

} // verus!
