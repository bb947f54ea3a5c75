use vstd::prelude::*;

use std::time::Instant;

verus! {

#[verifier::external_type_specification]
#[verifier::external_body]
pub struct ExInstant(std::time::Instant);

/// Relies on std::time::Instant::now: a reading of the monotonic clock.
#[verifier::external_body]
fn now() -> (r: Instant) {
    Instant::now()
}

/// Relies on Instant::duration_since and Duration::as_secs: the whole seconds
/// from `earlier` to `later`; duration_since saturates to zero instead of
/// panicking when `earlier` is the later one.
#[verifier::external_body]
fn whole_seconds_between(later: &Instant, earlier: &Instant) -> (r: u64) {
    later.duration_since(*earlier).as_secs()
}

/// What one poll of the countdown did.
#[derive(Clone, Copy, Debug, PartialEq, Eq, Structural)]
pub enum Tick {
    /// Less than a second has passed since the last recorded instant.
    Waiting,
    /// A second was counted off and some remain.
    Counted,
    /// The last second was counted off: the countdown is over and reset.
    Expired,
}

/// The model of a `Timer`.
pub struct TimerView {
    pub seconds: usize,
    pub form_open: bool,
    pub running: bool,
    pub start: Option<Instant>,
}

/// A delayed-capture countdown: the delay in seconds, whether its settings
/// form is open, whether it runs, and the instant of the last counted second.
pub struct Timer {
    pub seconds: usize,
    form_open: bool,
    running: bool,
    pub start_instant: Option<Instant>,
}

impl View for Timer {
    type V = TimerView;

    closed spec fn view(&self) -> TimerView {
        TimerView {
            seconds: self.seconds,
            form_open: self.form_open,
            running: self.running,
            start: self.start_instant,
        }
    }
}

impl Timer {
    pub fn new() -> (r: Timer)
        ensures
            r@ == (TimerView { seconds: 0, form_open: false, running: false, start: None }),
    {
        Timer { seconds: 0, form_open: false, running: false, start_instant: None }
    }

    /// The delay, in seconds, left before the capture.
    pub fn delay(&self) -> (r: usize)
        ensures
            r == self@.seconds,
    {
        self.seconds
    }

    pub fn set_delay(&mut self, seconds: usize)
        ensures
            final(self)@ == (TimerView { seconds, ..old(self)@ }),
    {
        self.seconds = seconds;
    }

    pub fn form_opened(&self) -> (r: bool)
        ensures
            r == self@.form_open,
    {
        self.form_open
    }

    pub fn open_form(&mut self)
        ensures
            final(self)@ == (TimerView { form_open: true, ..old(self)@ }),
    {
        self.form_open = true;
    }

    pub fn close_form(&mut self)
        ensures
            final(self)@ == (TimerView { form_open: false, ..old(self)@ }),
    {
        self.form_open = false;
    }

    /// Closes the form, starts the countdown and records the instant `at`.
    pub fn start_at(&mut self, at: Instant)
        ensures
            final(self)@ == (TimerView {
                form_open: false,
                running: true,
                start: Some(at),
                ..old(self)@
            }),
    {
        self.form_open = false;
        self.running = true;
        self.start_instant = Some(at);
    }

    /// Closes the form, starts the countdown and records the current instant.
    pub fn start_timer(&mut self)
        ensures
            final(self)@.seconds == old(self)@.seconds,
            !final(self)@.form_open,
            final(self)@.running,
            final(self)@.start is Some,
    {
        let at = now();
        self.start_at(at);
    }

    /// Counts off one second.
    pub fn decrement_timer(&mut self)
        requires
            old(self)@.seconds > 0,
        ensures
            final(self)@ == (TimerView { seconds: (old(self)@.seconds - 1) as usize, ..old(self)@ }),
    {
        self.seconds -= 1;
    }

    /// Stops the countdown, closes the form and sets the delay to zero.
    pub fn reset_timer(&mut self)
        ensures
            final(self)@ == (TimerView { seconds: 0, form_open: false, running: false, ..old(self)@ }),
    {
        self.seconds = 0;
        self.form_open = false;
        self.running = false;
    }

    pub fn is_running(&self) -> (r: bool)
        ensures
            r == self@.running,
    {
        self.running
    }

    /// Applies one poll, `elapsed` being the whole seconds since the last
    /// recorded instant and `at` the instant of the poll. From one second on,
    /// a second is counted off and `at` recorded; when none remains, the
    /// countdown is reset.
    pub fn advance(&mut self, elapsed: u64, at: Instant) -> (r: Tick)
        ensures
            elapsed == 0 ==> r == Tick::Waiting && final(self)@ == old(self)@,
            elapsed > 0 && old(self)@.seconds > 1 ==> r == Tick::Counted && final(self)@ == (
            TimerView { seconds: (old(self)@.seconds - 1) as usize, start: Some(at), ..old(self)@ }),
            elapsed > 0 && old(self)@.seconds <= 1 ==> r == Tick::Expired && final(self)@ == (
            TimerView { seconds: 0, form_open: false, running: false, start: Some(at) }),
    {
        if elapsed == 0 {
            return Tick::Waiting;
        }
        let r = if self.seconds > 1 {
            self.decrement_timer();
            Tick::Counted
        } else {
            self.reset_timer();
            Tick::Expired
        };
        self.start_instant = Some(at);
        r
    }

    /// Polls the clock once. A countdown with no recorded instant records the
    /// current one and waits.
    pub fn manage(&mut self) -> (r: Tick)
        ensures
            r == Tick::Waiting ==> final(self)@.seconds == old(self)@.seconds
                && final(self)@.form_open == old(self)@.form_open && final(self)@.running == old(
                self,
            )@.running,
            r == Tick::Counted ==> old(self)@.seconds > 1 && final(self)@.seconds == old(
                self,
            )@.seconds - 1 && final(self)@.form_open == old(self)@.form_open
                && final(self)@.running == old(self)@.running,
            r == Tick::Expired ==> old(self)@.seconds <= 1 && final(self)@.seconds == 0
                && !final(self)@.form_open && !final(self)@.running,
            final(self)@.start is Some,
            old(self)@.start is None ==> r == Tick::Waiting,
    {
        let at = now();
        match self.start_instant {
            None => {
                self.start_instant = Some(at);
                Tick::Waiting
            },
            Some(start) => {
                let elapsed = whole_seconds_between(&at, &start);
                self.advance(elapsed, at)
            },
        }
    }
}

} // verus!
