//! The LED: it breathes, and a remote command holds it for a while.

use vstd::prelude::*;

verus! {

/// The brightness of each step of the breathing cycle, in percent.
pub const BRIGHTNESS_STEPS: [u8; 8] = [0, 25, 50, 75, 100, 75, 50, 25];

/// How long a step of the breathing cycle lasts, in milliseconds.
pub const BREATH_STEP_MS: u32 = 500;

/// How long a command holds the LED, in seconds.
pub const OVERRIDE_DURATION_SECS: u64 = 3;

/// How long a command holds the LED, in nanoseconds.
pub const OVERRIDE_DURATION_NANOS: u64 = OVERRIDE_DURATION_SECS * 1_000_000_000;

/// What decides on the LED: the next step of the breathing cycle, and the time
/// until which a command holds the LED. Times are nanoseconds of a clock that
/// never goes back.
pub struct LightControl {
    step_idx: usize,
    override_until: Option<u64>,
}

/// The state of a `LightControl`.
pub struct LightView {
    /// The next step of the breathing cycle.
    pub step: int,
    /// The time until which the last command holds the LED.
    pub until: Option<u64>,
}

impl LightView {
    /// The next step is one of the cycle.
    pub open spec fn valid(self) -> bool {
        0 <= self.step < BRIGHTNESS_STEPS@.len()
    }

    /// A command holds the LED at the time `now`.
    pub open spec fn held(self, now: u64) -> bool {
        self.until is Some && self.until->0 > now
    }

    /// What the LED is to show from the time `now` on, where that is to change:
    /// nothing while a command holds it, else the next step.
    pub open spec fn tick_shows(self, now: u64) -> Option<u8> {
        if self.held(now) {
            None
        } else {
            Some(BRIGHTNESS_STEPS@[self.step])
        }
    }

    /// The state after a tick at the time `now`: the cycle goes on by one step,
    /// unless a command holds the LED.
    pub open spec fn after_tick(self, now: u64) -> LightView {
        if self.held(now) {
            self
        } else {
            LightView { step: (self.step + 1) % BRIGHTNESS_STEPS@.len() as int, until: self.until }
        }
    }

    /// The state after a command at the time `now`: the LED is held for the whole
    /// duration, and the cycle stays where it is.
    pub open spec fn after_command(self, now: u64) -> LightView {
        LightView { step: self.step, until: Some((now + OVERRIDE_DURATION_NANOS) as u64) }
    }
}

impl View for LightControl {
    type V = LightView;

    closed spec fn view(&self) -> LightView {
        LightView { step: self.step_idx as int, until: self.override_until }
    }
}

impl LightControl {
    #[verifier::type_invariant]
    spec fn in_cycle(self) -> bool {
        self.step_idx < BRIGHTNESS_STEPS@.len()
    }

    /// A lamp at the beginning of its cycle that no command holds.
    pub fn new() -> (light: LightControl)
        ensures
            light@ == (LightView { step: 0, until: None }),
            light@.valid(),
    {
        LightControl { step_idx: 0, override_until: None }
    }

    /// Tells whether a command holds the LED at the time `now`.
    pub fn in_override(&self, now: u64) -> (held: bool)
        ensures
            held == self@.held(now),
    {
        match self.override_until {
            Some(until) => until > now,
            None => false,
        }
    }

    /// Goes on with the cycle at the time `now`, and tells what the LED is to show,
    /// or `None` where a command holds it.
    pub fn tick(&mut self, now: u64) -> (shown: Option<u8>)
        ensures
            shown == old(self)@.tick_shows(now),
            final(self)@ == old(self)@.after_tick(now),
            old(self)@.valid(),
            final(self)@.valid(),
    {
        proof {
            use_type_invariant(&*self);
        }
        if self.in_override(now) {
            None
        } else {
            let shown = BRIGHTNESS_STEPS[self.step_idx];
            self.step_idx = (self.step_idx + 1) % BRIGHTNESS_STEPS.len();
            Some(shown)
        }
    }

    /// Holds the LED from the time `now` on, at which a command has tried to set it.
    /// The LED is held for the whole duration whether it could be written or not, and
    /// the write is not tried again.
    pub fn hold_after_write(&mut self, written: bool, now: u64)
        requires
            now + OVERRIDE_DURATION_NANOS <= u64::MAX,
        ensures
            final(self)@ == old(self)@.after_command(now),
            final(self)@.valid(),
    {
        proof {
            use_type_invariant(&*self);
        }
        self.override_until = Some(now + OVERRIDE_DURATION_NANOS);
    }
}

/// What happens to the lamp.
pub enum LampEvent {
    /// The breathing loop comes round at the time `now`.
    Tick { now: u64 },
    /// A command sets the brightness at the time `now`; the LED is written, or not.
    Command { percent: u8, written: bool, now: u64 },
}

/// The lamp: its control, and what was last written to its LED.
pub struct Lamp {
    pub control: LightView,
    pub led: Option<u8>,
}

impl Lamp {
    /// The lamp after an event.
    pub open spec fn after(self, event: LampEvent) -> Lamp {
        match event {
            LampEvent::Tick { now } => Lamp {
                control: self.control.after_tick(now),
                led: match self.control.tick_shows(now) {
                    Some(percent) => Some(percent),
                    None => self.led,
                },
            },
            LampEvent::Command { percent, written, now } => Lamp {
                control: self.control.after_command(now),
                led: if written {
                    Some(percent)
                } else {
                    self.led
                },
            },
        }
    }

    /// The lamp after ticks at the given times.
    pub open spec fn after_ticks(self, times: Seq<u64>) -> Lamp
        decreases times.len(),
    {
        if times.len() == 0 {
            self
        } else {
            self.after_ticks(times.drop_last()).after(LampEvent::Tick { now: times.last() })
        }
    }
}

/// A command shows at once and stays: until its duration is over, no tick changes
/// what the LED shows or where the cycle stands, whatever the lamp did before. The
/// LED is left alone as long where the command could not write it.
pub proof fn command_holds_the_led(
    lamp: Lamp,
    percent: u8,
    written: bool,
    at: u64,
    times: Seq<u64>,
)
    requires
        at + OVERRIDE_DURATION_NANOS <= u64::MAX,
        forall|i: int| 0 <= i < times.len() ==> #[trigger] times[i] < at + OVERRIDE_DURATION_NANOS,
    ensures
        ({
            let commanded = lamp.after(LampEvent::Command { percent, written, now: at });
            &&& written ==> commanded.led == Some(percent)
            &&& !written ==> commanded.led == lamp.led
            &&& commanded.control.step == lamp.control.step
            &&& commanded.after_ticks(times) == commanded
        }),
    decreases times.len(),
{
    if times.len() > 0 {
        command_holds_the_led(lamp, percent, written, at, times.drop_last());
    }
}

/// Once the duration of a command is over, the next tick shows the step that was
/// next when the command came.
pub proof fn breathing_resumes_where_it_was(
    lamp: Lamp,
    percent: u8,
    written: bool,
    at: u64,
    times: Seq<u64>,
    now: u64,
)
    requires
        at + OVERRIDE_DURATION_NANOS <= now,
        forall|i: int| 0 <= i < times.len() ==> #[trigger] times[i] < at + OVERRIDE_DURATION_NANOS,
    ensures
        lamp.after(LampEvent::Command { percent, written, now: at }).after_ticks(times).after(
            LampEvent::Tick { now },
        ).led == Some(BRIGHTNESS_STEPS@[lamp.control.step]),
{
    command_holds_the_led(lamp, percent, written, at, times);
}

proof fn lemma_next_in_cycle(n: int)
    ensures
        (n % BRIGHTNESS_STEPS@.len() as int + 1) % BRIGHTNESS_STEPS@.len() as int == (n + 1)
            % BRIGHTNESS_STEPS@.len() as int,
{
    assert(BRIGHTNESS_STEPS@.len() == 8);
    assert((n % 8 + 1) % 8 == (n + 1) % 8);
}

proof fn lemma_start_of_cycle(step: int)
    requires
        0 <= step < BRIGHTNESS_STEPS@.len(),
    ensures
        step % BRIGHTNESS_STEPS@.len() as int == step,
{
    assert(BRIGHTNESS_STEPS@.len() == 8);
    assert(step % 8 == step);
}

/// While no command holds the LED, each tick shows the next step of the cycle, and
/// the cycle begins anew after its last step.
pub proof fn breathing_runs_in_cycles(lamp: Lamp, times: Seq<u64>)
    requires
        lamp.control.valid(),
        times.len() > 0,
        forall|i: int| 0 <= i < times.len() ==> !lamp.control.held(#[trigger] times[i]),
    ensures
        ({
            let length = BRIGHTNESS_STEPS@.len() as int;
            let ended = lamp.after_ticks(times);
            &&& ended.led == Some(
                BRIGHTNESS_STEPS@[(lamp.control.step + times.len() - 1) % length],
            )
            &&& ended.control.step == (lamp.control.step + times.len()) % length
            &&& ended.control.until == lamp.control.until
        }),
    decreases times.len(),
{
    let earlier = times.drop_last();
    if earlier.len() > 0 {
        assert forall|i: int| 0 <= i < earlier.len() implies !lamp.control.held(
            #[trigger] earlier[i],
        ) by {
            assert(earlier[i] == times[i]);
        }
        breathing_runs_in_cycles(lamp, earlier);
    } else {
        assert(lamp.after_ticks(earlier) == lamp);
    }
    assert(!lamp.control.held(times[times.len() - 1]));
    lemma_next_in_cycle(lamp.control.step + times.len() - 1);
    lemma_start_of_cycle(lamp.control.step);
}

/// The state after the events.
pub open spec fn control_after(control: LightView, events: Seq<LampEvent>) -> LightView
    decreases events.len(),
{
    if events.len() == 0 {
        control
    } else {
        let before = control_after(control, events.drop_last());
        match events.last() {
            LampEvent::Tick { now } => before.after_tick(now),
            LampEvent::Command { now, .. } => before.after_command(now),
        }
    }
}

/// What breathing shows in the course of the events, in order.
pub open spec fn breaths(control: LightView, events: Seq<LampEvent>) -> Seq<u8>
    decreases events.len(),
{
    if events.len() == 0 {
        Seq::empty()
    } else {
        let before = breaths(control, events.drop_last());
        match events.last() {
            LampEvent::Tick { now } => match control_after(
                control,
                events.drop_last(),
            ).tick_shows(now) {
                Some(percent) => before.push(percent),
                None => before,
            },
            LampEvent::Command { .. } => before,
        }
    }
}

/// Whatever ticks and commands come, in whatever order and at whatever times, what
/// breathing shows is the cycle from the step that was next at first, round and
/// round, with no step left out and none shown twice.
pub proof fn breathing_keeps_to_the_cycle(control: LightView, events: Seq<LampEvent>)
    requires
        control.valid(),
    ensures
        ({
            let length = BRIGHTNESS_STEPS@.len() as int;
            let shown = breaths(control, events);
            &&& forall|i: int|
                0 <= i < shown.len() ==> #[trigger] shown[i] == BRIGHTNESS_STEPS@[(control.step + i)
                    % length]
            &&& control_after(control, events).step == (control.step + shown.len()) % length
            &&& control_after(control, events).valid()
        }),
    decreases events.len(),
{
    if events.len() == 0 {
        lemma_start_of_cycle(control.step);
    } else {
        let earlier = events.drop_last();
        breathing_keeps_to_the_cycle(control, earlier);
        lemma_next_in_cycle(control.step + breaths(control, earlier).len());
        assert(BRIGHTNESS_STEPS@.len() == 8);
    }
}

/// Breathing never shows more than full brightness.
pub proof fn breathing_stays_in_range(control: LightView, now: u64)
    requires
        control.valid(),
    ensures
        control.tick_shows(now) is Some ==> control.tick_shows(now)->0 <= 100,
{
}

/// The time of the last command among the events, if there is one.
pub open spec fn last_command(events: Seq<LampEvent>) -> Option<u64>
    decreases events.len(),
{
    if events.len() == 0 {
        None
    } else {
        match events.last() {
            LampEvent::Command { now, .. } => Some(now),
            LampEvent::Tick { .. } => last_command(events.drop_last()),
        }
    }
}

/// The last command among the events came less than three seconds before `now`.
pub open spec fn commanded_lately(events: Seq<LampEvent>, now: u64) -> bool {
    last_command(events) is Some && now < last_command(events)->0 + 3_000_000_000
}

/// How many ticks among the events came while no command was lately given.
pub open spec fn free_ticks(events: Seq<LampEvent>) -> nat
    decreases events.len(),
{
    if events.len() == 0 {
        0
    } else {
        let before = free_ticks(events.drop_last());
        match events.last() {
            LampEvent::Tick { now } => if commanded_lately(events.drop_last(), now) {
                before
            } else {
                before + 1
            },
            LampEvent::Command { .. } => before,
        }
    }
}

/// The brightness of the `n`-th breath: it rises from nothing to full in four steps
/// of a quarter, and falls again in four.
pub open spec fn breath(n: int) -> int {
    let phase = n % 8;
    if phase <= 4 {
        25 * phase
    } else {
        25 * (8 - phase)
    }
}

/// The times of commands leave room for their duration.
pub open spec fn commands_fit(events: Seq<LampEvent>) -> bool {
    forall|i: int|
        0 <= i < events.len() && #[trigger] events[i] is Command ==> events[i]->Command_now
            + 3_000_000_000 <= u64::MAX
}

proof fn lemma_lamp_follows_its_events(events: Seq<LampEvent>)
    requires
        commands_fit(events),
    ensures
        ({
            let control = control_after(LightView { step: 0, until: None }, events);
            &&& control.step == free_ticks(events) % 8
            &&& control.until is Some <==> last_command(events) is Some
            &&& control.until is Some ==> control.until->0 == last_command(events)->0
                + 3_000_000_000
        }),
    decreases events.len(),
{
    if events.len() > 0 {
        let earlier = events.drop_last();
        assert forall|i: int| 0 <= i < earlier.len() && #[trigger] earlier[i] is Command implies
            earlier[i]->Command_now + 3_000_000_000 <= u64::MAX by {
            assert(earlier[i] == events[i]);
        }
        lemma_lamp_follows_its_events(earlier);
        assert(events[events.len() - 1] == events.last());
        assert(BRIGHTNESS_STEPS@.len() == 8);
        lemma_next_in_cycle(free_ticks(earlier) as int);
    }
}

/// What a new lamp does follows from what happened to it: whatever ticks and commands
/// came, at whatever times, a command holds the LED at the time `now` exactly where
/// the last one came less than three seconds before. Else a tick at the time `now`
/// shows the next breath, counted by the ticks that nothing held.
pub proof fn lamp_follows_its_events(events: Seq<LampEvent>, now: u64)
    requires
        commands_fit(events),
    ensures
        ({
            let control = control_after(LightView { step: 0, until: None }, events);
            &&& control.held(now) <==> commanded_lately(events, now)
            &&& control.tick_shows(now) is None <==> commanded_lately(events, now)
            &&& !commanded_lately(events, now) ==> control.tick_shows(now)->0 == breath(
                free_ticks(events) as int,
            )
        }),
{
    lemma_lamp_follows_its_events(events);
    assert(BRIGHTNESS_STEPS@ =~= seq![0u8, 25, 50, 75, 100, 75, 50, 25]);
}

/// A new lamp that no command ever reached breathes for ever: of any ticks on it, at
/// whatever times, each shows something, and the `i`-th shows the `i`-th breath.
pub proof fn untouched_lamp_breathes_for_ever(events: Seq<LampEvent>)
    requires
        forall|i: int| 0 <= i < events.len() ==> #[trigger] events[i] is Tick,
    ensures
        ({
            let shown = breaths(LightView { step: 0, until: None }, events);
            &&& shown.len() == events.len()
            &&& forall|i: int| 0 <= i < shown.len() ==> #[trigger] shown[i] == breath(i)
        }),
    decreases events.len(),
{
    if events.len() > 0 {
        let earlier = events.drop_last();
        assert forall|i: int| 0 <= i < earlier.len() implies #[trigger] earlier[i] is Tick by {
            assert(earlier[i] == events[i]);
        }
        untouched_lamp_breathes_for_ever(earlier);
        lemma_untouched(earlier);
        assert(events[events.len() - 1] is Tick);
        lamp_follows_its_events(earlier, events.last()->Tick_now);
    }
}

proof fn lemma_untouched(events: Seq<LampEvent>)
    requires
        forall|i: int| 0 <= i < events.len() ==> #[trigger] events[i] is Tick,
    ensures
        last_command(events) is None,
        free_ticks(events) == events.len(),
    decreases events.len(),
{
    if events.len() > 0 {
        let earlier = events.drop_last();
        assert forall|i: int| 0 <= i < earlier.len() implies #[trigger] earlier[i] is Tick by {
            assert(earlier[i] == events[i]);
        }
        lemma_untouched(earlier);
        assert(events[events.len() - 1] is Tick);
    }
}

} // verus!
