use vstd::prelude::*;

use crate::actions::{Action, ActionStore};
use crate::errors::GpioError;
use crate::gpio::{
    check_pin, lemma_level_writes_of_ops, level_event, level_in_word, level_writes, valid_pin,
    Gpio, RegEvent, RegisterWindow,
};
use crate::pins::{PinDirection, PinLevel, PullType};

verus! {

/// What one step of a program run did, or asks the caller to do.
#[derive(Clone, Copy, Debug, PartialEq, Eq, Structural)]
pub enum Step {
    /// The action ran on the driver.
    Ran(Action),
    /// The driver refused the action; the program goes on with the next one.
    Failed(Action, GpioError),
    /// Sleep this many milliseconds without holding the driver, then step again.
    Sleep(u64),
    /// The awaited level is not there yet: release the driver and step again.
    Waiting(Action),
    /// The run is over.
    Finished,
    /// The run could not start a pass because the driver is not initialized.
    NotInitialized,
}

/// How long `Delay(ms)` sleeps: `ms`, or nothing when negative.
pub open spec fn delay_ms(ms: i32) -> u64 {
    if ms < 0 {
        0
    } else {
        ms as u64
    }
}

pub open spec fn level_step<W: RegisterWindow>(
    a: Action,
    pin: i32,
    level: PinLevel,
    g0: Gpio<W>,
    g1: Gpio<W>,
    r: Step,
) -> bool {
    match check_pin(g0.initialized, pin) {
        Some(e) => r == Step::Failed(a, e) && g1 == g0,
        None => r == Step::Ran(a) && g0.level_applied(g1, pin, level),
    }
}

pub open spec fn pull_step<W: RegisterWindow>(
    a: Action,
    pin: i32,
    pull: PullType,
    g0: Gpio<W>,
    g1: Gpio<W>,
    r: Step,
) -> bool {
    match check_pin(g0.initialized, pin) {
        Some(e) => r == Step::Failed(a, e) && g1 == g0,
        None => r == Step::Ran(a) && g0.pull_applied(g1, pin, pull),
    }
}

pub open spec fn wait_step<W: RegisterWindow>(
    a: Action,
    pin: i32,
    level: PinLevel,
    g0: Gpio<W>,
    g1: Gpio<W>,
    r: Step,
) -> bool {
    match check_pin(g0.initialized, pin) {
        Some(e) => r == Step::Failed(a, e) && g1 == g0,
        None => {
            &&& g0.level_read(g1)
            &&& r == if level_in_word(g0.sampled(g1), pin) == level {
                Step::Ran(a)
            } else {
                Step::Waiting(a)
            }
        },
    }
}

/// What dispatching `a` does: the driver goes from `g0` to `g1` and the step reports `r`.
pub open spec fn dispatched<W: RegisterWindow>(a: Action, g0: Gpio<W>, g1: Gpio<W>, r: Step) -> bool {
    match a {
        Action::SetHigh(p) => level_step(a, p, PinLevel::High, g0, g1, r),
        Action::SetLow(p) => level_step(a, p, PinLevel::Low, g0, g1, r),
        Action::Delay(ms) => r == Step::Sleep(delay_ms(ms)) && g1 == g0,
        Action::WaitForHigh(p) => wait_step(a, p, PinLevel::High, g0, g1, r),
        Action::WaitForLow(p) => wait_step(a, p, PinLevel::Low, g0, g1, r),
        Action::SetPullUp(p) => pull_step(a, p, PullType::Up, g0, g1, r),
        Action::SetPullDown(p) => pull_step(a, p, PullType::Down, g0, g1, r),
    }
}

/// Runs one action on the driver, or says what the caller must do for it.
fn dispatch<W: RegisterWindow>(gpio: &mut Gpio<W>, a: Action) -> (r: Step)
    requires
        old(gpio).wf(),
    ensures
        final(gpio).wf(),
        dispatched(a, *old(gpio), *final(gpio), r),
{
    let outcome = match a {
        Action::SetHigh(p) => gpio.set_level(p, PinLevel::High),
        Action::SetLow(p) => gpio.set_level(p, PinLevel::Low),
        Action::Delay(ms) => {
            let d: u64 = if ms < 0 {
                0
            } else {
                ms as u64
            };
            return Step::Sleep(d);
        },
        Action::WaitForHigh(p) => {
            return match gpio.get_level(p) {
                Err(e) => Step::Failed(a, e),
                Ok(PinLevel::High) => Step::Ran(a),
                Ok(PinLevel::Low) => Step::Waiting(a),
            };
        },
        Action::WaitForLow(p) => {
            return match gpio.get_level(p) {
                Err(e) => Step::Failed(a, e),
                Ok(PinLevel::Low) => Step::Ran(a),
                Ok(PinLevel::High) => Step::Waiting(a),
            };
        },
        Action::SetPullUp(p) => gpio.set_pull_type(p, PullType::Up),
        Action::SetPullDown(p) => gpio.set_pull_type(p, PullType::Down),
    };
    match outcome {
        Ok(_) => Step::Ran(a),
        Err(e) => Step::Failed(a, e),
    }
}

/// A run of the action program: the pass being played and the position in it.
///
/// Each pass plays a fresh snapshot of the store, so edits made meanwhile only reach
/// the next pass. The stop flag is looked at before every action and at the end of
/// every pass.
pub struct Executor {
    pub should_loop: bool,
    pub pass: Vec<Action>,
    pub pos: usize,
    pub started: bool,
    pub finished: bool,
}

impl Executor {
    pub open spec fn wf(&self) -> bool {
        &&& self.pos <= self.pass@.len()
        &&& !self.started ==> self.pass@.len() == 0
    }

    /// The current pass is over (or none has begun).
    pub open spec fn at_boundary(&self) -> bool {
        self.pos >= self.pass@.len()
    }

    /// At a pass boundary, the run ends rather than starting another pass.
    pub open spec fn ends_here(&self, stop: bool) -> bool {
        self.started && (!self.should_loop || stop)
    }

    /// The pass the next action comes from.
    pub open spec fn next_pass(&self, store: Seq<Action>) -> Seq<Action> {
        if self.at_boundary() {
            store
        } else {
            self.pass@
        }
    }

    /// The position of the next action in that pass.
    pub open spec fn next_pos(&self) -> int {
        if self.at_boundary() {
            0
        } else {
            self.pos as int
        }
    }

    /// A run that has not begun.
    pub fn new(should_loop: bool) -> (r: Self)
        ensures
            r.wf(),
            r.should_loop == should_loop,
            r.pass@.len() == 0,
            r.pos == 0,
            !r.started,
            !r.finished,
    {
        Executor { should_loop, pass: Vec::new(), pos: 0, started: false, finished: false }
    }

    /// Advances the run by one action.
    ///
    /// At a pass boundary the run ends when the last pass was not to be repeated or
    /// `stop` is raised; otherwise a new pass takes a snapshot of `store` (an
    /// uninitialized driver or an empty program ends the run). Then, unless `stop` is
    /// raised, the next action is dispatched: a driver action runs, `Delay` asks the
    /// caller to sleep, and a wait reads the level once and stays on the action until
    /// the level is there.
    pub fn step<W: RegisterWindow>(&mut self, gpio: &mut Gpio<W>, store: &ActionStore, stop: bool) -> (r: Step)
        requires
            old(self).wf(),
            old(gpio).wf(),
        ensures
            final(self).wf(),
            final(gpio).wf(),
            final(self).should_loop == old(self).should_loop,
            old(self).started ==> final(self).started,
            stop ==> *final(gpio) == *old(gpio) && (r == Step::Finished || r == Step::NotInitialized),
            old(self).finished ==> r == Step::Finished && *final(self) == *old(self) && *final(gpio)
                == *old(gpio),
            !old(self).finished && old(self).at_boundary() && old(self).ends_here(stop) ==> {
                &&& r == Step::Finished
                &&& final(self).finished
                &&& final(self).pass == old(self).pass
                &&& final(self).pos == old(self).pos
                &&& *final(gpio) == *old(gpio)
            },
            !old(self).started && !old(self).finished && store.actions@.len() == 0 ==> {
                &&& r == Step::Finished || r == Step::NotInitialized
                &&& final(self).finished
                &&& *final(gpio) == *old(gpio)
            },
            !old(self).finished && old(self).at_boundary() && !old(self).ends_here(stop) && !old(
                gpio,
            ).initialized ==> {
                &&& r == Step::NotInitialized
                &&& final(self).finished
                &&& *final(gpio) == *old(gpio)
            },
            !old(self).finished && (!old(self).at_boundary() || (!old(self).ends_here(stop) && old(
                gpio,
            ).initialized)) ==> {
                let pass = old(self).next_pass(store.actions@);
                let p = old(self).next_pos();
                &&& final(self).pass@ == pass
                &&& final(self).started
                &&& p >= pass.len() ==> r == Step::Finished && final(self).finished && final(self).pos
                    == p && *final(gpio) == *old(gpio)
                &&& p < pass.len() && stop ==> r == Step::Finished && final(self).finished
                    && *final(gpio) == *old(gpio)
                &&& p < pass.len() && !stop ==> {
                    &&& !final(self).finished
                    &&& dispatched(pass[p], *old(gpio), *final(gpio), r)
                    &&& final(self).pos == if r is Waiting {
                        p
                    } else {
                        p + 1
                    }
                }
            },
    {
        if self.finished {
            return Step::Finished;
        }
        if self.pos >= self.pass.len() {
            if self.started && (!self.should_loop || stop) {
                self.finished = true;
                return Step::Finished;
            }
            if !gpio.initialized {
                self.finished = true;
                return Step::NotInitialized;
            }
            self.pass = store.snapshot();
            self.pos = 0;
            self.started = true;
            if self.pass.len() == 0 {
                self.finished = true;
                return Step::Finished;
            }
        }
        if stop {
            self.finished = true;
            return Step::Finished;
        }
        let a = self.pass[self.pos];
        let r = dispatch(gpio, a);
        match r {
            Step::Waiting(_) => {},
            _ => {
                self.pos = self.pos + 1;
            },
        }
        r
    }
}

/// Whether an action runs at once on the driver: it neither sleeps nor waits.
pub open spec fn runs_at_once(a: Action) -> bool {
    !(a is Delay || a is WaitForHigh || a is WaitForLow)
}

/// The Set or Clear write an action produces when it runs on an initialized driver.
pub open spec fn action_level_writes(a: Action) -> Seq<RegEvent> {
    match a {
        Action::SetHigh(p) => if valid_pin(p) {
            seq![level_event(p, PinLevel::High)]
        } else {
            Seq::empty()
        },
        Action::SetLow(p) => if valid_pin(p) {
            seq![level_event(p, PinLevel::Low)]
        } else {
            Seq::empty()
        },
        _ => Seq::empty(),
    }
}

/// The Set and Clear writes of the level-producing actions of a program, in order.
pub open spec fn program_level_writes(s: Seq<Action>) -> Seq<RegEvent>
    decreases s.len(),
{
    if s.len() == 0 {
        Seq::empty()
    } else {
        program_level_writes(s.drop_last()) + action_level_writes(s.last())
    }
}

/// The step an action that runs at once reports on an initialized driver.
pub open spec fn expected_step(a: Action) -> Step {
    let p = crate::actions::action_value(a);
    if valid_pin(p) {
        Step::Ran(a)
    } else {
        Step::Failed(a, GpioError::InvalidPin(p))
    }
}

proof fn lemma_dispatch_level_writes<W: RegisterWindow>(a: Action, g0: Gpio<W>, g1: Gpio<W>, r: Step)
    requires
        runs_at_once(a),
        g0.initialized,
        dispatched(a, g0, g1, r),
    ensures
        g1.initialized,
        r == expected_step(a),
        level_writes(g1.trace@) == level_writes(g0.trace@) + action_level_writes(a),
{
    let t = g0.trace@;
    match a {
        Action::SetHigh(p) => {
            if valid_pin(p) {
                lemma_level_writes_of_ops(t, p, PinDirection::Output, PinLevel::High, g0.sampled(g1), PullType::Up);
                assert(level_writes(t).push(level_event(p, PinLevel::High)) =~= level_writes(t)
                    + seq![level_event(p, PinLevel::High)]);
            } else {
                assert(level_writes(t) + Seq::<RegEvent>::empty() =~= level_writes(t));
            }
        },
        Action::SetLow(p) => {
            if valid_pin(p) {
                lemma_level_writes_of_ops(t, p, PinDirection::Output, PinLevel::Low, g0.sampled(g1), PullType::Up);
                assert(level_writes(t).push(level_event(p, PinLevel::Low)) =~= level_writes(t)
                    + seq![level_event(p, PinLevel::Low)]);
            } else {
                assert(level_writes(t) + Seq::<RegEvent>::empty() =~= level_writes(t));
            }
        },
        Action::SetPullUp(p) => {
            if valid_pin(p) {
                lemma_level_writes_of_ops(t, p, PinDirection::Output, PinLevel::Low, 0, PullType::Up);
            }
            assert(level_writes(t) + Seq::<RegEvent>::empty() =~= level_writes(t));
        },
        Action::SetPullDown(p) => {
            if valid_pin(p) {
                lemma_level_writes_of_ops(t, p, PinDirection::Output, PinLevel::Low, 0, PullType::Down);
            }
            assert(level_writes(t) + Seq::<RegEvent>::empty() =~= level_writes(t));
        },
        _ => {},
    }
}

/// Runs the stored program once, to its end, with the stop flag never raised, by
/// stepping an executor that does not loop. Only for programs whose actions all run at
/// once: the Set and Clear writes it makes are those of the level-producing actions,
/// in program order.
pub fn run_once<W: RegisterWindow>(gpio: &mut Gpio<W>, store: &ActionStore) -> (r: Vec<Step>)
    requires
        old(gpio).wf(),
        old(gpio).initialized,
        forall|i: int| 0 <= i < store.actions@.len() ==> runs_at_once(#[trigger] store.actions@[i]),
    ensures
        final(gpio).wf(),
        final(gpio).initialized,
        level_writes(final(gpio).trace@) == level_writes(old(gpio).trace@) + program_level_writes(
            store.actions@,
        ),
        r@.len() == store.actions@.len(),
        forall|i: int| 0 <= i < r@.len() ==> #[trigger] r@[i] == expected_step(store.actions@[i]),
{
    let ghost s = store.actions@;
    let mut ex = Executor::new(false);
    let mut steps: Vec<Step> = Vec::new();
    while !ex.finished
        invariant
            ex.wf(),
            !ex.should_loop,
            gpio.wf(),
            gpio.initialized,
            s == store.actions@,
            forall|i: int| 0 <= i < s.len() ==> runs_at_once(#[trigger] s[i]),
            !ex.started ==> gpio.trace@ == old(gpio).trace@ && steps@.len() == 0 && !ex.finished,
            ex.started ==> {
                &&& ex.pass@ == s
                &&& steps@.len() == ex.pos
                &&& level_writes(gpio.trace@) == level_writes(old(gpio).trace@)
                    + program_level_writes(s.take(ex.pos as int))
                &&& forall|i: int| 0 <= i < ex.pos ==> #[trigger] steps@[i] == expected_step(s[i])
            },
            ex.finished ==> ex.started && ex.pos == s.len(),
        decreases (if ex.finished {
            0int
        } else if !ex.started {
            s.len() + 2int
        } else {
            s.len() - ex.pos + 1int
        }),
    {
        let ghost g0 = *gpio;
        let ghost p: int = if ex.started { ex.pos as int } else { 0 };
        let ghost was_started = ex.started;
        let ghost steps0 = steps@;
        let r = ex.step(gpio, store, false);
        if !ex.finished {
            proof {
                assert(s.take(0) =~= Seq::<Action>::empty());
                lemma_dispatch_level_writes(s[p], g0, *gpio, r);
                assert(s.take(p + 1).drop_last() =~= s.take(p));
                assert(s.take(p + 1).last() == s[p]);
                if !was_started {
                    assert(level_writes(old(gpio).trace@) + Seq::<RegEvent>::empty() =~= level_writes(
                        old(gpio).trace@,
                    ));
                }
                assert(level_writes(old(gpio).trace@) + program_level_writes(s.take(p)) + action_level_writes(s[p])
                    =~= level_writes(old(gpio).trace@) + (program_level_writes(s.take(p)) + action_level_writes(s[p])));
            }
            steps.push(r);
        } else {
            proof {
                if !was_started {
                    assert(s.len() == 0);
                }
            }
        }
    }
    proof {
        assert(s.take(s.len() as int) =~= s);
    }
    steps
}

} // verus!
