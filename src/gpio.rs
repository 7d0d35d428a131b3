use vstd::prelude::*;

use crate::errors::GpioError;
use crate::pins::{
    default_pins, is_reset_state, layout, lemma_layout_numbers, matches_slot, pin_slot, Pin,
    PinDirection, PinLevel, PullType, HEADER_SLOTS,
};

verus! {

/// Size of the register window, in 32-bit words (one 4 KiB page).
pub const WINDOW_WORDS: usize = 1024;

/// Output Set register: writing a 1 bit drives that pin high.
pub const GPIO_SET_OFFSET: usize = 7;

/// Output Clear register: writing a 1 bit drives that pin low.
pub const GPIO_CLR_OFFSET: usize = 10;

/// Pin Level register.
pub const GPIO_LEV_OFFSET: usize = 13;

/// Pull-up/down enable register.
pub const GPIO_PULL_OFFSET: usize = 37;

/// Pull-up/down clock register for pins 0..=31.
pub const GPIO_PULLCLK0_OFFSET: usize = 38;

/// Settling time between the steps of the pull sequence, in microseconds.
pub const PULL_WAIT_MICROS: u64 = 100;

/// Highest GPIO number the driver controls.
pub const MAX_PIN: i32 = 27;

/// One access that the driver made to the register window.
#[derive(Clone, Copy, Debug, PartialEq, Eq, Structural)]
pub enum RegEvent {
    Read { offset: usize, value: u32 },
    Write { offset: usize, value: u32 },
    Pause { micros: u64 },
}

/// The memory-mapped GPIO register page, addressed in 32-bit words.
///
/// Every access must be a volatile load or store. The page is unmapped when the
/// value is dropped.
pub trait RegisterWindow: Sized {
    /// Maps the register page; `None` when opening or mapping fails.
    fn acquire() -> Option<Self>;

    /// Loads the word at `offset`.
    fn read(&mut self, offset: usize) -> u32
        requires
            offset < WINDOW_WORDS,
    ;

    /// Stores `value` at `offset`.
    fn write(&mut self, offset: usize, value: u32)
        requires
            offset < WINDOW_WORDS,
    ;

    /// Blocks for `micros` microseconds.
    fn pause_micros(&mut self, micros: u64);
}

pub open spec fn valid_pin(pin: i32) -> bool {
    0 <= pin <= MAX_PIN
}

/// What validation rejects, if anything: the initialized check comes first.
pub open spec fn check_pin(initialized: bool, pin: i32) -> Option<GpioError> {
    if !initialized {
        Some(GpioError::NotInitialized)
    } else if !valid_pin(pin) {
        Some(GpioError::InvalidPin(pin))
    } else {
        None
    }
}

pub open spec fn pin_mask(pin: i32) -> u32 {
    1u32 << (pin as u32)
}

/// Bit position of a pin's 3-bit field in its function-select word.
pub open spec fn fsel_shift(pin: i32) -> u32 {
    ((pin % 10) * 3) as u32
}

/// Function-select word index of a pin.
pub open spec fn fsel_offset(pin: i32) -> usize {
    (pin / 10) as usize
}

/// The function-select word `v` with the pin's field set to `001` (output) or `000` (input).
pub open spec fn fsel_word(v: u32, pin: i32, direction: PinDirection) -> u32 {
    let cleared = v & !(7u32 << fsel_shift(pin));
    match direction {
        PinDirection::Output => cleared | (1u32 << fsel_shift(pin)),
        PinDirection::Input => cleared,
    }
}

/// Read-modify-write of the function-select word, given the word that was read.
pub open spec fn direction_events(pin: i32, direction: PinDirection, v: u32) -> Seq<RegEvent> {
    seq![
        RegEvent::Read { offset: fsel_offset(pin), value: v },
        RegEvent::Write { offset: fsel_offset(pin), value: fsel_word(v, pin, direction) },
    ]
}

/// The single Set or Clear write that drives a pin's level.
pub open spec fn level_event(pin: i32, level: PinLevel) -> RegEvent {
    match level {
        PinLevel::High => RegEvent::Write { offset: GPIO_SET_OFFSET, value: pin_mask(pin) },
        PinLevel::Low => RegEvent::Write { offset: GPIO_CLR_OFFSET, value: pin_mask(pin) },
    }
}

pub open spec fn pull_code(pull: PullType) -> u32 {
    match pull {
        PullType::NoPull => 0,
        PullType::Down => 1,
        PullType::Up => 2,
    }
}

/// The pull programming sequence: clear, select, clock the pin (unless no pull),
/// then clear both registers.
pub open spec fn pull_events(pin: i32, pull: PullType) -> Seq<RegEvent> {
    let wait = RegEvent::Pause { micros: PULL_WAIT_MICROS };
    let head = seq![
        RegEvent::Write { offset: GPIO_PULL_OFFSET, value: 0 },
        wait,
        RegEvent::Write { offset: GPIO_PULL_OFFSET, value: pull_code(pull) },
        wait,
    ];
    let clock = if pull == PullType::NoPull {
        Seq::<RegEvent>::empty()
    } else {
        seq![RegEvent::Write { offset: GPIO_PULLCLK0_OFFSET, value: pin_mask(pin) }, wait]
    };
    head + clock + seq![
        RegEvent::Write { offset: GPIO_PULL_OFFSET, value: 0 },
        RegEvent::Write { offset: GPIO_PULLCLK0_OFFSET, value: 0 },
    ]
}

/// The value carried by a read event.
pub open spec fn read_value(e: RegEvent) -> u32 {
    match e {
        RegEvent::Read { value, .. } => value,
        _ => 0,
    }
}

/// The level of a pin in a Level register word.
pub open spec fn level_in_word(v: u32, pin: i32) -> PinLevel {
    if v & pin_mask(pin) != 0 {
        PinLevel::High
    } else {
        PinLevel::Low
    }
}

pub open spec fn opposite(level: PinLevel) -> PinLevel {
    match level {
        PinLevel::High => PinLevel::Low,
        PinLevel::Low => PinLevel::High,
    }
}

pub open spec fn with_direction(p: Pin, direction: PinDirection) -> Pin {
    Pin { direction, ..p }
}

pub open spec fn with_level(p: Pin, level: PinLevel) -> Pin {
    Pin { level, ..p }
}

pub open spec fn with_pull(p: Pin, pull: PullType) -> Pin {
    Pin { pull, ..p }
}

/// The Clear writes of pins 0, 1, ..., n - 1, in that order.
pub open spec fn reset_clears(n: int) -> Seq<RegEvent>
    decreases n,
{
    if n <= 0 {
        Seq::empty()
    } else {
        reset_clears(n - 1).push(level_event((n - 1) as i32, PinLevel::Low))
    }
}

/// `b` starts with `a`.
pub open spec fn extends(a: Seq<RegEvent>, b: Seq<RegEvent>) -> bool {
    a.len() <= b.len() && forall|k: int| 0 <= k < a.len() ==> #[trigger] b[k] == a[k]
}

/// The slots without a GPIO number hold the same entries in both tables.
pub open spec fn unnumbered_kept(a: Seq<Pin>, b: Seq<Pin>) -> bool {
    forall|i: int| 0 <= i < a.len() && (#[trigger] a[i]).number is None ==> b[i] == a[i]
}

/// Whether an event is a write to the Set or Clear register.
pub open spec fn is_level_write(e: RegEvent) -> bool {
    match e {
        RegEvent::Write { offset, .. } => offset == GPIO_SET_OFFSET || offset == GPIO_CLR_OFFSET,
        _ => false,
    }
}

/// The Set and Clear writes of a trace, in order.
pub open spec fn level_writes(t: Seq<RegEvent>) -> Seq<RegEvent>
    decreases t.len(),
{
    if t.len() == 0 {
        Seq::empty()
    } else if is_level_write(t.last()) {
        level_writes(t.drop_last()).push(t.last())
    } else {
        level_writes(t.drop_last())
    }
}

pub proof fn lemma_level_writes_add(a: Seq<RegEvent>, b: Seq<RegEvent>)
    ensures
        level_writes(a + b) == level_writes(a) + level_writes(b),
    decreases b.len(),
{
    if b.len() == 0 {
        assert(a + b =~= a);
        assert(level_writes(a) + level_writes(b) =~= level_writes(a));
    } else {
        lemma_level_writes_add(a, b.drop_last());
        assert((a + b).drop_last() =~= a + b.drop_last());
        assert((a + b).last() == b.last());
        assert(level_writes(a) + level_writes(b.drop_last()).push(b.last()) =~= (level_writes(a)
            + level_writes(b.drop_last())).push(b.last()));
    }
}

pub proof fn lemma_no_level_writes(t: Seq<RegEvent>)
    requires
        forall|k: int| 0 <= k < t.len() ==> !is_level_write(#[trigger] t[k]),
    ensures
        level_writes(t) == Seq::<RegEvent>::empty(),
    decreases t.len(),
{
    if t.len() > 0 {
        assert(!is_level_write(t[t.len() - 1]));
        lemma_no_level_writes(t.drop_last());
    }
}

/// Driving a pin adds exactly its Set or Clear write to the level writes; programming
/// a pull or reading the Level register adds none.
pub proof fn lemma_level_writes_of_ops(
    t: Seq<RegEvent>,
    pin: i32,
    direction: PinDirection,
    level: PinLevel,
    v: u32,
    pull: PullType,
)
    requires
        valid_pin(pin),
    ensures
        level_writes((t + direction_events(pin, direction, v)).push(level_event(pin, level)))
            == level_writes(t).push(level_event(pin, level)),
        level_writes(t + pull_events(pin, pull)) == level_writes(t),
{
    let d = direction_events(pin, direction, v);
    assert(fsel_offset(pin) <= 2);
    lemma_no_level_writes(d);
    lemma_level_writes_add(t, d);
    assert(t + d =~= t + d);
    let u = t + d;
    let w = u.push(level_event(pin, level));
    assert(w.drop_last() =~= u);
    assert(level_writes(t) + Seq::<RegEvent>::empty() =~= level_writes(t));
    let q = pull_events(pin, pull);
    assert forall|k: int| 0 <= k < q.len() implies !is_level_write(#[trigger] q[k]) by {
        if pull == PullType::NoPull {
            assert(q.len() == 6);
        } else {
            assert(q.len() == 8);
        }
    }
    lemma_no_level_writes(q);
    lemma_level_writes_add(t, q);
}

/// After `terminate` (or before `setup`) every pin operation fails with
/// `NotInitialized`, whatever the pin.
pub proof fn lemma_uninitialized_rejects(pin: i32)
    ensures
        check_pin(false, pin) == Some(GpioError::NotInitialized),
{
}

/// On an initialized driver, a pin below 0 or above 27 fails with `InvalidPin`.
pub proof fn lemma_out_of_range_rejected(pin: i32)
    requires
        pin < 0 || pin > MAX_PIN,
    ensures
        check_pin(true, pin) == Some(GpioError::InvalidPin(pin)),
{
}

/// The GPIO driver: the register window while initialized, and the mirrored pin table.
pub struct Gpio<W> {
    pub initialized: bool,
    pub pins: Vec<Pin>,
    pub window: Option<W>,
    /// Every register access the driver has made, oldest first.
    pub trace: Ghost<Seq<RegEvent>>,
}

impl<W: RegisterWindow> Gpio<W> {
    /// Initialized exactly when a window is held; the table keeps the header's layout.
    pub open spec fn wf(&self) -> bool {
        &&& self.initialized == self.window is Some
        &&& self.pins@.len() == HEADER_SLOTS
        &&& forall|i: int| 0 <= i < 40 ==> matches_slot(#[trigger] self.pins@[i], i)
    }

    /// The table entry of GPIO number `n`.
    pub open spec fn pin_entry(&self, n: i32) -> Pin {
        self.pins@[pin_slot(n as int)]
    }

    /// Whether every GPIO in 0..=27 is recorded as input, low, no pull.
    pub open spec fn all_reset(&self) -> bool {
        forall|n: i32| valid_pin(n) ==> is_reset_state(#[trigger] self.pin_entry(n))
    }

    /// The event at position `k` of the trace.
    pub open spec fn event(&self, k: int) -> RegEvent {
        self.trace@[k]
    }

    /// The word read by the first access made after `self`, in `after`.
    pub open spec fn sampled(&self, after: Self) -> u32 {
        read_value(after.event(self.trace@.len() as int))
    }

    /// `after` is `self` once `pin` was made an output and driven to `level`: the table
    /// entry records both, and the trace gained the function-select read-modify-write
    /// and the Set or Clear write.
    pub open spec fn level_applied(&self, after: Self, pin: i32, level: PinLevel) -> bool {
        &&& after.initialized == self.initialized
        &&& after.pins@ == self.pins@.update(
            pin_slot(pin as int),
            with_level(with_direction(self.pin_entry(pin), PinDirection::Output), level),
        )
        &&& after.trace@ == (self.trace@ + direction_events(
            pin,
            PinDirection::Output,
            self.sampled(after),
        )).push(level_event(pin, level))
    }

    /// `after` is `self` once the pull of `pin` was programmed.
    pub open spec fn pull_applied(&self, after: Self, pin: i32, pull: PullType) -> bool {
        &&& after.initialized == self.initialized
        &&& after.pins@ == self.pins@.update(
            pin_slot(pin as int),
            with_pull(self.pin_entry(pin), pull),
        )
        &&& after.trace@ == self.trace@ + pull_events(pin, pull)
    }

    /// `after` is `self` once the Level register was read, nothing else changed.
    pub open spec fn level_read(&self, after: Self) -> bool {
        &&& after.initialized == self.initialized
        &&& after.pins == self.pins
        &&& after.trace@ == self.trace@.push(
            RegEvent::Read { offset: GPIO_LEV_OFFSET, value: self.sampled(after) },
        )
    }

    /// A driver that holds no window, with every pin in its reset state.
    pub fn new() -> (r: Self)
        ensures
            r.wf(),
            !r.initialized,
            r.trace@ == Seq::<RegEvent>::empty(),
            forall|i: int| 0 <= i < 40 ==> is_reset_state(#[trigger] r.pins@[i]),
    {
        Gpio { initialized: false, pins: default_pins(), window: None, trace: Ghost(Seq::empty()) }
    }

    /// Checks that the driver is initialized, then that `pin` is in 0..=27.
    pub fn validate_input(&self, pin: i32) -> (r: Result<i32, GpioError>)
        ensures
            match check_pin(self.initialized, pin) {
                Some(e) => r == Err::<i32, GpioError>(e),
                None => r == Ok::<i32, GpioError>(pin),
            },
    {
        if !self.initialized {
            return Err(GpioError::NotInitialized);
        }
        if !(0 <= pin && pin <= MAX_PIN) {
            return Err(GpioError::InvalidPin(pin));
        }
        Ok(pin)
    }

    pub(crate) fn find_slot(&self, pin: i32) -> (r: usize)
        requires
            self.wf(),
            valid_pin(pin),
        ensures
            r as int == pin_slot(pin as int),
            r < HEADER_SLOTS,
    {
        proof {
            lemma_layout_numbers();
        }
        let mut i: usize = 0;
        while i < HEADER_SLOTS
            invariant
                self.wf(),
                valid_pin(pin),
                i <= HEADER_SLOTS,
                forall|j: int| 0 <= j < i ==> (#[trigger] self.pins@[j]).number != Some(pin),
            decreases HEADER_SLOTS - i,
        {
            match self.pins[i].number {
                Some(n) => {
                    if n == pin {
                        assert(matches_slot(self.pins@[i as int], i as int));
                        return i;
                    }
                },
                None => {},
            }
            i = i + 1;
        }
        proof {
            let s = pin_slot(pin as int);
            assert(matches_slot(self.pins@[s], s));
        }
        0
    }

    fn read_reg(&mut self, offset: usize) -> (r: u32)
        requires
            old(self).window is Some,
            offset < WINDOW_WORDS,
        ensures
            final(self).trace@ == old(self).trace@.push(RegEvent::Read { offset, value: r }),
            final(self).pins == old(self).pins,
            final(self).initialized == old(self).initialized,
            final(self).window is Some,
    {
        let v = match &mut self.window {
            Some(w) => w.read(offset),
            None => 0,
        };
        self.trace = Ghost(self.trace@.push(RegEvent::Read { offset, value: v }));
        v
    }

    fn write_reg(&mut self, offset: usize, value: u32)
        requires
            old(self).window is Some,
            offset < WINDOW_WORDS,
        ensures
            final(self).trace@ == old(self).trace@.push(RegEvent::Write { offset, value }),
            final(self).pins == old(self).pins,
            final(self).initialized == old(self).initialized,
            final(self).window is Some,
    {
        match &mut self.window {
            Some(w) => w.write(offset, value),
            None => {},
        }
        self.trace = Ghost(self.trace@.push(RegEvent::Write { offset, value }));
    }

    fn pause(&mut self, micros: u64)
        requires
            old(self).window is Some,
        ensures
            final(self).trace@ == old(self).trace@.push(RegEvent::Pause { micros }),
            final(self).pins == old(self).pins,
            final(self).initialized == old(self).initialized,
            final(self).window is Some,
    {
        match &mut self.window {
            Some(w) => w.pause_micros(micros),
            None => {},
        }
        self.trace = Ghost(self.trace@.push(RegEvent::Pause { micros }));
    }

    /// Sets a pin's function-select field to `001` (output) or `000` (input) by
    /// read-modify-write of word `pin / 10`, and records the direction in the table.
    pub fn set_direction(&mut self, pin: i32, direction: PinDirection) -> (r: Result<(), GpioError>)
        requires
            old(self).wf(),
        ensures
            final(self).wf(),
            match check_pin(old(self).initialized, pin) {
                Some(e) => r == Err::<(), GpioError>(e) && *final(self) == *old(self),
                None => {
                    &&& r is Ok
                    &&& final(self).initialized == old(self).initialized
                    &&& final(self).pins@ == old(self).pins@.update(
                        pin_slot(pin as int),
                        with_direction(old(self).pin_entry(pin), direction),
                    )
                    &&& final(self).trace@ == old(self).trace@ + direction_events(
                        pin,
                        direction,
                        read_value(final(self).event(old(self).trace@.len() as int)),
                    )
                },
            },
    {
        match self.validate_input(pin) {
            Err(e) => {
                return Err(e);
            },
            Ok(_) => {},
        }
        let reg: usize = (pin / 10) as usize;
        let bit: u32 = ((pin % 10) * 3) as u32;
        let v = self.read_reg(reg);
        let mut w = v & !(7u32 << bit);
        match direction {
            PinDirection::Output => {
                w = w | (1u32 << bit);
            },
            PinDirection::Input => {},
        }
        self.write_reg(reg, w);
        let slot = self.find_slot(pin);
        self.pins[slot].direction = direction;
        assert(self.trace@ =~= old(self).trace@ + direction_events(pin, direction, v));
        Ok(())
    }

    fn write_level(&mut self, pin: i32, level: PinLevel)
        requires
            old(self).wf(),
            old(self).initialized,
            valid_pin(pin),
        ensures
            final(self).wf(),
            final(self).initialized == old(self).initialized,
            final(self).pins@ == old(self).pins@.update(
                pin_slot(pin as int),
                with_level(old(self).pin_entry(pin), level),
            ),
            final(self).trace@ == old(self).trace@.push(level_event(pin, level)),
    {
        let mask: u32 = 1u32 << (pin as u32);
        match level {
            PinLevel::High => self.write_reg(GPIO_SET_OFFSET, mask),
            PinLevel::Low => self.write_reg(GPIO_CLR_OFFSET, mask),
        }
        let slot = self.find_slot(pin);
        self.pins[slot].level = level;
    }

    /// Makes the pin an output, then writes `1 << pin` to Set (high) or Clear (low),
    /// and records output and the level in the table.
    pub fn set_level(&mut self, pin: i32, level: PinLevel) -> (r: Result<(), GpioError>)
        requires
            old(self).wf(),
        ensures
            final(self).wf(),
            match check_pin(old(self).initialized, pin) {
                Some(e) => r == Err::<(), GpioError>(e) && *final(self) == *old(self),
                None => r is Ok && old(self).level_applied(*final(self), pin, level),
            },
            check_pin(old(self).initialized, pin) is None ==> {
                &&& final(self).pin_entry(pin).direction == PinDirection::Output
                &&& final(self).pin_entry(pin).level == level
            },
    {
        proof {
            lemma_layout_numbers();
        }
        match self.set_direction(pin, PinDirection::Output) {
            Err(e) => {
                return Err(e);
            },
            Ok(_) => {},
        }
        let ghost mid = self.trace@;
        self.write_level(pin, level);
        assert(self.trace@[old(self).trace@.len() as int] == mid[old(self).trace@.len() as int]);
        assert(self.pins@ =~= old(self).pins@.update(
            pin_slot(pin as int),
            with_level(with_direction(old(self).pin_entry(pin), PinDirection::Output), level),
        ));
        Ok(())
    }

    /// Programs the pin's pull resistor: Pull <- 0, wait; Pull <- code, wait; for a
    /// pull, PullClk0 <- 1 << pin, wait; then Pull <- 0 and PullClk0 <- 0.
    pub fn set_pull_type(&mut self, pin: i32, pull_type: PullType) -> (r: Result<(), GpioError>)
        requires
            old(self).wf(),
        ensures
            final(self).wf(),
            match check_pin(old(self).initialized, pin) {
                Some(e) => r == Err::<(), GpioError>(e) && *final(self) == *old(self),
                None => r is Ok && old(self).pull_applied(*final(self), pin, pull_type),
            },
    {
        match self.validate_input(pin) {
            Err(e) => {
                return Err(e);
            },
            Ok(_) => {},
        }
        let code: u32 = match pull_type {
            PullType::NoPull => 0,
            PullType::Down => 1,
            PullType::Up => 2,
        };
        self.write_reg(GPIO_PULL_OFFSET, 0);
        self.pause(PULL_WAIT_MICROS);
        self.write_reg(GPIO_PULL_OFFSET, code);
        self.pause(PULL_WAIT_MICROS);
        match pull_type {
            PullType::NoPull => {},
            PullType::Down | PullType::Up => {
                self.write_reg(GPIO_PULLCLK0_OFFSET, 1u32 << (pin as u32));
                self.pause(PULL_WAIT_MICROS);
            },
        }
        self.write_reg(GPIO_PULL_OFFSET, 0);
        self.write_reg(GPIO_PULLCLK0_OFFSET, 0);
        let slot = self.find_slot(pin);
        self.pins[slot].pull = pull_type;
        assert(self.trace@ =~= old(self).trace@ + pull_events(pin, pull_type));
        Ok(())
    }

    /// Reads the Level register; the pin's bit gives its level. The direction is not touched.
    pub fn get_level(&mut self, pin: i32) -> (r: Result<PinLevel, GpioError>)
        requires
            old(self).wf(),
        ensures
            final(self).wf(),
            match check_pin(old(self).initialized, pin) {
                Some(e) => r == Err::<PinLevel, GpioError>(e) && *final(self) == *old(self),
                None => {
                    &&& old(self).level_read(*final(self))
                    &&& r == Ok::<PinLevel, GpioError>(
                        level_in_word(old(self).sampled(*final(self)), pin),
                    )
                },
            },
    {
        match self.validate_input(pin) {
            Err(e) => {
                return Err(e);
            },
            Ok(_) => {},
        }
        let v = self.read_reg(GPIO_LEV_OFFSET);
        if v & (1u32 << (pin as u32)) != 0 {
            Ok(PinLevel::High)
        } else {
            Ok(PinLevel::Low)
        }
    }

    /// The direction recorded in the table for `pin`.
    pub fn get_direction(&self, pin: i32) -> (r: Result<PinDirection, GpioError>)
        requires
            self.wf(),
        ensures
            match check_pin(self.initialized, pin) {
                Some(e) => r == Err::<PinDirection, GpioError>(e),
                None => r == Ok::<PinDirection, GpioError>(self.pin_entry(pin).direction),
            },
    {
        match self.validate_input(pin) {
            Err(e) => {
                return Err(e);
            },
            Ok(_) => {},
        }
        let slot = self.find_slot(pin);
        Ok(self.pins[slot].direction)
    }

    /// Drives the pin to the opposite of the level recorded in the table and returns
    /// the new level.
    pub fn toggle(&mut self, pin: i32) -> (r: Result<PinLevel, GpioError>)
        requires
            old(self).wf(),
        ensures
            final(self).wf(),
            match check_pin(old(self).initialized, pin) {
                Some(e) => r == Err::<PinLevel, GpioError>(e) && *final(self) == *old(self),
                None => {
                    let new_level = opposite(old(self).pin_entry(pin).level);
                    &&& r == Ok::<PinLevel, GpioError>(new_level)
                    &&& old(self).level_applied(*final(self), pin, new_level)
                },
            },
            r is Ok ==> {
                &&& final(self).pin_entry(pin).level == r->Ok_0
                &&& r->Ok_0 != old(self).pin_entry(pin).level
            },
    {
        match self.validate_input(pin) {
            Err(e) => {
                return Err(e);
            },
            Ok(_) => {},
        }
        let slot = self.find_slot(pin);
        let new_level = match self.pins[slot].level {
            PinLevel::High => PinLevel::Low,
            PinLevel::Low => PinLevel::High,
        };
        match self.set_level(pin, new_level) {
            Err(e) => {
                return Err(e);
            },
            Ok(_) => {},
        }
        Ok(new_level)
    }
    /// Puts every pin in 0..=27 back to input, writes it low and removes its pull.
    pub fn reset(&mut self) -> (r: Result<(), GpioError>)
        requires
            old(self).wf(),
        ensures
            final(self).wf(),
            !old(self).initialized ==> r == Err::<(), GpioError>(GpioError::NotInitialized)
                && *final(self) == *old(self),
            old(self).initialized ==> {
                &&& r is Ok
                &&& final(self).initialized
                &&& final(self).all_reset()
                &&& unnumbered_kept(old(self).pins@, final(self).pins@)
                &&& extends(old(self).trace@, final(self).trace@)
                &&& level_writes(final(self).trace@) == level_writes(old(self).trace@)
                    + reset_clears(MAX_PIN + 1)
            },
    {
        if !self.initialized {
            return Err(GpioError::NotInitialized);
        }
        proof {
            lemma_layout_numbers();
        }
        let mut pin: i32 = 0;
        while pin <= MAX_PIN
            invariant
                old(self).wf(),
                self.wf(),
                self.initialized,
                0 <= pin <= MAX_PIN + 1,
                forall|n: i32|
                    0 <= n < pin ==> is_reset_state(self.pins@[#[trigger] pin_slot(n as int)]),
                unnumbered_kept(old(self).pins@, self.pins@),
                extends(old(self).trace@, self.trace@),
                level_writes(self.trace@) == level_writes(old(self).trace@) + reset_clears(
                    pin as int,
                ),
            decreases MAX_PIN + 1 - pin,
        {
            let ghost before = self.trace@;
            let ghost table = self.pins@;
            let ghost s = pin_slot(pin as int);
            let _ = self.set_direction(pin, PinDirection::Input);
            let ghost read_back = read_value(self.trace@[before.len() as int]);
            assert(self.trace@ == before + direction_events(pin, PinDirection::Input, read_back));
            self.write_level(pin, PinLevel::Low);
            let ghost cleared = self.trace@;
            let _ = self.set_pull_type(pin, PullType::NoPull);
            proof {
                lemma_level_writes_of_ops(
                    before,
                    pin,
                    PinDirection::Input,
                    PinLevel::Low,
                    read_back,
                    PullType::NoPull,
                );
                lemma_level_writes_of_ops(
                    cleared,
                    pin,
                    PinDirection::Input,
                    PinLevel::Low,
                    read_back,
                    PullType::NoPull,
                );
                assert(reset_clears(pin + 1) == reset_clears(pin as int).push(
                    level_event(pin, PinLevel::Low),
                ));
                assert(level_writes(old(self).trace@) + reset_clears(pin + 1) =~= (level_writes(
                    old(self).trace@,
                ) + reset_clears(pin as int)).push(level_event(pin, PinLevel::Low)));
                assert(self.pins@ =~= table.update(s, self.pins@[s]));
                assert(matches_slot(table[s], s));
                assert forall|n: i32| 0 <= n < pin + 1 implies is_reset_state(
                    self.pins@[#[trigger] pin_slot(n as int)],
                ) by {
                    assert(layout(s).0 == Some(pin));
                    if n != pin {
                        assert(layout(pin_slot(n as int)).0 == Some(n));
                        assert(pin_slot(n as int) != s);
                        assert(self.pins@[pin_slot(n as int)] == table[pin_slot(n as int)]);
                    }
                }
                assert forall|i: int|
                    0 <= i < old(self).pins@.len() && (#[trigger] old(self).pins@[i]).number
                        is None implies self.pins@[i] == old(self).pins@[i] by {
                    assert(matches_slot(old(self).pins@[i], i));
                }
            }
            assert(extends(before, self.trace@));
            pin = pin + 1;
        }
        Ok(())
    }

    /// Maps the register window, marks the driver initialized and resets every pin.
    /// Already initialized: nothing happens. A failed mapping leaves it uninitialized.
    pub fn setup(&mut self) -> (r: Result<(), GpioError>)
        requires
            old(self).wf(),
        ensures
            final(self).wf(),
            old(self).initialized ==> r is Ok && *final(self) == *old(self),
            !old(self).initialized ==> {
                ||| r == Err::<(), GpioError>(GpioError::Setup) && *final(self) == *old(self)
                ||| {
                    &&& r is Ok
                    &&& final(self).initialized
                    &&& final(self).all_reset()
                    &&& unnumbered_kept(old(self).pins@, final(self).pins@)
                    &&& extends(old(self).trace@, final(self).trace@)
                    &&& level_writes(final(self).trace@) == level_writes(old(self).trace@)
                        + reset_clears(MAX_PIN + 1)
                }
            },
    {
        if self.initialized {
            return Ok(());
        }
        match W::acquire() {
            None => Err(GpioError::Setup),
            Some(w) => {
                self.window = Some(w);
                self.initialized = true;
                let _ = self.reset();
                Ok(())
            },
        }
    }

    /// Releases the register window and marks the driver uninitialized.
    pub fn terminate(&mut self) -> (r: Result<(), GpioError>)
        requires
            old(self).wf(),
        ensures
            final(self).wf(),
            !old(self).initialized ==> r == Err::<(), GpioError>(GpioError::NotInitialized)
                && *final(self) == *old(self),
            old(self).initialized ==> {
                &&& r is Ok
                &&& !final(self).initialized
                &&& final(self).pins == old(self).pins
                &&& final(self).trace == old(self).trace
            },
    {
        if !self.initialized {
            return Err(GpioError::NotInitialized);
        }
        self.window = None;
        self.initialized = false;
        Ok(())
    }
}

} // verus!
