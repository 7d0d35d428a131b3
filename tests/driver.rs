use gpio_engine::errors::GpioError;
use gpio_engine::gpio::{Gpio, RegEvent, RegisterWindow};
use gpio_engine::pins::{default_pins, Pin, PinColumn, PinDirection, PinLevel, PinType, PullType};
use gpio_engine::window::RecordingWindow;

struct Unavailable;

impl RegisterWindow for Unavailable {
    fn acquire() -> Option<Self> {
        None
    }
    fn read(&mut self, _offset: usize) -> u32 {
        0
    }
    fn write(&mut self, _offset: usize, _value: u32) {}
    fn pause_micros(&mut self, _micros: u64) {}
}

fn ready() -> Gpio<RecordingWindow> {
    let mut g: Gpio<RecordingWindow> = Gpio::new();
    assert_eq!(g.setup(), Ok(()));
    g
}

fn entry<W: RegisterWindow>(g: &Gpio<W>, n: i32) -> &Pin {
    g.pins.iter().find(|p| p.number == Some(n)).unwrap()
}

fn events(g: &Gpio<RecordingWindow>) -> Vec<RegEvent> {
    g.window.as_ref().unwrap().events.clone()
}

fn writes_from(g: &Gpio<RecordingWindow>, start: usize) -> Vec<(usize, u32)> {
    events(g)[start..]
        .iter()
        .filter_map(|e| match e {
            RegEvent::Write { offset, value } => Some((*offset, *value)),
            _ => None,
        })
        .collect()
}

fn level_writes_from(g: &Gpio<RecordingWindow>, start: usize) -> Vec<(usize, u32)> {
    writes_from(g, start).into_iter().filter(|(o, _)| *o == 7 || *o == 10).collect()
}

#[test]
fn setup_resets_every_pin() {
    let g = ready();
    assert!(g.initialized);
    for n in 0..=27 {
        let p = entry(&g, n);
        assert_eq!(p.direction, PinDirection::Input);
        assert_eq!(p.level, PinLevel::Low);
        assert_eq!(p.pull, PullType::NoPull);
    }
    // every pin was driven low once
    let clears: Vec<u32> = level_writes_from(&g, 0).into_iter().map(|(_, v)| v).collect();
    assert_eq!(clears, (0..28).map(|n| 1u32 << n).collect::<Vec<u32>>());
}

#[test]
fn set_level_records_output_and_level() {
    let mut g = ready();
    for n in 0..=27 {
        for level in [PinLevel::High, PinLevel::Low] {
            assert_eq!(g.set_level(n, level), Ok(()));
            let p = entry(&g, n);
            assert_eq!(p.direction, PinDirection::Output);
            assert_eq!(p.level, level);
        }
    }
}

#[test]
fn toggle_flips_recorded_level() {
    let mut g = ready();
    let before = entry(&g, 22).level;
    let v = g.toggle(22).unwrap();
    assert_ne!(v, before);
    assert_eq!(entry(&g, 22).level, v);
    let w = g.toggle(22).unwrap();
    assert_ne!(w, v);
    assert_eq!(entry(&g, 22).level, w);
}

#[test]
fn out_of_range_pins_are_invalid() {
    let mut g = ready();
    assert_eq!(g.set_level(-1, PinLevel::High), Err(GpioError::InvalidPin(-1)));
    assert_eq!(g.set_level(28, PinLevel::High), Err(GpioError::InvalidPin(28)));
    assert_eq!(g.toggle(-1), Err(GpioError::InvalidPin(-1)));
    assert_eq!(g.toggle(28), Err(GpioError::InvalidPin(28)));
    assert_eq!(g.get_level(28), Err(GpioError::InvalidPin(28)));
    assert_eq!(g.set_pull_type(-1, PullType::Up), Err(GpioError::InvalidPin(-1)));
    assert_eq!(g.set_direction(28, PinDirection::Output), Err(GpioError::InvalidPin(28)));
    assert_eq!(g.validate_input(-1), Err(GpioError::InvalidPin(-1)));
    assert_eq!(g.validate_input(27), Ok(27));
}

#[test]
fn setup_twice_keeps_the_window() {
    let mut g = ready();
    let n = events(&g).len();
    assert_eq!(g.setup(), Ok(()));
    assert!(g.initialized);
    assert_eq!(events(&g).len(), n);
}

#[test]
fn failed_setup_leaves_driver_uninitialized() {
    let mut g: Gpio<Unavailable> = Gpio::new();
    assert_eq!(g.setup(), Err(GpioError::Setup));
    assert!(!g.initialized);
    assert!(g.window.is_none());
    assert_eq!(g.set_level(3, PinLevel::High), Err(GpioError::NotInitialized));
}

#[test]
fn terminate_then_operations_fail() {
    let mut g = ready();
    assert_eq!(g.terminate(), Ok(()));
    assert!(!g.initialized);
    assert!(g.window.is_none());
    assert_eq!(g.set_level(4, PinLevel::High), Err(GpioError::NotInitialized));
    assert_eq!(g.set_direction(4, PinDirection::Output), Err(GpioError::NotInitialized));
    assert_eq!(g.set_pull_type(4, PullType::Up), Err(GpioError::NotInitialized));
    assert_eq!(g.get_level(4), Err(GpioError::NotInitialized));
    assert_eq!(g.toggle(4), Err(GpioError::NotInitialized));
    assert_eq!(g.get_direction(4), Err(GpioError::NotInitialized));
    assert_eq!(g.reset(), Err(GpioError::NotInitialized));
    assert_eq!(g.terminate(), Err(GpioError::NotInitialized));
    // the invalid pin is still reported as not initialized: that check comes first
    assert_eq!(g.toggle(99), Err(GpioError::NotInitialized));
}

#[test]
fn set_high_then_low_on_17() {
    let mut g = ready();
    let start = events(&g).len();
    assert_eq!(g.set_level(17, PinLevel::High), Ok(()));
    assert_eq!(g.set_level(17, PinLevel::Low), Ok(()));
    let writes = writes_from(&g, start);
    let fsel: Vec<u32> = writes.iter().filter(|(o, _)| *o == 1).map(|(_, v)| *v).collect();
    assert!(!fsel.is_empty());
    for v in fsel {
        assert_eq!(v & (7 << 21), 1 << 21);
    }
    assert_eq!(writes[0], (1, 1 << 21));
    assert_eq!(level_writes_from(&g, start), vec![(7, 1 << 17), (10, 1 << 17)]);
    assert_eq!(g.terminate(), Ok(()));
    let p = entry(&g, 17);
    assert_eq!((p.direction, p.level, p.pull), (PinDirection::Output, PinLevel::Low, PullType::NoPull));
}

#[test]
fn toggle_four_twice() {
    let mut g = ready();
    let start = events(&g).len();
    assert_eq!(g.toggle(4), Ok(PinLevel::High));
    assert_eq!(g.toggle(4), Ok(PinLevel::Low));
    let writes = writes_from(&g, start);
    assert_eq!(writes[0], (0, 1 << 12));
    assert_eq!(level_writes_from(&g, start), vec![(7, 1 << 4), (10, 1 << 4)]);
}

#[test]
fn pull_up_on_18_sequence() {
    let mut g = ready();
    let start = events(&g).len();
    assert_eq!(g.set_pull_type(18, PullType::Up), Ok(()));
    assert_eq!(
        events(&g)[start..].to_vec(),
        vec![
            RegEvent::Write { offset: 37, value: 0 },
            RegEvent::Pause { micros: 100 },
            RegEvent::Write { offset: 37, value: 2 },
            RegEvent::Pause { micros: 100 },
            RegEvent::Write { offset: 38, value: 1 << 18 },
            RegEvent::Pause { micros: 100 },
            RegEvent::Write { offset: 37, value: 0 },
            RegEvent::Write { offset: 38, value: 0 },
        ]
    );
    assert_eq!(entry(&g, 18).pull, PullType::Up);
}

#[test]
fn recording_window_lists_writes() {
    let mut g = ready();
    assert_eq!(g.set_level(27, PinLevel::High), Ok(()));
    let all = g.window.as_ref().unwrap().writes();
    assert_eq!(all, writes_from(&g, 0));
    assert_eq!(all[all.len() - 2..].to_vec(), vec![(2, 1 << 21), (7, 1 << 27)]);
    let fresh = RecordingWindow::new();
    assert!(fresh.writes().is_empty());
    assert_eq!(fresh.words.len(), 1024);
}

#[test]
fn pull_down_and_none_sequences() {
    let mut g = ready();
    let start = events(&g).len();
    assert_eq!(g.set_pull_type(3, PullType::Down), Ok(()));
    assert_eq!(
        writes_from(&g, start),
        vec![(37, 0), (37, 1), (38, 1 << 3), (37, 0), (38, 0)]
    );
    let start = events(&g).len();
    assert_eq!(g.set_pull_type(3, PullType::NoPull), Ok(()));
    assert_eq!(writes_from(&g, start), vec![(37, 0), (37, 0), (37, 0), (38, 0)]);
    assert_eq!(entry(&g, 3).pull, PullType::NoPull);
}

#[test]
fn direction_read_modify_write_keeps_other_fields() {
    let mut g = ready();
    g.window.as_mut().unwrap().words[2] = 0xFFFF_FFFF;
    let start = events(&g).len();
    assert_eq!(g.set_direction(25, PinDirection::Input), Ok(()));
    assert_eq!(writes_from(&g, start), vec![(2, 0xFFFF_FFFF & !(7 << 15))]);
    assert_eq!(g.get_direction(25), Ok(PinDirection::Input));
    assert_eq!(g.set_direction(25, PinDirection::Output), Ok(()));
    assert_eq!(g.get_direction(25), Ok(PinDirection::Output));
}

#[test]
fn get_level_reads_level_register() {
    let mut g = ready();
    assert_eq!(g.get_level(9), Ok(PinLevel::Low));
    g.window.as_mut().unwrap().words[13] = 1 << 9;
    assert_eq!(g.get_level(9), Ok(PinLevel::High));
    assert_eq!(g.get_level(8), Ok(PinLevel::Low));
    // reading does not change the direction
    assert_eq!(g.get_direction(9), Ok(PinDirection::Input));
}

#[test]
fn default_pins_layout() {
    let pins = default_pins();
    assert_eq!(pins.len(), 40);
    let left: Vec<&Pin> = pins.iter().filter(|p| p.column == PinColumn::Left).collect();
    let right: Vec<&Pin> = pins.iter().filter(|p| p.column == PinColumn::Right).collect();
    assert_eq!(left.len(), 20);
    assert_eq!(right.len(), 20);
    assert_eq!(left[0].pin_type, PinType::Power3v3);
    assert_eq!(right[0].pin_type, PinType::Power5v);
    assert_eq!(left[1].number, Some(2));
    assert_eq!(left[1].label, "GPIO 2 (I2C1 SDA)");
    assert_eq!(right[3].number, Some(14));
    assert_eq!(right[3].pin_type, PinType::Uart);
    assert_eq!(right[5].label, "GPIO 18 (PCM CLK)");
    assert_eq!(left[19].pin_type, PinType::Gnd);
    assert_eq!(right[19].number, Some(21));
    let mut numbers: Vec<i32> = pins.iter().filter_map(|p| p.number).collect();
    numbers.sort();
    assert_eq!(numbers, (0..28).collect::<Vec<i32>>());
    for p in &pins {
        assert_eq!(p.direction, PinDirection::Input);
        assert_eq!(p.level, PinLevel::Low);
        assert_eq!(p.pull, PullType::NoPull);
    }
}

#[test]
fn html_layout_and_pin_fragment() {
    let mut g = ready();
    let html = g.get_html_pins().unwrap();
    assert!(html.starts_with("<div class=\"gpio-layout\"><div class=\"gpio-row\"><div class=\"pin-wrapper\"><span class=\"pin power\" disabled>3v3 Power</span></div>"));
    assert!(html.ends_with("</div></div>"));
    assert_eq!(html.matches("<div class=\"gpio-row\">").count(), 20);
    assert_eq!(html.matches("class=\"pin ground\" disabled>Ground").count(), 8);
    assert_eq!(g.toggle(17), Ok(PinLevel::High));
    let frag = g.update_pin(17).unwrap();
    assert_eq!(
        frag,
        "<div id=\"gpio-pin-17\" class=\"pin-wrapper\"><label class=\"toggle-switch\"><input type=\"checkbox\" checked id=\"checkbox-17\" class=\"pin-checkbox\" ws-send hx-trigger=\"change\" hx-vals='{\"pin\": \"17\"}'><span class=\"pin gpio high\">GPIO 17</span></label></div>"
    );
    assert_eq!(g.update_pin(28), Err(GpioError::InvalidPin(28)));
}

#[test]
fn error_messages() {
    assert_eq!(GpioError::InvalidPin(-1).message(), "Invalid gpio pin -1");
    assert_eq!(GpioError::InvalidPin(99).message(), "Invalid gpio pin 99");
    assert_eq!(GpioError::NotInitialized.message(), "GPIO Not Initialized");
    assert_eq!(GpioError::Setup.message(), "Failed to Initialize");
    assert_eq!(GpioError::Terminate.message(), "Failed to terminate");
    assert_eq!(GpioError::Direction(5).message(), "Failed to set direction 5");
    assert_eq!(GpioError::SetLevel(5).message(), "Failed to set high - low 5");
    assert_eq!(GpioError::Clear(12).message(), "Failed to clear GPIO 12");
    assert_eq!(GpioError::PullUp(3).message(), "Failed to set 3 to pull up");
    assert_eq!(GpioError::PullDown(3).message(), "Failed to set 3 to pull down");
    assert_eq!(GpioError::Device.message(), "Failed to switch device");
    assert_eq!(GpioError::InvalidDevice(7).message(), "Invalid device 7");
    assert_eq!(GpioError::InvalidPin(i32::MIN).message(), "Invalid gpio pin -2147483648");
}
