use gpio_engine::actions::{render_action_item, render_action_list, Action, ActionForm, ActionStore, LoopOption};
use gpio_engine::config::{action_records, actions_from_records, save_actions, Config};
use gpio_engine::errors::GpioError;
use gpio_engine::executor::{run_once, Executor, Step};
use gpio_engine::gpio::{Gpio, RegEvent};
use gpio_engine::logger::{LogEntry, LogType};
use gpio_engine::pins::PinLevel;
use gpio_engine::window::RecordingWindow;

fn initialized_driver() -> Gpio<RecordingWindow> {
    let mut g: Gpio<RecordingWindow> = Gpio::new();
    assert_eq!(g.setup(), Ok(()));
    g
}

fn mark(g: &Gpio<RecordingWindow>) -> usize {
    g.window.as_ref().unwrap().events.len()
}

fn set_clear_writes(g: &Gpio<RecordingWindow>, start: usize) -> Vec<(usize, u32)> {
    g.window.as_ref().unwrap().events[start..]
        .iter()
        .filter_map(|e| match e {
            RegEvent::Write { offset, value } if *offset == 7 || *offset == 10 => Some((*offset, *value)),
            _ => None,
        })
        .collect()
}

fn form(kind: &str, value: i32) -> ActionForm {
    ActionForm { action_type: kind.to_string(), value }
}

#[test]
fn one_pass_with_delay() {
    let mut g = initialized_driver();
    let start = mark(&g);
    let store = ActionStore::from_actions(vec![Action::SetHigh(2), Action::Delay(10), Action::SetLow(2)]);
    let mut ex = Executor::new(false);
    let mut steps = Vec::new();
    loop {
        let s = ex.step(&mut g, &store, false);
        steps.push(s);
        if s == Step::Finished {
            break;
        }
    }
    assert_eq!(
        steps,
        vec![
            Step::Ran(Action::SetHigh(2)),
            Step::Sleep(10),
            Step::Ran(Action::SetLow(2)),
            Step::Finished
        ]
    );
    assert_eq!(set_clear_writes(&g, start), vec![(7, 1 << 2), (10, 1 << 2)]);
}

#[test]
fn looping_until_stopped_after_three_passes() {
    let mut g = initialized_driver();
    let start = mark(&g);
    let store = ActionStore::from_actions(vec![Action::SetHigh(5)]);
    let mut ex = Executor::new(true);
    let mut passes = 0;
    let mut stop = false;
    loop {
        match ex.step(&mut g, &store, stop) {
            Step::Ran(_) => {
                passes += 1;
                if passes == 3 {
                    stop = true;
                }
            }
            Step::Finished => break,
            other => panic!("unexpected step {:?}", other),
        }
        assert!(passes <= 4);
    }
    let sets = set_clear_writes(&g, start);
    assert!(sets.len() >= 3 && sets.len() <= 4);
    assert!(sets.iter().all(|w| *w == (7, 1 << 5)));
    assert_eq!(ex.step(&mut g, &store, false), Step::Finished);
}

#[test]
fn stop_before_first_action_dispatches_nothing() {
    let mut g = initialized_driver();
    let start = mark(&g);
    let store = ActionStore::from_actions(vec![Action::SetHigh(1), Action::SetLow(1)]);
    let mut ex = Executor::new(true);
    assert_eq!(ex.step(&mut g, &store, true), Step::Finished);
    assert_eq!(mark(&g), start);
    assert_eq!(ex.step(&mut g, &store, false), Step::Finished);
    assert_eq!(mark(&g), start);
}

#[test]
fn looping_empty_program_returns_at_once() {
    let mut g = initialized_driver();
    let store = ActionStore::new();
    let mut ex = Executor::new(true);
    assert_eq!(ex.step(&mut g, &store, false), Step::Finished);
    assert!(ex.finished);
}

#[test]
fn uninitialized_driver_does_not_start() {
    let mut g: Gpio<RecordingWindow> = Gpio::new();
    let store = ActionStore::from_actions(vec![Action::SetHigh(1)]);
    let mut ex = Executor::new(false);
    assert_eq!(ex.step(&mut g, &store, false), Step::NotInitialized);
    assert_eq!(ex.step(&mut g, &store, false), Step::Finished);
}

#[test]
fn zero_delay_then_stop_is_honored() {
    let mut g = initialized_driver();
    let start = mark(&g);
    let store = ActionStore::from_actions(vec![Action::Delay(0), Action::SetHigh(3)]);
    let mut ex = Executor::new(false);
    assert_eq!(ex.step(&mut g, &store, false), Step::Sleep(0));
    assert_eq!(ex.step(&mut g, &store, true), Step::Finished);
    assert!(set_clear_writes(&g, start).is_empty());
}

#[test]
fn negative_delay_sleeps_nothing() {
    let mut g = initialized_driver();
    let store = ActionStore::from_actions(vec![Action::Delay(-5)]);
    let mut ex = Executor::new(false);
    assert_eq!(ex.step(&mut g, &store, false), Step::Sleep(0));
}

#[test]
fn invalid_pin_action_is_logged_and_skipped() {
    let mut g = initialized_driver();
    let start = mark(&g);
    let mut store = ActionStore::new();
    let action = form("set-high", 99).to_action().unwrap();
    assert_eq!(action, Action::SetHigh(99));
    assert_eq!(store.append(action), 0);
    assert_eq!(store.append(Action::SetLow(6)), 1);
    let mut ex = Executor::new(false);
    let first = ex.step(&mut g, &store, false);
    assert_eq!(first, Step::Failed(Action::SetHigh(99), GpioError::InvalidPin(99)));
    if let Step::Failed(_, e) = first {
        let entry = LogEntry::new(LogType::Error, e.message());
        assert_eq!(entry.message, "Invalid gpio pin 99");
    }
    assert_eq!(ex.step(&mut g, &store, false), Step::Ran(Action::SetLow(6)));
    assert_eq!(ex.step(&mut g, &store, false), Step::Finished);
    assert_eq!(set_clear_writes(&g, start), vec![(10, 1 << 6)]);
}

#[test]
fn wait_for_level_polls_until_seen() {
    let mut g = initialized_driver();
    let store = ActionStore::from_actions(vec![Action::WaitForHigh(8), Action::SetLow(9)]);
    let mut ex = Executor::new(false);
    assert_eq!(ex.step(&mut g, &store, false), Step::Waiting(Action::WaitForHigh(8)));
    assert_eq!(ex.step(&mut g, &store, false), Step::Waiting(Action::WaitForHigh(8)));
    // another request drives the pin high between polls
    assert_eq!(g.set_level(8, PinLevel::High), Ok(()));
    assert_eq!(ex.step(&mut g, &store, false), Step::Ran(Action::WaitForHigh(8)));
    assert_eq!(ex.step(&mut g, &store, false), Step::Ran(Action::SetLow(9)));
    assert_eq!(ex.step(&mut g, &store, false), Step::Finished);
}

#[test]
fn wait_for_low_and_stop_while_waiting() {
    let mut g = initialized_driver();
    assert_eq!(g.set_level(11, PinLevel::High), Ok(()));
    let store = ActionStore::from_actions(vec![Action::WaitForLow(11)]);
    let mut ex = Executor::new(true);
    assert_eq!(ex.step(&mut g, &store, false), Step::Waiting(Action::WaitForLow(11)));
    assert_eq!(ex.step(&mut g, &store, true), Step::Finished);
    let store = ActionStore::from_actions(vec![Action::WaitForLow(40)]);
    let mut ex = Executor::new(false);
    assert_eq!(
        ex.step(&mut g, &store, false),
        Step::Failed(Action::WaitForLow(40), GpioError::InvalidPin(40))
    );
}

#[test]
fn pull_actions_run_on_driver() {
    let mut g = initialized_driver();
    let store = ActionStore::from_actions(vec![Action::SetPullUp(12), Action::SetPullDown(13)]);
    let mut ex = Executor::new(false);
    assert_eq!(ex.step(&mut g, &store, false), Step::Ran(Action::SetPullUp(12)));
    assert_eq!(ex.step(&mut g, &store, false), Step::Ran(Action::SetPullDown(13)));
    assert_eq!(ex.step(&mut g, &store, false), Step::Finished);
}

#[test]
fn snapshot_isolates_the_running_pass() {
    let mut g = initialized_driver();
    let start = mark(&g);
    let mut store = ActionStore::from_actions(vec![Action::SetHigh(20), Action::SetHigh(21)]);
    let mut ex = Executor::new(true);
    assert_eq!(ex.step(&mut g, &store, false), Step::Ran(Action::SetHigh(20)));
    assert_eq!(store.remove(1), Some(Action::SetHigh(21)));
    assert_eq!(ex.step(&mut g, &store, false), Step::Ran(Action::SetHigh(21)));
    // the next pass sees the edit
    assert_eq!(ex.step(&mut g, &store, false), Step::Ran(Action::SetHigh(20)));
    assert_eq!(ex.step(&mut g, &store, true), Step::Finished);
    assert_eq!(set_clear_writes(&g, start), vec![(7, 1 << 20), (7, 1 << 21), (7, 1 << 20)]);
}

#[test]
fn run_once_orders_level_writes() {
    let mut g = initialized_driver();
    let start = mark(&g);
    let store = ActionStore::from_actions(vec![
        Action::SetHigh(3),
        Action::SetPullUp(3),
        Action::SetLow(30),
        Action::SetLow(26),
        Action::SetHigh(0),
    ]);
    let steps = run_once(&mut g, &store);
    assert_eq!(
        steps,
        vec![
            Step::Ran(Action::SetHigh(3)),
            Step::Ran(Action::SetPullUp(3)),
            Step::Failed(Action::SetLow(30), GpioError::InvalidPin(30)),
            Step::Ran(Action::SetLow(26)),
            Step::Ran(Action::SetHigh(0)),
        ]
    );
    assert_eq!(set_clear_writes(&g, start), vec![(7, 1 << 3), (10, 1 << 26), (7, 1)]);
}

#[test]
fn store_append_remove_snapshot() {
    let mut store = ActionStore::new();
    assert_eq!(store.append(Action::SetHigh(1)), 0);
    assert_eq!(store.append(Action::Delay(5)), 1);
    assert_eq!(store.append(Action::SetLow(1)), 2);
    let snap = store.snapshot();
    assert_eq!(store.remove(0), Some(Action::SetHigh(1)));
    assert_eq!(store.remove(5), None);
    assert_eq!(store.actions, vec![Action::Delay(5), Action::SetLow(1)]);
    assert_eq!(store.len(), 2);
    assert_eq!(snap, vec![Action::SetHigh(1), Action::Delay(5), Action::SetLow(1)]);
}

#[test]
fn form_kinds_parse() {
    assert_eq!(form("set-high", 17).to_action(), Some(Action::SetHigh(17)));
    assert_eq!(form("set-low", 17).to_action(), Some(Action::SetLow(17)));
    assert_eq!(form("delay", 250).to_action(), Some(Action::Delay(250)));
    assert_eq!(form("wait-for-high", 4).to_action(), Some(Action::WaitForHigh(4)));
    assert_eq!(form("wait-for-low", 4).to_action(), Some(Action::WaitForLow(4)));
    assert_eq!(form("set-pull-up", 2).to_action(), Some(Action::SetPullUp(2)));
    assert_eq!(form("set-pull-down", 2).to_action(), Some(Action::SetPullDown(2)));
    assert_eq!(form("set_high", 2).to_action(), None);
    assert_eq!(form("", 2).to_action(), None);
    assert!(LoopOption { should_loop: Some("true".to_string()) }.loops());
    assert!(!LoopOption { should_loop: Some("on".to_string()) }.loops());
    assert!(!LoopOption { should_loop: None }.loops());
}

#[test]
fn action_labels_and_texts() {
    assert_eq!(Action::SetHigh(17).label(), "SETHIGH17");
    assert_eq!(Action::SetLow(3).label(), "SETLOW3");
    assert_eq!(Action::Delay(100).label(), "DELAY100");
    assert_eq!(Action::WaitForHigh(5).label(), "WAITFORHIGH5");
    assert_eq!(Action::WaitForLow(5).label(), "WAITFORLOW5");
    assert_eq!(Action::SetPullUp(-2).label(), "SETPULLUP-2");
    assert_eq!(Action::SetPullDown(0).label(), "SETPULLDOWN0");
    assert_eq!(Action::SetHigh(17).display_text(), "GPIO:17 Set High");
    assert_eq!(Action::SetLow(17).display_text(), "GPIO:17 Set Low");
    assert_eq!(Action::Delay(10).display_text(), "Delay 10ms");
    assert_eq!(Action::WaitForHigh(6).display_text(), "Wait For HIGH GPIO:6");
    assert_eq!(Action::WaitForLow(6).display_text(), "Wait For LOW GPIO:6");
    assert_eq!(Action::SetPullUp(6).display_text(), "GPIO:6 Pull-Up");
    assert_eq!(Action::SetPullDown(6).display_text(), "GPIO:6 Pull-Down");
}

#[test]
fn action_list_html() {
    let item = render_action_item(3, "Delay 10ms");
    assert_eq!(
        item,
        "<div class=\"pin-item\" hx-delete=\"/delete-action/3\" hx-target=\"closest .pin-item\" hx-swap=\"outerHTML\"><span class=\"pin-number\">Delay 10ms</span><span class=\"pin-delete\">DELETE</span></div>"
    );
    let list = render_action_list(&vec![Action::SetHigh(1), Action::Delay(10)]);
    assert_eq!(list, format!("{}{}", render_action_item(0, "GPIO:1 Set High"), render_action_item(1, "Delay 10ms")));
    assert_eq!(render_action_list(&vec![]), "");
}

#[test]
fn records_round_trip() {
    let mut store = ActionStore::new();
    store.append(Action::SetHigh(17));
    store.append(Action::Delay(250));
    store.append(Action::WaitForLow(4));
    store.append(Action::SetPullDown(9));
    let records = action_records(&store.actions);
    assert_eq!(records[0], ("SetHigh".to_string(), 17));
    assert_eq!(records[1], ("Delay".to_string(), 250));
    assert_eq!(records[2], ("WaitForLow".to_string(), 4));
    assert_eq!(records[3], ("SetPullDown".to_string(), 9));
    assert_eq!(actions_from_records(&records), Some(store.actions.clone()));
    let bad = vec![("SetHigh".to_string(), 1), ("Blink".to_string(), 2)];
    assert_eq!(actions_from_records(&bad), None);
    assert_eq!(actions_from_records(&vec![]), Some(vec![]));
    assert_eq!(Action::from_tag("SetPullUp", 7), Some(Action::SetPullUp(7)));
    assert_eq!(Action::from_tag("sethigh", 7), None);
    assert_eq!(Action::WaitForHigh(1).tag(), "WaitForHigh");
}

#[test]
fn save_actions_replaces_program() {
    let loaded = Config { actions: vec![Action::SetHigh(1)] };
    let saved = save_actions(Some(loaded), &vec![Action::SetLow(2), Action::Delay(3)]);
    assert_eq!(saved.actions, vec![Action::SetLow(2), Action::Delay(3)]);
    let saved = save_actions(None, &vec![]);
    assert!(saved.actions.is_empty());
}

#[test]
fn log_entries() {
    let e = LogEntry::at(LogType::Info, "GPIO initialized".to_string(), 3600 * 25 + 61);
    assert_eq!(e.time, (1, 1, 1));
    assert_eq!(
        e.to_html(),
        "<div class=\"log-entry\"><span class=\"log-time\">[01:01:01]</span><span class=\"log-info\">GPIO initialized</span></div>"
    );
    let e = LogEntry::at(LogType::Error, "boom".to_string(), 86399);
    assert_eq!(e.time, (23, 59, 59));
    assert!(e.to_html().contains("[23:59:59]</span><span class=\"log-error\">boom"));
    let now = LogEntry::new(LogType::Info, "x".to_string());
    assert!(now.time.0 < 24 && now.time.1 < 60 && now.time.2 < 60);
}
