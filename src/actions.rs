use vstd::prelude::*;
use vstd::string::StringExecFns;

use crate::text::{around_int, int_text, push_int, push_str, text_eq, with_int};

verus! {

/// One step of an action program. Pin arguments are checked when the step runs,
/// not when it is made.
#[derive(Clone, Copy, Debug, PartialEq, Eq, Structural)]
pub enum Action {
    SetHigh(i32),
    SetLow(i32),
    Delay(i32),
    WaitForHigh(i32),
    WaitForLow(i32),
    SetPullUp(i32),
    SetPullDown(i32),
}

/// A request to add an action: its kind as the front end names it, and its argument.
#[derive(Debug)]
pub struct ActionForm {
    pub action_type: String,
    pub value: i32,
}

/// A request to start the program; it loops when `should_loop` is `"true"`.
#[derive(Debug)]
pub struct LoopOption {
    pub should_loop: Option<String>,
}

/// The argument of an action.
pub open spec fn action_value(a: Action) -> i32 {
    match a {
        Action::SetHigh(v) => v,
        Action::SetLow(v) => v,
        Action::Delay(v) => v,
        Action::WaitForHigh(v) => v,
        Action::WaitForLow(v) => v,
        Action::SetPullUp(v) => v,
        Action::SetPullDown(v) => v,
    }
}

/// The compact label of an action, e.g. `SETHIGH17`.
pub open spec fn action_label(a: Action) -> Seq<char> {
    let v = int_text(action_value(a) as int);
    match a {
        Action::SetHigh(_) => "SETHIGH"@ + v,
        Action::SetLow(_) => "SETLOW"@ + v,
        Action::Delay(_) => "DELAY"@ + v,
        Action::WaitForHigh(_) => "WAITFORHIGH"@ + v,
        Action::WaitForLow(_) => "WAITFORLOW"@ + v,
        Action::SetPullUp(_) => "SETPULLUP"@ + v,
        Action::SetPullDown(_) => "SETPULLDOWN"@ + v,
    }
}

/// The text an action list shows for an action, e.g. `GPIO:17 Set High`.
pub open spec fn action_text(a: Action) -> Seq<char> {
    let v = int_text(action_value(a) as int);
    match a {
        Action::SetHigh(_) => "GPIO:"@ + v + " Set High"@,
        Action::SetLow(_) => "GPIO:"@ + v + " Set Low"@,
        Action::Delay(_) => "Delay "@ + v + "ms"@,
        Action::WaitForHigh(_) => "Wait For HIGH GPIO:"@ + v,
        Action::WaitForLow(_) => "Wait For LOW GPIO:"@ + v,
        Action::SetPullUp(_) => "GPIO:"@ + v + " Pull-Up"@,
        Action::SetPullDown(_) => "GPIO:"@ + v + " Pull-Down"@,
    }
}

/// The action a form kind names, with `v` as its argument; `None` for an unknown kind.
pub open spec fn parse_kind(kind: Seq<char>, v: i32) -> Option<Action> {
    if kind == "set-high"@ {
        Some(Action::SetHigh(v))
    } else if kind == "set-low"@ {
        Some(Action::SetLow(v))
    } else if kind == "delay"@ {
        Some(Action::Delay(v))
    } else if kind == "wait-for-high"@ {
        Some(Action::WaitForHigh(v))
    } else if kind == "wait-for-low"@ {
        Some(Action::WaitForLow(v))
    } else if kind == "set-pull-up"@ {
        Some(Action::SetPullUp(v))
    } else if kind == "set-pull-down"@ {
        Some(Action::SetPullDown(v))
    } else {
        None
    }
}

/// The tag under which an action is stored, e.g. `{"SetHigh": 17}`.
pub open spec fn action_tag(a: Action) -> Seq<char> {
    match a {
        Action::SetHigh(_) => "SetHigh"@,
        Action::SetLow(_) => "SetLow"@,
        Action::Delay(_) => "Delay"@,
        Action::WaitForHigh(_) => "WaitForHigh"@,
        Action::WaitForLow(_) => "WaitForLow"@,
        Action::SetPullUp(_) => "SetPullUp"@,
        Action::SetPullDown(_) => "SetPullDown"@,
    }
}

/// The action stored under `tag` with argument `v`; `None` for an unknown tag.
pub open spec fn action_from_tag(tag: Seq<char>, v: i32) -> Option<Action> {
    if tag == "SetHigh"@ {
        Some(Action::SetHigh(v))
    } else if tag == "SetLow"@ {
        Some(Action::SetLow(v))
    } else if tag == "Delay"@ {
        Some(Action::Delay(v))
    } else if tag == "WaitForHigh"@ {
        Some(Action::WaitForHigh(v))
    } else if tag == "WaitForLow"@ {
        Some(Action::WaitForLow(v))
    } else if tag == "SetPullUp"@ {
        Some(Action::SetPullUp(v))
    } else if tag == "SetPullDown"@ {
        Some(Action::SetPullDown(v))
    } else {
        None
    }
}

/// The seven stored tags are distinct.
pub proof fn lemma_tags_distinct()
    ensures
        "SetHigh"@ != "SetLow"@,
        "SetHigh"@ != "Delay"@,
        "SetHigh"@ != "WaitForHigh"@,
        "SetHigh"@ != "WaitForLow"@,
        "SetHigh"@ != "SetPullUp"@,
        "SetHigh"@ != "SetPullDown"@,
        "SetLow"@ != "Delay"@,
        "SetLow"@ != "WaitForHigh"@,
        "SetLow"@ != "WaitForLow"@,
        "SetLow"@ != "SetPullUp"@,
        "SetLow"@ != "SetPullDown"@,
        "Delay"@ != "WaitForHigh"@,
        "Delay"@ != "WaitForLow"@,
        "Delay"@ != "SetPullUp"@,
        "Delay"@ != "SetPullDown"@,
        "WaitForHigh"@ != "WaitForLow"@,
        "WaitForHigh"@ != "SetPullUp"@,
        "WaitForHigh"@ != "SetPullDown"@,
        "WaitForLow"@ != "SetPullUp"@,
        "WaitForLow"@ != "SetPullDown"@,
        "SetPullUp"@ != "SetPullDown"@,
{
    reveal_strlit("SetHigh");
    reveal_strlit("SetLow");
    reveal_strlit("Delay");
    reveal_strlit("WaitForHigh");
    reveal_strlit("WaitForLow");
    reveal_strlit("SetPullUp");
    reveal_strlit("SetPullDown");
    assert("SetHigh"@[3] != "SetLow"@[3]);
    assert("SetHigh"@.len() != "Delay"@.len());
    assert("SetHigh"@.len() != "WaitForHigh"@.len());
    assert("SetHigh"@.len() != "WaitForLow"@.len());
    assert("SetHigh"@[3] != "SetPullUp"@[3]);
    assert("SetHigh"@.len() != "SetPullDown"@.len());
    assert("SetLow"@.len() != "Delay"@.len() || "SetLow"@[0] != "Delay"@[0]);
    assert("SetLow"@.len() != "WaitForHigh"@.len());
    assert("SetLow"@.len() != "WaitForLow"@.len());
    assert("SetLow"@.len() != "SetPullUp"@.len());
    assert("SetLow"@.len() != "SetPullDown"@.len());
    assert("Delay"@.len() != "WaitForHigh"@.len());
    assert("Delay"@.len() != "WaitForLow"@.len());
    assert("Delay"@.len() != "SetPullUp"@.len());
    assert("Delay"@.len() != "SetPullDown"@.len());
    assert("WaitForHigh"@.len() != "WaitForLow"@.len());
    assert("WaitForHigh"@[0] != "SetPullUp"@[0]);
    assert("WaitForHigh"@[0] != "SetPullDown"@[0]);
    assert("WaitForLow"@.len() != "SetPullUp"@.len());
    assert("WaitForLow"@[0] != "SetPullDown"@[0]);
    assert("SetPullUp"@.len() != "SetPullDown"@.len());
}

/// Decoding the stored tag and argument of an action gives the action back.
pub proof fn lemma_tag_round_trip(a: Action)
    ensures
        action_from_tag(action_tag(a), action_value(a)) == Some(a),
{
    lemma_tags_distinct();
}

impl Action {
    /// The argument of the action: a GPIO number, or milliseconds for `Delay`.
    pub fn value(&self) -> (r: i32)
        ensures
            r == action_value(*self),
    {
        match *self {
            Action::SetHigh(v) => v,
            Action::SetLow(v) => v,
            Action::Delay(v) => v,
            Action::WaitForHigh(v) => v,
            Action::WaitForLow(v) => v,
            Action::SetPullUp(v) => v,
            Action::SetPullDown(v) => v,
        }
    }

    /// The compact label of the action, e.g. `SETHIGH17`.
    pub fn label(&self) -> (r: String)
        ensures
            r@ == action_label(*self),
    {
        let v = self.value();
        match *self {
            Action::SetHigh(_) => with_int("SETHIGH", v),
            Action::SetLow(_) => with_int("SETLOW", v),
            Action::Delay(_) => with_int("DELAY", v),
            Action::WaitForHigh(_) => with_int("WAITFORHIGH", v),
            Action::WaitForLow(_) => with_int("WAITFORLOW", v),
            Action::SetPullUp(_) => with_int("SETPULLUP", v),
            Action::SetPullDown(_) => with_int("SETPULLDOWN", v),
        }
    }

    /// The text an action list shows for the action, e.g. `GPIO:17 Set High`.
    pub fn display_text(&self) -> (r: String)
        ensures
            r@ == action_text(*self),
    {
        let v = self.value();
        match *self {
            Action::SetHigh(_) => around_int("GPIO:", v, " Set High"),
            Action::SetLow(_) => around_int("GPIO:", v, " Set Low"),
            Action::Delay(_) => around_int("Delay ", v, "ms"),
            Action::WaitForHigh(_) => with_int("Wait For HIGH GPIO:", v),
            Action::WaitForLow(_) => with_int("Wait For LOW GPIO:", v),
            Action::SetPullUp(_) => around_int("GPIO:", v, " Pull-Up"),
            Action::SetPullDown(_) => around_int("GPIO:", v, " Pull-Down"),
        }
    }

    /// The tag under which the action is stored.
    pub fn tag(&self) -> (r: &'static str)
        ensures
            r@ == action_tag(*self),
    {
        match *self {
            Action::SetHigh(_) => "SetHigh",
            Action::SetLow(_) => "SetLow",
            Action::Delay(_) => "Delay",
            Action::WaitForHigh(_) => "WaitForHigh",
            Action::WaitForLow(_) => "WaitForLow",
            Action::SetPullUp(_) => "SetPullUp",
            Action::SetPullDown(_) => "SetPullDown",
        }
    }

    /// The action stored under `tag` with argument `value`; `None` for an unknown tag.
    pub fn from_tag(tag: &str, value: i32) -> (r: Option<Action>)
        ensures
            r == action_from_tag(tag@, value),
    {
        if text_eq(tag, "SetHigh") {
            Some(Action::SetHigh(value))
        } else if text_eq(tag, "SetLow") {
            Some(Action::SetLow(value))
        } else if text_eq(tag, "Delay") {
            Some(Action::Delay(value))
        } else if text_eq(tag, "WaitForHigh") {
            Some(Action::WaitForHigh(value))
        } else if text_eq(tag, "WaitForLow") {
            Some(Action::WaitForLow(value))
        } else if text_eq(tag, "SetPullUp") {
            Some(Action::SetPullUp(value))
        } else if text_eq(tag, "SetPullDown") {
            Some(Action::SetPullDown(value))
        } else {
            None
        }
    }
}

impl ActionForm {
    /// The action the form asks for; `None` when its kind is not one of `set-high`,
    /// `set-low`, `delay`, `wait-for-high`, `wait-for-low`, `set-pull-up`, `set-pull-down`.
    pub fn to_action(&self) -> (r: Option<Action>)
        ensures
            r == parse_kind(self.action_type@, self.value),
    {
        let kind = self.action_type.as_str();
        let v = self.value;
        if text_eq(kind, "set-high") {
            Some(Action::SetHigh(v))
        } else if text_eq(kind, "set-low") {
            Some(Action::SetLow(v))
        } else if text_eq(kind, "delay") {
            Some(Action::Delay(v))
        } else if text_eq(kind, "wait-for-high") {
            Some(Action::WaitForHigh(v))
        } else if text_eq(kind, "wait-for-low") {
            Some(Action::WaitForLow(v))
        } else if text_eq(kind, "set-pull-up") {
            Some(Action::SetPullUp(v))
        } else if text_eq(kind, "set-pull-down") {
            Some(Action::SetPullDown(v))
        } else {
            None
        }
    }
}

impl LoopOption {
    /// Whether the program should loop: only the exact text `"true"` asks for it.
    pub fn loops(&self) -> (r: bool)
        ensures
            r == (self.should_loop is Some && self.should_loop->0@ == "true"@),
    {
        match &self.should_loop {
            Some(s) => text_eq(s.as_str(), "true"),
            None => false,
        }
    }
}

/// The list entry for the action at `index`: its text and a control that deletes it.
pub open spec fn action_item(index: int, text: Seq<char>) -> Seq<char> {
    "<div class=\"pin-item\" hx-delete=\"/delete-action/"@ + int_text(index) + "\" hx-target=\"closest .pin-item\" hx-swap=\"outerHTML\"><span class=\"pin-number\">"@ + text + "</span><span class=\"pin-delete\">DELETE</span></div>"@
}

/// The list entries of a program, in order.
pub open spec fn action_list(actions: Seq<Action>) -> Seq<char>
    decreases actions.len(),
{
    if actions.len() == 0 {
        Seq::empty()
    } else {
        action_list(actions.drop_last()) + action_item(
            actions.len() - 1,
            action_text(actions.last()),
        )
    }
}

/// The list entry for the action at `index`, showing `text`.
pub fn render_action_item(index: i32, text: &str) -> (r: String)
    ensures
        r@ == action_item(index as int, text@),
{
    let mut s = String::from_str("<div class=\"pin-item\" hx-delete=\"/delete-action/");
    push_int(&mut s, index);
    push_str(
        &mut s,
        "\" hx-target=\"closest .pin-item\" hx-swap=\"outerHTML\"><span class=\"pin-number\">",
    );
    push_str(&mut s, text);
    push_str(&mut s, "</span><span class=\"pin-delete\">DELETE</span></div>");
    s
}

/// The list entries of a whole program, one per action, indexed from 0.
pub fn render_action_list(actions: &Vec<Action>) -> (r: String)
    requires
        actions@.len() <= i32::MAX,
    ensures
        r@ == action_list(actions@),
{
    let mut s = String::new();
    let mut k: usize = 0;
    while k < actions.len()
        invariant
            k <= actions@.len(),
            actions@.len() <= i32::MAX,
            s@ == action_list(actions@.subrange(0, k as int)),
        decreases actions@.len() - k,
    {
        let ghost next = actions@.subrange(0, k + 1);
        assert(next.drop_last() =~= actions@.subrange(0, k as int));
        let text = actions[k].display_text();
        let item = render_action_item(k as i32, text.as_str());
        push_str(&mut s, item.as_str());
        k = k + 1;
    }
    assert(actions@.subrange(0, actions@.len() as int) =~= actions@);
    s
}

/// The ordered action program.
pub struct ActionStore {
    pub actions: Vec<Action>,
}

impl ActionStore {
    /// An empty program.
    pub fn new() -> (r: Self)
        ensures
            r.actions@ == Seq::<Action>::empty(),
    {
        ActionStore { actions: Vec::new() }
    }

    /// A store holding `actions`, in order.
    pub fn from_actions(actions: Vec<Action>) -> (r: Self)
        ensures
            r.actions@ == actions@,
    {
        ActionStore { actions }
    }

    /// Number of actions in the program.
    pub fn len(&self) -> (r: usize)
        ensures
            r == self.actions@.len(),
    {
        self.actions.len()
    }

    /// Adds an action at the end and returns its index.
    pub fn append(&mut self, action: Action) -> (r: usize)
        requires
            old(self).actions@.len() < usize::MAX,
        ensures
            final(self).actions@ == old(self).actions@.push(action),
            r == old(self).actions@.len(),
    {
        self.actions.push(action);
        self.actions.len() - 1
    }

    /// Removes the action at `index`, shifting the later ones down, and returns it;
    /// an index past the end changes nothing.
    pub fn remove(&mut self, index: usize) -> (r: Option<Action>)
        ensures
            index < old(self).actions@.len() ==> r == Some(old(self).actions@[index as int])
                && final(self).actions@ == old(self).actions@.remove(index as int),
            index >= old(self).actions@.len() ==> r is None && final(self).actions@ == old(
                self,
            ).actions@,
    {
        if index < self.actions.len() {
            Some(self.actions.remove(index))
        } else {
            None
        }
    }

    /// An independent copy of the program.
    pub fn snapshot(&self) -> (r: Vec<Action>)
        ensures
            r@ == self.actions@,
    {
        let mut r: Vec<Action> = Vec::new();
        let mut k: usize = 0;
        while k < self.actions.len()
            invariant
                k <= self.actions@.len(),
                r@ == self.actions@.subrange(0, k as int),
            decreases self.actions@.len() - k,
        {
            r.push(self.actions[k]);
            k = k + 1;
            assert(r@ =~= self.actions@.subrange(0, k as int));
        }
        assert(r@ =~= self.actions@);
        r
    }
}

} // verus!
