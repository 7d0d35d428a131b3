use vstd::prelude::*;
use vstd::string::StringExecFns;

use crate::errors::GpioError;
use crate::gpio::{check_pin, Gpio, RegisterWindow};
use crate::pins::{Pin, PinLevel, PinType};
use crate::text::{int_text, push_int, push_str};

verus! {

pub open spec fn level_word(l: PinLevel) -> Seq<char> {
    match l {
        PinLevel::High => "high"@,
        PinLevel::Low => "low"@,
    }
}

pub open spec fn checked_word(l: PinLevel) -> Seq<char> {
    match l {
        PinLevel::High => "checked"@,
        PinLevel::Low => ""@,
    }
}

/// Power and ground slots cannot be driven.
pub open spec fn is_controllable(t: PinType) -> bool {
    !(t is Power5v || t is Power3v3 || t is Gnd)
}

pub open spec fn role_class(t: PinType) -> Seq<char> {
    match t {
        PinType::Power5v | PinType::Power3v3 => "power"@,
        PinType::Gnd => "ground"@,
        _ => "gpio"@,
    }
}

/// The HTML of one header slot: a toggle switch for a numbered controllable pin,
/// a disabled marker otherwise.
pub open spec fn pin_html(p: Pin) -> Seq<char> {
    if is_controllable(p.pin_type) && p.number is Some {
        let n = int_text(p.number->0 as int);
        "<div id=\"gpio-pin-"@ + n
            + "\" class=\"pin-wrapper\"><label class=\"toggle-switch\"><input type=\"checkbox\" "@
            + checked_word(p.level) + " id=\"checkbox-"@ + n
            + "\" class=\"pin-checkbox\" ws-send hx-trigger=\"change\" hx-vals='{\"pin\": \""@ + n
            + "\"}'><span class=\"pin gpio "@ + level_word(p.level) + "\">"@ + p.label@
            + "</span></label></div>"@
    } else {
        "<div class=\"pin-wrapper\"><span class=\"pin "@ + role_class(p.pin_type) + "\" disabled>"@
            + p.label@ + "</span></div>"@
    }
}

/// One header row: the left slot, then the right slot.
pub open spec fn row_html(left: Pin, right: Pin) -> Seq<char> {
    "<div class=\"gpio-row\">"@ + pin_html(left) + pin_html(right) + "</div>"@
}

/// The first `n` rows of the header; row `k` pairs slot `k` with slot `k + 20`.
pub open spec fn rows_html(pins: Seq<Pin>, n: nat) -> Seq<char>
    decreases n,
{
    if n == 0 {
        Seq::empty()
    } else {
        rows_html(pins, (n - 1) as nat) + row_html(pins[n - 1], pins[n - 1 + 20])
    }
}

/// The whole header layout.
pub open spec fn layout_html(pins: Seq<Pin>) -> Seq<char> {
    "<div class=\"gpio-layout\">"@ + rows_html(pins, 20) + "</div>"@
}

/// The HTML of one header slot.
pub fn render_pin(pin: &Pin) -> (r: String)
    ensures
        r@ == pin_html(*pin),
{
    let controllable = match pin.pin_type {
        PinType::Power5v | PinType::Power3v3 | PinType::Gnd => false,
        _ => true,
    };
    match pin.number {
        Some(n) if controllable => {
            let mut s = String::from_str("<div id=\"gpio-pin-");
            push_int(&mut s, n);
            push_str(
                &mut s,
                "\" class=\"pin-wrapper\"><label class=\"toggle-switch\"><input type=\"checkbox\" ",
            );
            match pin.level {
                PinLevel::High => push_str(&mut s, "checked"),
                PinLevel::Low => push_str(&mut s, ""),
            }
            push_str(&mut s, " id=\"checkbox-");
            push_int(&mut s, n);
            push_str(
                &mut s,
                "\" class=\"pin-checkbox\" ws-send hx-trigger=\"change\" hx-vals='{\"pin\": \"",
            );
            push_int(&mut s, n);
            push_str(&mut s, "\"}'><span class=\"pin gpio ");
            match pin.level {
                PinLevel::High => push_str(&mut s, "high"),
                PinLevel::Low => push_str(&mut s, "low"),
            }
            push_str(&mut s, "\">");
            push_str(&mut s, pin.label.as_str());
            push_str(&mut s, "</span></label></div>");
            s
        },
        _ => {
            let mut s = String::from_str("<div class=\"pin-wrapper\"><span class=\"pin ");
            match pin.pin_type {
                PinType::Power5v | PinType::Power3v3 => push_str(&mut s, "power"),
                PinType::Gnd => push_str(&mut s, "ground"),
                _ => push_str(&mut s, "gpio"),
            }
            push_str(&mut s, "\" disabled>");
            push_str(&mut s, pin.label.as_str());
            push_str(&mut s, "</span></div>");
            s
        },
    }
}

impl<W: RegisterWindow> Gpio<W> {
    /// The header layout as HTML: twenty rows, each the left slot then the right slot,
    /// showing each pin's recorded level.
    pub fn get_html_pins(&self) -> (r: Result<String, GpioError>)
        requires
            self.wf(),
        ensures
            r is Ok && r->Ok_0@ == layout_html(self.pins@),
    {
        let mut s = String::from_str("<div class=\"gpio-layout\">");
        let mut row: usize = 0;
        while row < 20
            invariant
                self.wf(),
                row <= 20,
                s@ == "<div class=\"gpio-layout\">"@ + rows_html(self.pins@, row as nat),
            decreases 20 - row,
        {
            let ghost before = s@;
            push_str(&mut s, "<div class=\"gpio-row\">");
            let left = render_pin(&self.pins[row]);
            push_str(&mut s, left.as_str());
            let right = render_pin(&self.pins[row + 20]);
            push_str(&mut s, right.as_str());
            push_str(&mut s, "</div>");
            row = row + 1;
            assert(s@ =~= "<div class=\"gpio-layout\">"@ + rows_html(self.pins@, row as nat));
        }
        push_str(&mut s, "</div>");
        Ok(s)
    }

    /// The HTML of the slot of GPIO number `pin`, as the front end replaces it after
    /// a toggle.
    pub fn update_pin(&self, pin: i32) -> (r: Result<String, GpioError>)
        requires
            self.wf(),
        ensures
            match check_pin(self.initialized, pin) {
                Some(e) => r == Err::<String, GpioError>(e),
                None => r is Ok && r->Ok_0@ == pin_html(self.pin_entry(pin)),
            },
    {
        match self.validate_input(pin) {
            Err(e) => {
                return Err(e);
            },
            Ok(_) => {},
        }
        let slot = self.find_slot(pin);
        Ok(render_pin(&self.pins[slot]))
    }
}

} // verus!
