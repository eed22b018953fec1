//! The player controls held during a frame.
use vstd::prelude::*;
use crate::json::{bool_text, push_bool};

verus! {

broadcast use vstd::string::group_string_axioms;

/// Buttons held by player one, plus the cabinet's start, coin and service
/// buttons.
#[derive(Clone, Copy, Debug, Default, PartialEq, Eq, Structural)]
pub struct ActionButtons {
    pub up: bool,
    pub down: bool,
    pub left: bool,
    pub right: bool,
    pub punch: bool,
    pub kick: bool,
    pub beast: bool,
    pub guard: bool,
    pub start: bool,
    pub coin: bool,
    pub service: bool,
}

impl ActionButtons {
    pub open spec fn default_spec() -> Self {
        ActionButtons {
            up: false,
            down: false,
            left: false,
            right: false,
            punch: false,
            kick: false,
            beast: false,
            guard: false,
            start: false,
            coin: false,
            service: false,
        }
    }

    /// No button held.
    pub fn none() -> (r: Self)
        ensures
            r == Self::default_spec(),
    {
        ActionButtons {
            up: false,
            down: false,
            left: false,
            right: false,
            punch: false,
            kick: false,
            beast: false,
            guard: false,
            start: false,
            coin: false,
            service: false,
        }
    }

    pub open spec fn spec_any_input(self) -> bool {
        self.start || self.coin || self.service || self.up || self.down || self.left || self.right
            || self.punch || self.kick || self.beast || self.guard
    }

    pub open spec fn spec_json(self) -> Seq<char> {
        "{\"up\":"@ + bool_text(self.up) + ",\"down\":"@ + bool_text(self.down) + ",\"left\":"@
            + bool_text(self.left) + ",\"right\":"@ + bool_text(self.right) + ",\"punch\":"@
            + bool_text(self.punch) + ",\"kick\":"@ + bool_text(self.kick) + ",\"beast\":"@
            + bool_text(self.beast) + ",\"guard\":"@ + bool_text(self.guard) + ",\"start\":"@
            + bool_text(self.start) + ",\"coin\":"@ + bool_text(self.coin) + ",\"service\":"@
            + bool_text(self.service) + "}"@
    }

    /// The held buttons as a JSON object.
    pub fn json(self) -> (r: String)
        ensures
            r@ == self.spec_json(),
    {
        let mut out = String::from_str("{\"up\":");
        push_bool(&mut out, self.up);
        out.append(",\"down\":");
        push_bool(&mut out, self.down);
        out.append(",\"left\":");
        push_bool(&mut out, self.left);
        out.append(",\"right\":");
        push_bool(&mut out, self.right);
        out.append(",\"punch\":");
        push_bool(&mut out, self.punch);
        out.append(",\"kick\":");
        push_bool(&mut out, self.kick);
        out.append(",\"beast\":");
        push_bool(&mut out, self.beast);
        out.append(",\"guard\":");
        push_bool(&mut out, self.guard);
        out.append(",\"start\":");
        push_bool(&mut out, self.start);
        out.append(",\"coin\":");
        push_bool(&mut out, self.coin);
        out.append(",\"service\":");
        push_bool(&mut out, self.service);
        out.append("}");
        out
    }
}

/// Whether any button at all is held.
pub fn action_buttons_have_any_input(buttons: ActionButtons) -> (r: bool)
    ensures
        r == buttons.spec_any_input(),
{
    buttons.start || buttons.coin || buttons.service || buttons.up || buttons.down || buttons.left
        || buttons.right || buttons.punch || buttons.kick || buttons.beast || buttons.guard
}

/// Any one held button, whichever it is, counts as input; with no button
/// held there is none.
pub proof fn law_any_input(b: ActionButtons)
    ensures
        b.up || b.down || b.left || b.right || b.punch || b.kick || b.beast || b.guard || b.start
            || b.coin || b.service ==> b.spec_any_input(),
        b == ActionButtons::default_spec() ==> !b.spec_any_input(),
        !b.spec_any_input() ==> b == ActionButtons::default_spec(),
{
}

} // verus!
