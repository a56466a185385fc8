use vstd::prelude::*;

verus! {

/// Whether the button was pressed since it was last asked.
#[derive(Debug, Copy, Clone, PartialEq, Eq, Structural)]
pub enum ButtonState {
    Pressed,
    Released,
}

impl ButtonState {
    /// A button starts released.
    pub fn default() -> (s: ButtonState)
        ensures
            s == ButtonState::Released,
    {
        ButtonState::Released
    }

    /// Records a press.
    pub fn press(&mut self)
        ensures
            *final(self) == ButtonState::Pressed,
    {
        *self = ButtonState::Pressed;
    }

    /// Tells whether a press was recorded, and forgets it.
    pub fn was_pressed(&mut self) -> (pressed: bool)
        ensures
            (pressed, *final(self)) == ask(*old(self)),
    {
        let res = match self {
            ButtonState::Pressed => true,
            ButtonState::Released => false,
        };
        *self = ButtonState::Released;
        res
    }
}

/// Model of asking the button: the answer and the state left behind.
pub open spec fn ask(s: ButtonState) -> (bool, ButtonState) {
    (s == ButtonState::Pressed, ButtonState::Released)
}

/// A recorded press is reported exactly once: asking after a press answers yes, and asking
/// again without a new press answers no.
pub proof fn lemma_press_reported_once(s: ButtonState)
    ensures
        ask(ButtonState::Pressed).0,
        !ask(ask(s).1).0,
{
}

} // verus!
