//! A digital joystick: two axes with three positions each and one button.

use vstd::prelude::*;

verus! {

/// Where an axis stands.
#[derive(Clone, Copy, Debug, PartialEq, Eq, Structural)]
pub enum AxisMotion {
    Negative,
    Neutral,
    Positive,
}

/// What a joystick holds.
pub struct JoystickView {
    pub x_axis: AxisMotion,
    pub y_axis: AxisMotion,
    pub button: bool,
}

impl JoystickView {
    pub open spec fn up(self) -> bool {
        self.y_axis == AxisMotion::Positive
    }

    pub open spec fn down(self) -> bool {
        self.y_axis == AxisMotion::Negative
    }

    pub open spec fn left(self) -> bool {
        self.x_axis == AxisMotion::Negative
    }

    pub open spec fn right(self) -> bool {
        self.x_axis == AxisMotion::Positive
    }
}

pub struct Joystick {
    x_axis: AxisMotion,
    y_axis: AxisMotion,
    button: bool,
}

impl View for Joystick {
    type V = JoystickView;

    closed spec fn view(&self) -> JoystickView {
        JoystickView { x_axis: self.x_axis, y_axis: self.y_axis, button: self.button }
    }
}

impl Joystick {
    /// A joystick at rest.
    pub fn new() -> (joystick: Joystick)
        ensures
            joystick@ == (JoystickView {
                x_axis: AxisMotion::Neutral,
                y_axis: AxisMotion::Neutral,
                button: false,
            }),
    {
        Joystick { x_axis: AxisMotion::Neutral, y_axis: AxisMotion::Neutral, button: false }
    }

    pub fn get_button(&self) -> (r: bool)
        ensures
            r == self@.button,
    {
        self.button
    }

    pub fn get_x_axis(&self) -> (r: AxisMotion)
        ensures
            r == self@.x_axis,
    {
        self.x_axis
    }

    pub fn get_y_axis(&self) -> (r: AxisMotion)
        ensures
            r == self@.y_axis,
    {
        self.y_axis
    }

    pub fn set_button(&mut self, button: bool)
        ensures
            final(self)@ == (JoystickView { button, ..old(self)@ }),
    {
        self.button = button;
    }

    pub fn set_x_axis(&mut self, x_axis: AxisMotion)
        ensures
            final(self)@ == (JoystickView { x_axis, ..old(self)@ }),
    {
        self.x_axis = x_axis;
    }

    pub fn set_y_axis(&mut self, y_axis: AxisMotion)
        ensures
            final(self)@ == (JoystickView { y_axis, ..old(self)@ }),
    {
        self.y_axis = y_axis;
    }

    /// Lets go of the stick and the button.
    pub fn reset(&mut self)
        ensures
            final(self)@ == (JoystickView {
                x_axis: AxisMotion::Neutral,
                y_axis: AxisMotion::Neutral,
                button: false,
            }),
    {
        self.x_axis = AxisMotion::Neutral;
        self.y_axis = AxisMotion::Neutral;
        self.button = false;
    }
}

} // verus!
