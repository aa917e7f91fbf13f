use vstd::prelude::*;

verus! {

/// A direction in which the keyboard moves the camera.
#[derive(Clone, Copy, Debug, PartialEq, Eq, Structural)]
pub enum CameraMovement {
    Forward,
    Backward,
    Left,
    Right,
}

/// One of the two axes of the camera's own frame along which it is moved:
/// sideways along its right vector, or ahead along its front vector.
#[derive(Clone, Copy, Debug, PartialEq, Eq, Structural)]
pub enum Axis {
    Sideways,
    Ahead,
}

/// The motion along one axis, in units of the camera's movement speed: at
/// rest or at full speed, and with or against the axis. A camera at rest
/// keeps the sign of the key that was released last.
#[derive(Clone, Copy, Debug, PartialEq, Eq, Structural)]
pub struct AxisDrive {
    pub engaged: bool,
    pub reversed: bool,
}

/// The motion of the camera along both axes.
#[derive(Clone, Copy, Debug, PartialEq, Eq, Structural)]
pub struct Drive {
    pub sideways: AxisDrive,
    pub ahead: AxisDrive,
}

impl CameraMovement {
    /// Forward and backward act ahead, left and right act sideways.
    pub open spec fn spec_axis(self) -> Axis {
        match self {
            CameraMovement::Forward | CameraMovement::Backward => Axis::Ahead,
            CameraMovement::Left | CameraMovement::Right => Axis::Sideways,
        }
    }

    /// Backward and left run against their axis.
    pub open spec fn spec_reversed(self) -> bool {
        self is Backward || self is Left
    }

    /// The axis along which this direction moves the camera.
    pub fn axis(&self) -> (r: Axis)
        ensures
            r == self.spec_axis(),
    {
        match self {
            CameraMovement::Forward => Axis::Ahead,
            CameraMovement::Backward => Axis::Ahead,
            CameraMovement::Left => Axis::Sideways,
            CameraMovement::Right => Axis::Sideways,
        }
    }

    /// Whether this direction runs against its axis.
    pub fn reversed(&self) -> (r: bool)
        ensures
            r == self.spec_reversed(),
    {
        match self {
            CameraMovement::Forward => false,
            CameraMovement::Backward => true,
            CameraMovement::Left => true,
            CameraMovement::Right => false,
        }
    }
}

impl AxisDrive {
    /// The motion as a whole number of movement speeds: -1, 0 or 1.
    pub open spec fn spec_factor(self) -> int {
        if !self.engaged {
            0
        } else if self.reversed {
            -1
        } else {
            1
        }
    }

    /// The motion as a whole number of movement speeds.
    pub fn factor(&self) -> (r: i8)
        ensures
            r == self.spec_factor(),
    {
        if !self.engaged {
            0
        } else if self.reversed {
            -1
        } else {
            1
        }
    }
}

impl Drive {
    /// What a key event makes of a drive: the axis of the direction takes
    /// the state of the key and the sign of the direction, the other axis
    /// stays as it is.
    pub open spec fn after(self, direction: CameraMovement, pressed: bool) -> Drive {
        let set = AxisDrive { engaged: pressed, reversed: direction.spec_reversed() };
        match direction.spec_axis() {
            Axis::Ahead => Drive { sideways: self.sideways, ahead: set },
            Axis::Sideways => Drive { sideways: set, ahead: self.ahead },
        }
    }

    /// A camera at rest.
    pub fn new() -> (r: Drive)
        ensures
            !r.sideways.engaged,
            !r.sideways.reversed,
            !r.ahead.engaged,
            !r.ahead.reversed,
    {
        let rest = AxisDrive { engaged: false, reversed: false };
        Drive { sideways: rest, ahead: rest }
    }

    /// Takes a key event: a pressed key sets its axis in motion, a released
    /// key brings that axis to rest, whatever moved it before.
    pub fn process_keyboard(&mut self, direction: CameraMovement, pressed: bool)
        ensures
            *final(self) == old(self).after(direction, pressed),
    {
        let set = AxisDrive { engaged: pressed, reversed: direction.reversed() };
        match direction.axis() {
            Axis::Ahead => {
                self.ahead = set;
            },
            Axis::Sideways => {
                self.sideways = set;
            },
        }
    }

    /// The camera moves along neither axis.
    pub open spec fn spec_at_rest(self) -> bool {
        !self.sideways.engaged && !self.ahead.engaged
    }

    /// Whether the camera moves along neither axis.
    pub fn at_rest(&self) -> (r: bool)
        ensures
            r == self.spec_at_rest(),
    {
        !self.sideways.engaged && !self.ahead.engaged
    }
}

/// A key event leaves the other axis alone, and releasing a key brings its
/// axis to rest whichever direction of that axis was pressed before.
pub proof fn lemma_key_acts_on_its_axis(drive: Drive, direction: CameraMovement, pressed: bool)
    ensures
        direction.spec_axis() == Axis::Ahead ==> drive.after(direction, pressed).sideways
            == drive.sideways,
        direction.spec_axis() == Axis::Sideways ==> drive.after(direction, pressed).ahead
            == drive.ahead,
        direction.spec_axis() == Axis::Ahead ==> drive.after(direction, pressed).ahead.spec_factor()
            == (if !pressed {
            0int
        } else if direction.spec_reversed() {
            -1int
        } else {
            1int
        }),
        direction.spec_axis() == Axis::Sideways ==> drive.after(
            direction,
            pressed,
        ).sideways.spec_factor() == (if !pressed {
            0int
        } else if direction.spec_reversed() {
            -1int
        } else {
            1int
        }),
{
}

} // verus!
