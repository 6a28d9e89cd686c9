//! Sample capsule of the SOSP course: it greets the world.
use vstd::prelude::*;

verus! {

/// The course capsule: an alarm and an ambient light sensor.
pub struct Sosp<'a, A, L> {
    alarm: &'a A,
    light: &'a L,
}

impl<'a, A, L> Sosp<'a, A, L> {
    pub closed spec fn alarm_value(&self) -> &'a A {
        self.alarm
    }

    pub closed spec fn light_value(&self) -> &'a L {
        self.light
    }

    pub fn new(alarm: &'a A, light: &'a L) -> (r: Sosp<'a, A, L>)
        ensures
            r.alarm_value() == alarm,
            r.light_value() == light,
    {
        Sosp { alarm, light }
    }

    /// Starts the capsule: the line it writes to the debug output.
    pub fn start(&self) -> (r: &'static str)
        ensures
            r@ == "Hello World"@,
    {
        "Hello World"
    }
}

} // verus!
