use vstd::prelude::*;

verus! {

/// A frog that spends one unit of energy per hop and falls asleep when it has none left.
#[derive(Debug)]
pub struct Frog {
    energy: u8,
    sleeping: bool,
}

impl Frog {
    /// Energy left.
    pub closed spec fn energy_spec(&self) -> nat {
        self.energy as nat
    }

    /// Whether the frog is asleep.
    pub closed spec fn sleeping_spec(&self) -> bool {
        self.sleeping
    }

    /// A rested frog: five units of energy, awake.
    pub fn new() -> (r: Frog)
        ensures
            r.energy_spec() == 5,
            !r.sleeping_spec(),
    {
        Frog::default()
    }

    /// Spends one unit of energy; with none left, the frog goes to sleep.
    pub fn hop(&mut self)
        requires
            old(self).energy_spec() > 0,
        ensures
            final(self).energy_spec() == old(self).energy_spec() - 1,
            final(self).sleeping_spec() == (old(self).sleeping_spec() || final(self).energy_spec() == 0),
    {
        self.energy = self.energy - 1;
        if self.energy == 0 {
            self.sleep();
        }
    }

    /// Puts the frog to sleep; a frog that already sleeps stays asleep.
    pub fn sleep(&mut self)
        ensures
            final(self).energy_spec() == old(self).energy_spec(),
            final(self).sleeping_spec(),
    {
        if !self.sleeping {
            self.sleeping = true;
        }
    }

    /// Energy left.
    pub fn energy(&self) -> (r: u8)
        ensures
            r as nat == self.energy_spec(),
    {
        self.energy
    }

    /// Whether the frog is asleep.
    pub fn is_sleeping(&self) -> (r: bool)
        ensures
            r == self.sleeping_spec(),
    {
        self.sleeping
    }
}

impl Default for Frog {
    fn default() -> (r: Frog)
        ensures
            r.energy_spec() == 5,
            !r.sleeping_spec(),
    {
        Frog { energy: 5, sleeping: false }
    }
}

} // verus!
