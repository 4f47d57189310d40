//! The shared state record: one snapshot of every fact the bar shows.

use vstd::prelude::*;

verus! {

/// Battery state with its charge percentage.
#[derive(Clone, Copy, Debug, PartialEq, Eq, Structural)]
pub enum Power {
    Charging(u32),
    Discharging(u32),
}

impl Power {
    /// The charge percentage, whichever way the current flows.
    pub open spec fn percent(self) -> u32 {
        match self {
            Power::Charging(p) => p,
            Power::Discharging(p) => p,
        }
    }

    /// A percentage lies between 0 and 100.
    pub open spec fn is_valid(self) -> bool {
        self.percent() <= 100
    }
}

/// The facts the bar shows: the focused window's title, the power state
/// and the formatted local time.
pub struct State {
    pub title: String,
    pub power: Power,
    pub datetime: String,
}

impl State {
    pub open spec fn wf(&self) -> bool {
        self.power.is_valid()
    }

    /// The record as the agent starts with it: no title, no charge, and the
    /// given clock text.
    pub fn new(datetime: String) -> (r: State)
        ensures
            r.wf(),
            r.title@ == Seq::<char>::empty(),
            r.power == Power::Discharging(0),
            r.datetime@ == datetime@,
    {
        State { title: String::new(), power: Power::Discharging(0), datetime }
    }

    /// Replaces the focused window's title; the other fields stay.
    pub fn set_title(&mut self, title: String)
        ensures
            final(self).title@ == title@,
            final(self).power == old(self).power,
            final(self).datetime@ == old(self).datetime@,
    {
        self.title = title;
    }

    /// Replaces the power state; the other fields stay.
    pub fn set_power(&mut self, power: Power)
        requires
            power.is_valid(),
        ensures
            final(self).wf(),
            final(self).power == power,
            final(self).title@ == old(self).title@,
            final(self).datetime@ == old(self).datetime@,
    {
        self.power = power;
    }

    /// Replaces the clock text; the other fields stay.
    pub fn set_clock_text(&mut self, text: String)
        ensures
            final(self).datetime@ == text@,
            final(self).title@ == old(self).title@,
            final(self).power == old(self).power,
    {
        self.datetime = text;
    }

    /// An owned copy of every field.
    pub fn snapshot(&self) -> (r: State)
        ensures
            r.title@ == self.title@,
            r.power == self.power,
            r.datetime@ == self.datetime@,
    {
        State { title: self.title.clone(), power: self.power, datetime: self.datetime.clone() }
    }
}

} // verus!
