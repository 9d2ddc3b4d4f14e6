//! Going round the months of the year and the days of the week without
//! end.

use vstd::prelude::*;

use crate::date::{Day, Month};

verus! {

/// The months from a given one on, January after December, without end.
#[derive(Clone, Copy, Debug, PartialEq, Eq)]
pub struct Months(pub Month);

/// The days of the week from a given one on, Sunday after Saturday,
/// without end.
#[derive(Clone, Copy, Debug, PartialEq, Eq)]
pub struct Weekdays(pub Day);

impl Months {
    /// The month held, which is then followed by the next.
    pub fn next(&mut self) -> (item: Option<Month>)
        ensures
            item == Some(old(self).0),
            final(self).0 == old(self).0.spec_next(),
    {
        let this = self.0;
        self.0 = self.0.next();
        Some(this)
    }
}

impl Weekdays {
    /// The day held, which is then followed by the next.
    pub fn next(&mut self) -> (item: Option<Day>)
        ensures
            item == Some(old(self).0),
            final(self).0 == old(self).0.spec_offset(1),
    {
        let this = self.0;
        self.0 = self.0.next();
        Some(this)
    }
}

} // verus!
