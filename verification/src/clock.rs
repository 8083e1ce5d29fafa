//! A handle on the system clock that keeps every reading taken through it.
//! A reading can only come from the clock itself, so what the record says
//! was read is what the clock gave.

use vstd::prelude::*;

use crate::system::{clock_since_epoch, reading_nanos, ClockReading};

verus! {

/// The time a reading stands for, in nanoseconds from the Unix epoch, or the
/// epoch itself (0) when the reading does not fit in an `i64`.
pub open spec fn reading_timestamp(reading: Result<(u64, u32), (u64, u32)>) -> i64 {
    match reading_nanos(reading) {
        Some(t) => t,
        None => 0,
    }
}

/// The system clock, with the readings taken through this handle in order.
pub struct SystemClock {
    readings: Ghost<Seq<ClockReading>>,
}

impl SystemClock {
    /// The readings taken through this handle, in order.
    pub closed spec fn readings(&self) -> Seq<Result<(u64, u32), (u64, u32)>> {
        self.readings@.map_values(|r: ClockReading| r.since_epoch())
    }

    /// A handle through which the clock has not been read yet.
    pub fn new() -> (res: Self)
        ensures
            res.readings() == Seq::<Result<(u64, u32), (u64, u32)>>::empty(),
    {
        let res = SystemClock { readings: Ghost(Seq::empty()) };
        assert(res.readings() =~= Seq::<Result<(u64, u32), (u64, u32)>>::empty());
        res
    }

    /// Reads the clock once. The reading is recorded, and the result is its
    /// nanoseconds from the Unix epoch when they fit in an `i64`.
    pub fn now(&mut self) -> (res: Option<i64>)
        ensures
            final(self).readings().len() == old(self).readings().len() + 1,
            final(self).readings().drop_last() == old(self).readings(),
            res == reading_nanos(final(self).readings().last()),
    {
        let reading = clock_since_epoch();
        self.readings = Ghost(self.readings@.push(reading));
        assert(self.readings() =~= old(self).readings().push(reading.since_epoch()));
        reading.nanos()
    }
}

} // verus!
