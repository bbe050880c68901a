//! ## [21.4 Date Objects](https://tc39.es/ecma262/#sec-date-objects)
//!
//! A Date holds its time value: milliseconds since the epoch, or NaN for an
//! invalid date. The time value is kept as an `i64`, with `i64::MAX`
//! standing for NaN.

use vstd::prelude::*;

verus! {

/// ### [21.4.1.1 Time Values and Time Range](https://tc39.es/ecma262/#sec-time-values-and-time-range)
///
/// A time value: an integer number of milliseconds, or NaN (`i64::MAX`).
#[derive(Debug, Clone, Copy, PartialEq, Eq, Structural)]
pub struct DateValue(pub i64);

impl DateValue {
    /// The invalid time value.
    pub fn nan() -> (r: Self)
        ensures
            r.0 == i64::MAX,
    {
        DateValue(i64::MAX)
    }

    /// The time value in milliseconds; `None` for NaN.
    pub fn get_i64(self) -> (r: Option<i64>)
        ensures
            self.0 == i64::MAX ==> r is None,
            self.0 != i64::MAX ==> r == Some(self.0),
    {
        if self.0 == i64::MAX {
            None
        } else {
            Some(self.0)
        }
    }

    /// The time value of a clock reading: `millis_since_epoch` is the
    /// number of milliseconds since the Unix epoch that the system clock
    /// gave, taken as an `i64` (truncated as the `as` conversion does).
    pub fn now(millis_since_epoch: u128) -> (r: Self)
        ensures
            r.0 == millis_since_epoch as i64,
    {
        DateValue(millis_since_epoch as i64)
    }
}

/// The heap data of a Date.
#[derive(Debug, Clone, Copy, PartialEq, Eq, Structural)]
pub struct DateHeapData {
    pub object_index: Option<u32>,
    pub date: DateValue,
}

impl DateHeapData {
    /// A Date with the invalid time value and no backing object.
    pub fn new_invalid() -> (r: Self)
        ensures
            r.object_index is None,
            r.date.0 == i64::MAX,
    {
        DateHeapData { object_index: None, date: DateValue::nan() }
    }
}

/// The arena of all Dates.
pub struct DateHeap {
    pub dates: Vec<DateHeapData>,
}

/// A handle to a Date.
#[derive(Debug, Clone, Copy, PartialEq, Eq, Structural)]
pub struct Date(pub u32);

impl DateHeap {
    pub open spec fn contains(&self, d: Date) -> bool {
        d.0 < self.dates@.len()
    }

    pub open spec fn data(&self, d: Date) -> DateHeapData {
        self.dates@[d.0 as int]
    }

    pub fn new() -> (r: Self)
        ensures
            r.dates@.len() == 0,
    {
        DateHeap { dates: Vec::new() }
    }

    /// Adds a Date.
    pub fn create(&mut self, data: DateHeapData) -> (r: Date)
        requires
            old(self).dates@.len() < u32::MAX,
        ensures
            r.0 == old(self).dates@.len(),
            final(self).dates@ == old(self).dates@.push(data),
    {
        let index = self.dates.len() as u32;
        self.dates.push(data);
        Date(index)
    }
}

impl Date {
    /// get \[\[DateValue]]
    pub fn date_value(self, heap: &DateHeap) -> (r: DateValue)
        requires
            heap.contains(self),
        ensures
            r == heap.data(self).date,
    {
        heap.dates[self.0 as usize].date
    }

    /// set \[\[DateValue]]
    pub fn set_date_value(self, heap: &mut DateHeap, date: DateValue)
        requires
            old(heap).contains(self),
        ensures
            final(heap).dates@ == old(heap).dates@.update(self.0 as int, DateHeapData { date, ..old(heap).data(self) }),
    {
        let i = self.0 as usize;
        let mut data = heap.dates[i];
        data.date = date;
        heap.dates.set(i, data);
    }

    pub fn get_backing_object(self, heap: &DateHeap) -> (r: Option<u32>)
        requires
            heap.contains(self),
        ensures
            r == heap.data(self).object_index,
    {
        heap.dates[self.0 as usize].object_index
    }

    /// Gives the Date a backing object; it must have none yet.
    pub fn set_backing_object(self, heap: &mut DateHeap, backing_object: u32)
        requires
            old(heap).contains(self),
            old(heap).data(self).object_index is None,
        ensures
            final(heap).dates@ == old(heap).dates@.update(self.0 as int, DateHeapData {
                object_index: Some(backing_object),
                ..old(heap).data(self)
            }),
    {
        let i = self.0 as usize;
        let mut data = heap.dates[i];
        data.object_index = Some(backing_object);
        heap.dates.set(i, data);
    }
}

/// A time value set on a Date is what reading it gives, and no other Date
/// changes.
pub proof fn lemma_date_value_roundtrip(before: &DateHeap, after: &DateHeap, d: Date, date: DateValue, other: Date)
    requires
        before.contains(d),
        after.dates@ == before.dates@.update(d.0 as int, DateHeapData { date, ..before.data(d) }),
    ensures
        after.data(d).date == date,
        after.data(d).object_index == before.data(d).object_index,
        before.contains(other) && other != d ==> after.data(other) == before.data(other),
{
}

} // verus!
