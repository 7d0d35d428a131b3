use vstd::prelude::*;

use crate::gpio::{
    RegEvent, RegisterWindow, GPIO_CLR_OFFSET, GPIO_LEV_OFFSET, GPIO_SET_OFFSET, WINDOW_WORDS,
};

verus! {

/// A register window held in memory that logs every access, for exercising the driver
/// without hardware. Writes to Set and Clear raise and lower the matching Level bits.
pub struct RecordingWindow {
    pub words: Vec<u32>,
    pub events: Vec<RegEvent>,
}

impl RecordingWindow {
    /// A zeroed page with an empty log.
    pub fn new() -> (r: Self)
        ensures
            r.words@.len() == WINDOW_WORDS,
            forall|k: int| 0 <= k < WINDOW_WORDS ==> #[trigger] r.words@[k] == 0,
            r.events@.len() == 0,
    {
        let mut words: Vec<u32> = Vec::new();
        let mut k: usize = 0;
        while k < WINDOW_WORDS
            invariant
                k <= WINDOW_WORDS,
                words@.len() == k,
                forall|j: int| 0 <= j < k ==> #[trigger] words@[j] == 0,
            decreases WINDOW_WORDS - k,
        {
            words.push(0);
            k = k + 1;
        }
        RecordingWindow { words, events: Vec::new() }
    }

    fn word(&self, offset: usize) -> (r: u32)
        ensures
            r == if offset < self.words@.len() { self.words@[offset as int] } else { 0 },
    {
        if offset < self.words.len() {
            self.words[offset]
        } else {
            0
        }
    }

    fn store(&mut self, offset: usize, value: u32)
        ensures
            final(self).events == old(self).events,
            final(self).words@ == if offset < old(self).words@.len() {
                old(self).words@.update(offset as int, value)
            } else {
                old(self).words@
            },
    {
        if offset < self.words.len() {
            self.words.set(offset, value);
        }
    }

    /// The writes in the log, in order, as (offset, value) pairs.
    pub fn writes(&self) -> (r: Vec<(usize, u32)>)
        ensures
            r@ == write_pairs(self.events@),
    {
        let mut r: Vec<(usize, u32)> = Vec::new();
        let mut k: usize = 0;
        while k < self.events.len()
            invariant
                k <= self.events@.len(),
                r@ == write_pairs(self.events@.subrange(0, k as int)),
            decreases self.events@.len() - k,
        {
            let ghost next = self.events@.subrange(0, k + 1);
            assert(next.drop_last() =~= self.events@.subrange(0, k as int));
            assert(next.last() == self.events@[k as int]);
            match self.events[k] {
                RegEvent::Write { offset, value } => r.push((offset, value)),
                _ => {},
            }
            k = k + 1;
        }
        assert(self.events@.subrange(0, self.events@.len() as int) =~= self.events@);
        r
    }
}

/// The (offset, value) pairs of the writes in an event sequence, in order.
pub open spec fn write_pairs(events: Seq<RegEvent>) -> Seq<(usize, u32)>
    decreases events.len(),
{
    if events.len() == 0 {
        Seq::empty()
    } else {
        let rest = write_pairs(events.drop_last());
        match events.last() {
            RegEvent::Write { offset, value } => rest.push((offset, value)),
            _ => rest,
        }
    }
}

impl RegisterWindow for RecordingWindow {
    fn acquire() -> Option<Self> {
        Some(RecordingWindow::new())
    }

    fn read(&mut self, offset: usize) -> u32 {
        let v = self.word(offset);
        self.events.push(RegEvent::Read { offset, value: v });
        v
    }

    fn write(&mut self, offset: usize, value: u32) {
        self.events.push(RegEvent::Write { offset, value });
        if offset == GPIO_SET_OFFSET {
            let lev = self.word(GPIO_LEV_OFFSET);
            self.store(GPIO_LEV_OFFSET, lev | value);
        } else if offset == GPIO_CLR_OFFSET {
            let lev = self.word(GPIO_LEV_OFFSET);
            self.store(GPIO_LEV_OFFSET, lev & !value);
        }
        self.store(offset, value);
    }

    fn pause_micros(&mut self, micros: u64) {
        self.events.push(RegEvent::Pause { micros });
    }
}

} // verus!
