use vstd::prelude::*;

use crate::timepoint::Timepoint;

verus! {

/// A waker that is due once the shared clock reaches `timeout`. `key` tells the entry
/// apart from every other entry of its queue.
#[derive(Debug)]
pub struct TimedWaker<W> {
    pub timeout: Timepoint,
    pub key: u64,
    pub waker: W,
}

/// Whether the entries come in order of their timeouts.
pub open spec fn sorted_by_timeout<W>(s: Seq<TimedWaker<W>>) -> bool {
    forall|i: int, j: int| 0 <= i <= j < s.len() ==> s[i].timeout@ <= s[j].timeout@
}

/// Whether no two entries share a key.
pub open spec fn keys_distinct<W>(s: Seq<TimedWaker<W>>) -> bool {
    forall|i: int, j: int| 0 <= i < j < s.len() ==> s[i].key != s[j].key
}

/// Whether entries with equal timeouts come in increasing order of their keys, that
/// is, in the order in which they were registered.
pub open spec fn ties_in_key_order<W>(s: Seq<TimedWaker<W>>) -> bool {
    forall|i: int, j: int|
        0 <= i < j < s.len() && s[i].timeout@ == s[j].timeout@ ==> s[i].key < s[j].key
}

/// Whether some entry has the key.
pub open spec fn has_key<W>(s: Seq<TimedWaker<W>>, key: u64) -> bool {
    exists|i: int| 0 <= i < s.len() && s[i].key == key
}

/// The wakers of timed waits, in order of their timeouts; entries with equal timeouts
/// keep the order in which they came.
pub struct WakerQueue<W> {
    entries: Vec<TimedWaker<W>>,
}

impl<W> WakerQueue<W> {
    pub closed spec fn view(&self) -> Seq<TimedWaker<W>> {
        self.entries@
    }

    pub open spec fn wf(&self) -> bool {
        sorted_by_timeout(self@) && keys_distinct(self@) && ties_in_key_order(self@)
    }

    pub fn new() -> (r: WakerQueue<W>)
        ensures
            r@ == Seq::<TimedWaker<W>>::empty(),
            r.wf(),
    {
        WakerQueue { entries: Vec::new() }
    }

    pub fn len(&self) -> (r: usize)
        ensures
            r == self@.len(),
    {
        self.entries.len()
    }

    /// Adds an entry behind every entry whose timeout is not later, and before every
    /// entry whose timeout is later.
    pub fn push(&mut self, timeout: Timepoint, key: u64, waker: W)
        requires
            old(self).wf(),
            forall|j: int| 0 <= j < old(self)@.len() ==> old(self)@[j].key < key,
        ensures
            final(self).wf(),
            exists|i: int|
                0 <= i <= old(self)@.len() && final(self)@ == old(self)@.insert(
                    i,
                    TimedWaker { timeout, key, waker },
                ) && (forall|j: int| 0 <= j < i ==> old(self)@[j].timeout@ <= timeout@) && (
                forall|j: int| i <= j < old(self)@.len() ==> timeout@ < old(self)@[j].timeout@),
    {
        let mut i: usize = 0;
        while i < self.entries.len() && !timeout.is_before(&self.entries[i].timeout)
            invariant
                self.wf(),
                self@ == old(self)@,
                i <= self@.len(),
                forall|j: int| 0 <= j < i ==> self@[j].timeout@ <= timeout@,
            decreases self@.len() - i,
        {
            i = i + 1;
        }
        let ghost before = self@;
        self.entries.insert(i, TimedWaker { timeout, key, waker });
        proof {
            let e = TimedWaker { timeout, key, waker };
            assert forall|j: int| i <= j < before.len() implies timeout@ < before[j].timeout@ by {
                assert(timeout@ < before[i as int].timeout@);
            }
            assert(self@ == before.insert(i as int, e));
            assert forall|a: int, b: int| 0 <= a <= b < self@.len() implies self@[a].timeout@
                <= self@[b].timeout@ by {
                if a < i && b > i {
                    assert(self@[b] == before[b - 1]);
                } else if a < i && b == i {
                } else if a == i && b > i {
                    assert(self@[b] == before[b - 1]);
                } else if a > i {
                    assert(self@[a] == before[a - 1]);
                    assert(self@[b] == before[b - 1]);
                }
            }
            assert forall|a: int, b: int| 0 <= a < b < self@.len() implies self@[a].key
                != self@[b].key by {
                if a < i && b == i {
                    assert(!(before[a].key == key));
                } else if a == i {
                    assert(self@[b] == before[b - 1]);
                    assert(!(before[b - 1].key == key));
                } else if a < i && b > i {
                    assert(self@[b] == before[b - 1]);
                } else if a > i {
                    assert(self@[a] == before[a - 1]);
                    assert(self@[b] == before[b - 1]);
                }
            }
            assert forall|a: int, b: int|
                0 <= a < b < self@.len() && self@[a].timeout@ == self@[b].timeout@ implies self@[a].key
                < self@[b].key by {
                if a < i && b == i {
                } else if a == i {
                    assert(self@[b] == before[b - 1]);
                } else if a < i && b > i {
                    assert(self@[b] == before[b - 1]);
                } else if a > i {
                    assert(self@[a] == before[a - 1]);
                    assert(self@[b] == before[b - 1]);
                }
            }
        }
    }

    /// Takes out every entry whose timeout is not later than `time`, in queue order.
    pub fn pop_due(&mut self, time: Timepoint) -> (r: Vec<TimedWaker<W>>)
        requires
            old(self).wf(),
        ensures
            final(self).wf(),
            r@.len() <= old(self)@.len(),
            r@ == old(self)@.take(r@.len() as int),
            final(self)@ == old(self)@.skip(r@.len() as int),
            forall|i: int| 0 <= i < r@.len() ==> r@[i].timeout@ <= time@,
            forall|i: int| 0 <= i < final(self)@.len() ==> time@ < final(self)@[i].timeout@,
    {
        let mut due: Vec<TimedWaker<W>> = Vec::new();
        while self.entries.len() > 0 && !time.is_before(&self.entries[0].timeout)
            invariant
                self.wf(),
                due@.len() <= old(self)@.len(),
                due@ == old(self)@.take(due@.len() as int),
                self@ == old(self)@.skip(due@.len() as int),
                forall|i: int| 0 <= i < due@.len() ==> due@[i].timeout@ <= time@,
            decreases self@.len(),
        {
            let ghost before = self@;
            let entry = self.entries.remove(0);
            proof {
                assert(self@ == before.skip(1));
                assert(old(self)@.skip(due@.len() + 1 as int) =~= before.skip(1));
                assert(old(self)@.take(due@.len() + 1 as int) =~= old(self)@.take(due@.len() as int).push(
                    entry,
                ));
            }
            due.push(entry);
        }
        proof {
            if self@.len() > 0 {
                assert forall|i: int| 0 <= i < self@.len() implies time@
                    < self@[i].timeout@ by {
                    assert(self@[0].timeout@ <= self@[i].timeout@);
                }
            }
        }
        due
    }

    /// Takes out the entry with `key`, where there is one.
    pub fn remove_key(&mut self, key: u64) -> (r: Option<TimedWaker<W>>)
        requires
            old(self).wf(),
        ensures
            final(self).wf(),
            !has_key(final(self)@, key),
            has_key(old(self)@, key) <==> r is Some,
            r is None ==> final(self)@ == old(self)@,
            r matches Some(e) ==> exists|i: int|
                0 <= i < old(self)@.len() && old(self)@[i] == e && e.key == key
                    && final(self)@ == old(self)@.remove(i),
    {
        let mut i: usize = 0;
        while i < self.entries.len() && self.entries[i].key != key
            invariant
                self@ == old(self)@,
                i <= self@.len(),
                forall|j: int| 0 <= j < i ==> self@[j].key != key,
            decreases self@.len() - i,
        {
            i = i + 1;
        }
        if i == self.entries.len() {
            None
        } else {
            let ghost before = self@;
            let entry = self.entries.remove(i);
            proof {
                assert(self@ == before.remove(i as int));
                assert forall|a: int, b: int| 0 <= a <= b < self@.len() implies self@[a].timeout@
                    <= self@[b].timeout@ by {
                    if a < i && b >= i {
                        assert(self@[b] == before[b + 1]);
                    } else if a >= i {
                        assert(self@[a] == before[a + 1]);
                        assert(self@[b] == before[b + 1]);
                    }
                }
                assert forall|a: int, b: int| 0 <= a < b < self@.len() implies self@[a].key
                    != self@[b].key by {
                    if a < i && b >= i {
                        assert(self@[b] == before[b + 1]);
                    } else if a >= i {
                        assert(self@[a] == before[a + 1]);
                        assert(self@[b] == before[b + 1]);
                    }
                }
                assert forall|a: int, b: int|
                    0 <= a < b < self@.len() && self@[a].timeout@ == self@[b].timeout@ implies self@[a].key
                    < self@[b].key by {
                    if a < i && b >= i {
                        assert(self@[b] == before[b + 1]);
                    } else if a >= i {
                        assert(self@[a] == before[a + 1]);
                        assert(self@[b] == before[b + 1]);
                    }
                }
                assert forall|j: int| 0 <= j < self@.len() implies self@[j].key != key by {
                    if j >= i {
                        assert(self@[j] == before[j + 1]);
                        assert(before[i as int].key == key);
                    }
                }
            }
            Some(entry)
        }
    }
}

} // verus!
