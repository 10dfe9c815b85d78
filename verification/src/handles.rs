//! The count of the handles that share one reactor, by which the last of
//! them to go tells the reactor that it is done.

use vstd::prelude::*;

verus! {

/// The count after one more handle was made; it wraps at the end of the
/// numbers.
pub open spec fn acquired(count: usize) -> usize {
    if count == usize::MAX {
        0
    } else {
        (count + 1) as usize
    }
}

/// The count after one handle was dropped; it wraps at zero.
pub open spec fn released(count: usize) -> usize {
    if count == 0 {
        usize::MAX
    } else {
        (count - 1) as usize
    }
}

/// The number of handles that share one reactor.
#[derive(Debug)]
pub struct Handles {
    cnt: usize,
}

impl Handles {
    /// The number of handles.
    pub closed spec fn count(&self) -> usize {
        self.cnt
    }

    /// The count of a reactor that was just made: one handle.
    pub fn new() -> (handles: Handles)
        ensures
            handles.count() == 1,
    {
        Handles { cnt: 1 }
    }

    /// Counts a handle that was cloned.
    pub fn acquire(&mut self)
        ensures
            final(self).count() == acquired(old(self).count()),
    {
        self.cnt = self.cnt.wrapping_add(1);
    }

    /// Counts a handle that was dropped. Returns whether it was the last one,
    /// in which case the reactor is sent `Done`.
    pub fn release(&mut self) -> (last: bool)
        ensures
            last == (old(self).count() == 1),
            final(self).count() == released(old(self).count()),
    {
        let last = self.cnt == 1;
        self.cnt = self.cnt.wrapping_sub(1);
        last
    }
}

/// The count after a history of clones (`true`) and drops (`false`) of the
/// handles of a reactor that was made with one.
pub open spec fn count_after(history: Seq<bool>) -> usize
    decreases history.len(),
{
    if history.len() == 0 {
        1
    } else if history.last() {
        acquired(count_after(history.drop_last()))
    } else {
        released(count_after(history.drop_last()))
    }
}

/// Whether a history can happen: each clone and each drop is that of a handle
/// that exists, and no clone takes the count past the end of the numbers.
pub open spec fn can_happen(history: Seq<bool>) -> bool
    decreases history.len(),
{
    history.len() == 0 || {
        &&& can_happen(history.drop_last())
        &&& count_after(history.drop_last()) >= 1
        &&& history.last() ==> count_after(history.drop_last()) < usize::MAX
    }
}

/// The number of `Done` messages that a history sends: one for each drop
/// that finds the count at one.
pub open spec fn done_messages(history: Seq<bool>) -> nat
    decreases history.len(),
{
    if history.len() == 0 {
        0
    } else if !history.last() && count_after(history.drop_last()) == 1 {
        done_messages(history.drop_last()) + 1
    } else {
        done_messages(history.drop_last())
    }
}

/// However the handles of a reactor are cloned and dropped, `Done` is sent
/// exactly once when the last of them is dropped, and not before: a history
/// that leaves no handle has sent one `Done`, one that leaves some has sent
/// none.
pub proof fn lemma_done_is_sent_once(history: Seq<bool>)
    requires
        can_happen(history),
    ensures
        done_messages(history) == if count_after(history) == 0 {
            1nat
        } else {
            0nat
        },
    decreases history.len(),
{
    if history.len() > 0 {
        lemma_done_is_sent_once(history.drop_last());
    }
}

/// The number of clones in a history.
pub open spec fn clones(history: Seq<bool>) -> nat
    decreases history.len(),
{
    if history.len() == 0 {
        0
    } else if history.last() {
        clones(history.drop_last()) + 1
    } else {
        clones(history.drop_last())
    }
}

/// In a history that can happen the count is the number of handles made,
/// the first one and the clones, less the number of drops: so it is zero
/// exactly when each handle was dropped once.
pub proof fn lemma_count_is_handles_less_drops(history: Seq<bool>)
    requires
        can_happen(history),
    ensures
        count_after(history) == 1 + clones(history) - (history.len() - clones(history)),
    decreases history.len(),
{
    if history.len() > 0 {
        lemma_count_is_handles_less_drops(history.drop_last());
    }
}

} // verus!
