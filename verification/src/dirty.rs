use vstd::prelude::*;

verus! {

/// Double-buffered change mark: a mutation must be reported to the
/// renderer on the next two polls, one per in-flight frame of a
/// double-buffered command queue. `frames` counts the polls still
/// owed.
#[derive(Debug, Clone, Copy, PartialEq, Eq, Structural)]
pub struct DirtyFlag {
    pub frames: u8,
}

/// What one poll reports: dirty while polls are still owed.
pub open spec fn take_result(f: DirtyFlag) -> bool {
    f.frames > 0
}

/// The flag after one poll.
pub open spec fn take_next(f: DirtyFlag) -> DirtyFlag {
    DirtyFlag { frames: if f.frames > 0 { (f.frames - 1) as u8 } else { 0 } }
}

impl DirtyFlag {
    pub open spec fn wf(&self) -> bool {
        self.frames <= 2
    }

    /// A freshly created component owes both in-flight frames its
    /// state.
    pub fn new_dirty() -> (r: DirtyFlag)
        ensures
            r.frames == 2,
            r.wf(),
    {
        DirtyFlag { frames: 2 }
    }

    /// Records a mutation: the next two polls must see it.
    pub fn mark(&mut self)
        ensures
            final(self).frames == 2,
            final(self).wf(),
    {
        self.frames = 2;
    }

    /// Polls the flag, consuming one owed report.
    pub fn take(&mut self) -> (r: bool)
        ensures
            r == take_result(*old(self)),
            *final(self) == take_next(*old(self)),
            old(self).wf() ==> final(self).wf(),
    {
        if self.frames > 0 {
            self.frames = self.frames - 1;
            true
        } else {
            false
        }
    }
}

/// After exactly one mutation, the dirty mark is reported on the next
/// two consecutive polls and on no poll after that, until the next
/// mutation.
pub proof fn lemma_dirty_reported_exactly_twice(f: DirtyFlag)
    requires
        f.frames == 2,
    ensures
        take_result(f),
        take_result(take_next(f)),
        !take_result(take_next(take_next(f))),
        take_next(take_next(f)).frames == 0,
{
}

/// A clean flag stays clean and reports nothing, poll after poll,
/// until it is marked again.
pub proof fn lemma_clean_stays_clean(f: DirtyFlag)
    requires
        f.frames == 0,
    ensures
        !take_result(f),
        take_next(f) == f,
{
}

} // verus!
