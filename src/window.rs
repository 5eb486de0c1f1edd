use vstd::prelude::*;

verus! {

/// An operating-system window handle, held as its raw address.
#[derive(Debug, Clone, Copy, PartialEq, Eq, Structural)]
pub struct WindowHandle {
    pub raw: usize,
}

/// The first window of `windows` whose owning process is `process`, taking
/// the windows in the order in which they were enumerated.
pub open spec fn first_owned(windows: Seq<(WindowHandle, u32)>, process: u32) -> Option<WindowHandle>
    decreases windows.len(),
{
    if windows.len() == 0 {
        None
    } else {
        match first_owned(windows.drop_last(), process) {
            Some(w) => Some(w),
            None => if windows.last().1 == process {
                Some(windows.last().0)
            } else {
                None
            },
        }
    }
}

/// A window search that is fed the top-level windows one at a time, each with
/// the identifier of the process that owns it, and stops at the first one that
/// the calling process owns.
pub struct WindowSearch {
    current_process: u32,
    found: Option<WindowHandle>,
    visited: Ghost<Seq<(WindowHandle, u32)>>,
}

impl WindowSearch {
    /// The identifier of the process whose window is sought.
    pub closed spec fn process(&self) -> u32 {
        self.current_process
    }

    /// The windows examined so far, each with its owner, in enumeration order.
    pub closed spec fn visited(&self) -> Seq<(WindowHandle, u32)> {
        self.visited@
    }

    /// The window found so far, if any.
    pub closed spec fn found(&self) -> Option<WindowHandle> {
        self.found
    }

    pub closed spec fn wf(&self) -> bool {
        self.found == first_owned(self.visited@, self.current_process)
    }

    /// Starts a search for a window owned by `current_process`.
    pub fn new(current_process: u32) -> (s: WindowSearch)
        ensures
            s.wf(),
            s.process() == current_process,
            s.visited() == Seq::<(WindowHandle, u32)>::empty(),
            s.found() == first_owned(s.visited(), s.process()),
    {
        WindowSearch { current_process, found: None, visited: Ghost(Seq::empty()) }
    }

    /// Examines one window owned by process `owner`. Returns whether the
    /// enumeration should go on: it stops as soon as a window is found. Once
    /// a window has been found, later windows are not examined.
    pub fn visit(&mut self, window: WindowHandle, owner: u32) -> (keep_going: bool)
        requires
            old(self).wf(),
        ensures
            final(self).wf(),
            final(self).process() == old(self).process(),
            old(self).found() is None ==> final(self).visited() == old(self).visited().push(
                (window, owner),
            ),
            old(self).found() is Some ==> final(self).visited() == old(self).visited(),
            old(self).found() is Some ==> final(self).found() == old(self).found(),
            old(self).found() is None ==> final(self).found() == (if owner == old(self).process() {
                Some(window)
            } else {
                None
            }),
            final(self).found() == first_owned(final(self).visited(), final(self).process()),
            keep_going == (final(self).found() is None),
    {
        if self.found.is_some() {
            return false;
        }
        let ghost before = self.visited@;
        self.visited = Ghost(before.push((window, owner)));
        assert(self.visited@.drop_last() == before);
        if owner == self.current_process {
            self.found = Some(window);
            false
        } else {
            true
        }
    }

    /// The window found: the first examined window that the process owns, or
    /// `None` when it owns none of them.
    pub fn result(&self) -> (r: Option<WindowHandle>)
        requires
            self.wf(),
        ensures
            r == first_owned(self.visited(), self.process()),
            r == self.found(),
    {
        self.found
    }
}

} // verus!
