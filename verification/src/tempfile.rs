//! Staged temp files as owned resources. A `ScopedTempFile` stands for one
//! staged file on disk; it is moved, never copied, and its disposal hands the
//! runtime the removal work exactly once. The actual file I/O stays outside
//! the library; what is verified is the lifecycle: staged once, owned by one
//! holder, removal issued once on every path, idempotently.

use vstd::prelude::*;

verus! {

/// One staged file. `alive` means the removal work has not been issued yet.
pub struct ScopedTempFile {
    path: String,
    alive: bool,
}

impl ScopedTempFile {
    /// The path of the backing file.
    pub closed spec fn spec_path(&self) -> Seq<char> {
        self.path@
    }

    /// True until the removal work has been handed out.
    pub closed spec fn is_alive(&self) -> bool {
        self.alive
    }

    /// Takes ownership of a freshly staged file.
    pub fn stage(path: String) -> (r: ScopedTempFile)
        ensures
            r.is_alive(),
            r.spec_path() == path@,
    {
        ScopedTempFile { path, alive: true }
    }

    /// Reads the path, for handing to the writer that fills the file.
    pub fn path(&self) -> (r: &String)
        ensures
            r@ == self.spec_path(),
    {
        &self.path
    }

    /// Issues the removal of the backing file. The first call on a live file
    /// returns the path whose removal the runtime must now perform (in the
    /// background, best-effort, and idempotently: a file already gone is no
    /// error); every later call returns `None`. Removal work is thus issued
    /// exactly once however many times disposal runs.
    pub fn dispose(&mut self) -> (work: Option<String>)
        ensures
            !final(self).is_alive(),
            final(self).spec_path() == old(self).spec_path(),
            work is Some <==> old(self).is_alive(),
            work is Some ==> work->0@ == old(self).spec_path(),
    {
        if self.alive {
            self.alive = false;
            Some(self.path.clone())
        } else {
            None
        }
    }
}

} // verus!
