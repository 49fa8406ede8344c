//! The shared low-level mouse hook of the first tray generation: one hook for
//! the whole process, handed out to any number of guards and removed when the
//! last guard goes away.
//!
//! The registry holds the hook handle and the guard count; installing and
//! unhooking the system hook are the application's part, told by the results
//! here.

use vstd::prelude::*;

verus! {

/// The process-wide hook handle and how many guards share it.
#[derive(Debug)]
pub struct HookRegistry {
    handle: usize,
    refcount: usize,
}

/// A guard on the shared hook; the hook stays installed while one exists.
#[derive(Debug)]
pub struct WheelHook {
    _private: (),
}

impl HookRegistry {
    /// The installed hook's handle, `0` when none.
    pub closed spec fn handle(&self) -> usize {
        self.handle
    }

    /// How many guards share the hook.
    pub closed spec fn refcount(&self) -> usize {
        self.refcount
    }

    /// A hook is installed exactly while a guard holds it.
    pub open spec fn wf(&self) -> bool {
        (self.handle() == 0) == (self.refcount() == 0)
    }

    /// No hook, no guards.
    pub fn new() -> (r: HookRegistry)
        ensures
            r.wf(),
            r.handle() == 0,
            r.refcount() == 0,
    {
        HookRegistry { handle: 0, refcount: 0 }
    }

    /// Whether a hook is installed.
    pub fn installed(&self) -> (r: bool)
        ensures
            r == (self.handle() != 0),
    {
        self.handle != 0
    }

    /// Fast path of an install: when a hook is already installed, one more
    /// guard shares it; `None` means the caller must install the system hook
    /// and hand its handle to [`Self::adopt`].
    pub fn acquire(&mut self) -> (r: Option<WheelHook>)
        requires
            old(self).refcount() < usize::MAX,
        ensures
            r is Some == (old(self).handle() != 0),
            final(self).handle() == old(self).handle(),
            final(self).refcount() == (if old(self).handle() != 0 {
                old(self).refcount() + 1
            } else {
                old(self).refcount() as int
            }),
            old(self).wf() ==> final(self).wf(),
    {
        if self.handle != 0 {
            self.refcount = self.refcount + 1;
            Some(WheelHook { _private: () })
        } else {
            None
        }
    }

    /// A system hook `raw` was installed: it becomes the shared hook when
    /// none is set (one guard), otherwise the existing hook gains a guard and
    /// `raw` is returned to be unhooked.
    pub fn adopt(&mut self, raw: usize) -> (r: (WheelHook, Option<usize>))
        requires
            raw != 0,
            old(self).refcount() < usize::MAX,
        ensures
            old(self).handle() == 0 ==> final(self).handle() == raw && final(self).refcount() == 1
                && r.1 is None,
            old(self).handle() != 0 ==> final(self).handle() == old(self).handle()
                && final(self).refcount() == old(self).refcount() + 1 && r.1 == Some(raw),
            final(self).wf(),
    {
        if self.handle == 0 {
            self.handle = raw;
            self.refcount = 1;
            (WheelHook { _private: () }, None)
        } else {
            self.refcount = self.refcount + 1;
            (WheelHook { _private: () }, Some(raw))
        }
    }

    /// A guard went away: the last one clears the shared handle and returns
    /// it to be unhooked; a release with no guards counted leaves the count at
    /// zero.
    pub fn release(&mut self, guard: WheelHook) -> (r: Option<usize>)
        ensures
            old(self).refcount() == 1 ==> final(self).handle() == 0 && final(self).refcount()
                == 0 && r == (if old(self).handle() != 0 {
                Some(old(self).handle())
            } else {
                None::<usize>
            }),
            old(self).refcount() == 0 ==> final(self).refcount() == 0 && final(self).handle()
                == old(self).handle() && r is None,
            old(self).refcount() > 1 ==> final(self).refcount() == old(self).refcount() - 1
                && final(self).handle() == old(self).handle() && r is None,
            old(self).wf() ==> final(self).wf(),
    {
        let prev = self.refcount;
        if prev == 1 {
            self.refcount = 0;
            let raw = self.handle;
            self.handle = 0;
            if raw != 0 {
                Some(raw)
            } else {
                None
            }
        } else if prev == 0 {
            self.refcount = 0;
            None
        } else {
            self.refcount = prev - 1;
            None
        }
    }
}

} // verus!
