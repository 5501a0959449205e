//! The bookkeeping of the process's one keyboard hook: whether a handler is in
//! place, and the handle of the installed hook.
use vstd::prelude::*;

use crate::event::HookError;

verus! {

/// The state of the process's hook: a handler slot that is filled or empty,
/// and the handle of the installed hook, if any. A handle is the address that
/// the system returned for the hook; the system never returns zero for one.
pub struct HookManager {
    handler_set: bool,
    hook: Option<usize>,
}

impl HookManager {
    /// Whether a handler is in place.
    pub closed spec fn spec_handler_set(&self) -> bool {
        self.handler_set
    }

    /// The handle of the installed hook, if any.
    pub closed spec fn spec_hook(&self) -> Option<usize> {
        self.hook
    }

    /// A hook is only ever installed with a handler in place, and its handle
    /// is never zero.
    pub open spec fn wf(&self) -> bool {
        &&& self.spec_hook() is Some ==> self.spec_handler_set()
        &&& self.spec_hook() is Some ==> self.spec_hook().unwrap() != 0
    }

    /// No handler and no hook.
    pub fn new() -> (r: HookManager)
        ensures
            r.wf(),
            !r.spec_handler_set(),
            r.spec_hook() is None,
    {
        HookManager { handler_set: false, hook: None }
    }

    /// Whether a handler is in place.
    pub fn has_handler(&self) -> (r: bool)
        ensures
            r == self.spec_handler_set(),
    {
        self.handler_set
    }

    /// The handle of the installed hook, if any.
    pub fn installed_hook(&self) -> (r: Option<usize>)
        ensures
            r == self.spec_hook(),
    {
        self.hook
    }

    /// Records that a handler has been put in place; this comes before the
    /// hook is installed, since the system may call the hook at once.
    pub fn set_handler(&mut self)
        requires
            old(self).wf(),
        ensures
            final(self).wf(),
            final(self).spec_handler_set(),
            final(self).spec_hook() == old(self).spec_hook(),
    {
        self.handler_set = true;
    }

    /// Records what the system answered to a request to install the hook:
    /// `handle`, zero when it refused, and then `last_error`, its error code.
    /// A refusal is `HookError::Key(last_error)` and changes nothing. Otherwise
    /// the new handle replaces the old one, which is returned so that it can be
    /// removed rather than leaked.
    pub fn record_install(&mut self, handle: usize, last_error: u32) -> (r: Result<
        Option<usize>,
        HookError,
    >)
        requires
            old(self).wf(),
            old(self).spec_handler_set(),
        ensures
            final(self).wf(),
            final(self).spec_handler_set(),
            handle == 0 ==> (r matches Err(HookError::Key(e)) && e == last_error),
            handle == 0 ==> final(self).spec_hook() == old(self).spec_hook(),
            handle != 0 ==> r == Ok::<Option<usize>, HookError>(old(self).spec_hook()),
            handle != 0 ==> final(self).spec_hook() == Some(handle),
    {
        if handle == 0 {
            return Err(HookError::Key(last_error));
        }
        let previous = self.hook;
        self.hook = Some(handle);
        Ok(previous)
    }

    /// Empties the handler slot and forgets the hook, returning its handle so
    /// that it can be removed. With no hook installed it returns `None`: there
    /// is nothing to remove, so stopping twice, or before starting, is harmless.
    pub fn uninstall(&mut self) -> (r: Option<usize>)
        requires
            old(self).wf(),
        ensures
            final(self).wf(),
            r == old(self).spec_hook(),
            final(self).spec_hook() is None,
            !final(self).spec_handler_set(),
    {
        let previous = self.hook;
        self.hook = None;
        self.handler_set = false;
        previous
    }
}

} // verus!
