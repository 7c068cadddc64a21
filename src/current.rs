//! The per-CPU slot that names the installed task context.
use vstd::prelude::*;
use crate::context::TaskContextRef;

verus! {

/// Holds at most one non-owning handle: the context installed on this CPU.
#[derive(Debug)]
pub struct CurrentSlot {
    installed: Option<TaskContextRef>,
}

impl CurrentSlot {
    /// The address of the installed context, if any.
    pub closed spec fn view(&self) -> Option<usize> {
        match self.installed {
            Some(h) => Some(h@),
            None => None,
        }
    }

    /// An empty slot.
    pub fn new() -> (r: CurrentSlot)
        ensures
            r@ is None,
    {
        CurrentSlot { installed: None }
    }

    /// Installs `handle`, replacing whatever was installed.
    pub fn install(&mut self, handle: TaskContextRef)
        ensures
            final(self)@ == Some(handle@),
    {
        self.installed = Some(handle);
    }

    /// The installed handle; `None` where no task is installed.
    pub fn current(&self) -> (r: Option<TaskContextRef>)
        ensures
            r is None <==> self@ is None,
            r matches Some(h) ==> self@ == Some(h@),
    {
        self.installed
    }

    /// Empties the slot.
    pub fn clear(&mut self)
        ensures
            final(self)@ is None,
    {
        self.installed = None;
    }
}

} // verus!
