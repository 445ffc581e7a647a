//! A fixed table of interrupt handlers, at most one per line.

use vstd::prelude::*;

use crate::hal::error::HalError;

verus! {

/// What registering a handler for `line` returns.
pub open spec fn register_result<H>(handlers: Seq<Option<H>>, line: int) -> Result<(), HalError> {
    if handlers[line] is Some {
        Err(HalError::IrqAlreadyRegistered)
    } else {
        Ok(())
    }
}

/// The handlers after registering `handler` for `line`: a line that has one
/// keeps it.
pub open spec fn after_register<H>(handlers: Seq<Option<H>>, line: int, handler: H) -> Seq<
    Option<H>,
> {
    if handlers[line] is Some {
        handlers
    } else {
        handlers.update(line, Some(handler))
    }
}

/// The handlers after unregistering that of `line`.
pub open spec fn after_unregister<H>(handlers: Seq<Option<H>>, line: int) -> Seq<Option<H>> {
    handlers.update(line, None)
}

/// A registered handler is the one that its line has, no other line changes, and
/// a second registration is refused without effect.
pub proof fn registered_handler_stays<H>(
    handlers: Seq<Option<H>>,
    line: int,
    handler: H,
    second: H,
)
    requires
        0 <= line < handlers.len(),
        register_result(handlers, line) is Ok,
    ensures
        after_register(handlers, line, handler)[line] == Some(handler),
        forall|i: int|
            0 <= i < handlers.len() && i != line ==> after_register(handlers, line, handler)[i]
                == handlers[i],
        register_result(after_register(handlers, line, handler), line) == Err::<(), HalError>(
            HalError::IrqAlreadyRegistered,
        ),
        after_register(after_register(handlers, line, handler), line, second) == after_register(
            handlers,
            line,
            handler,
        ),
{
}

/// Unregistering a line takes its handler away, changes no other line, and lets
/// it be registered again.
pub proof fn unregistered_line_is_free<H>(handlers: Seq<Option<H>>, line: int, handler: H)
    requires
        0 <= line < handlers.len(),
    ensures
        after_unregister(handlers, line)[line] is None,
        forall|i: int|
            0 <= i < handlers.len() && i != line ==> after_unregister(handlers, line)[i]
                == handlers[i],
        register_result(after_unregister(handlers, line), line) is Ok,
        after_register(after_unregister(handlers, line), line, handler)[line] == Some(handler),
{
}

/// Handlers by line.
pub struct IrqTable<H, const N: usize> {
    pub slots: [Option<H>; N],
}

impl<H: Copy, const N: usize> IrqTable<H, N> {
    /// The handler of each line.
    pub open spec fn view(self) -> Seq<Option<H>> {
        self.slots@
    }

    /// A table without handlers.
    pub fn new() -> (r: Self)
        ensures
            r@.len() == N,
            forall|i: int| 0 <= i < N ==> #[trigger] r@[i] is None,
    {
        IrqTable { slots: [None; N] }
    }

    /// Gives `line` a handler; fails if it has one.
    pub fn register(&mut self, line: usize, handler: H) -> (r: Result<(), HalError>)
        requires
            line < N,
        ensures
            r == register_result(old(self)@, line as int),
            final(self)@ == after_register(old(self)@, line as int, handler),
    {
        if self.slots[line].is_some() {
            return Err(HalError::IrqAlreadyRegistered);
        }
        self.slots[line] = Some(handler);
        Ok(())
    }

    /// Takes the handler of `line` away, if it has one.
    pub fn unregister(&mut self, line: usize)
        requires
            line < N,
        ensures
            final(self)@ == after_unregister(old(self)@, line as int),
    {
        self.slots[line] = None;
    }

    /// The handler of `line`.
    pub fn handler(&self, line: usize) -> (r: Option<H>)
        requires
            line < N,
        ensures
            r == self@[line as int],
    {
        self.slots[line]
    }
}

} // verus!
