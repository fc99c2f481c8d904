pub mod flatten;
pub mod tensor;
pub mod types;

pub use flatten::FlattenCPULayer;
pub use tensor::Tensor;
pub use types::CoreError;
pub use types::FlattenLayer;

use vstd::prelude::*;

verus! {

/// Which compute substrate executes tensor operations.
///
/// Exactly one substrate is active for any given computation; a build
/// targets one of these, and layer code never branches on the choice.
#[derive(Clone, Copy, PartialEq, Eq, Structural, Debug)]
pub enum Backend {
    /// Synchronous execution on the calling thread.
    Cpu,
    /// Device-accelerated execution behind a foreign boundary.
    Gpu,
    /// In-process execution inside a browser runtime.
    Wasm,
}

/// The backend a stack designates as active: the most recently pushed
/// entry, or `NoActiveBackend` when nothing has been activated.
pub open spec fn current_of(s: Seq<Backend>) -> Result<Backend, CoreError> {
    if s.len() == 0 {
        Err(CoreError::NoActiveBackend)
    } else {
        Ok(s.last())
    }
}

/// The per-thread resource context: a stack of the backends a thread has
/// activated, newest on top.
///
/// Each thread owns one of these exclusively; operations that need "the
/// current backend" read the top of the calling thread's stack, so
/// concurrent threads never contend for each other's device choice.
pub struct Resources {
    backend: Vec<Backend>,
}

impl Resources {
    /// The stack of activated backends, oldest first.
    pub closed spec fn stack(&self) -> Seq<Backend> {
        self.backend@
    }

    /// Creates a context with no backend activated.
    pub fn new() -> (r: Resources)
        ensures
            r.stack() == Seq::<Backend>::empty(),
    {
        Resources { backend: Vec::new() }
    }

    /// Activates a backend for the calling scope: it becomes the current
    /// one until it is popped.
    pub fn push(&mut self, b: Backend)
        ensures
            final(self).stack() == old(self).stack().push(b),
    {
        self.backend.push(b);
    }

    /// Deactivates the most recently activated backend and returns it,
    /// restoring whatever was active before; on an empty stack nothing
    /// changes and `None` is returned.
    pub fn pop(&mut self) -> (r: Option<Backend>)
        ensures
            r is Some <==> old(self).stack().len() > 0,
            r is Some ==> r->0 == old(self).stack().last() && final(self).stack() == old(
                self,
            ).stack().drop_last(),
            r is None ==> final(self).stack() == old(self).stack(),
    {
        self.backend.pop()
    }

    /// The backend on top of the stack, or `NoActiveBackend` when the
    /// stack is empty.
    pub fn current(&self) -> (r: Result<Backend, CoreError>)
        ensures
            r == current_of(self.stack()),
    {
        let n: usize = self.backend.len();
        if n == 0 {
            Err(CoreError::NoActiveBackend)
        } else {
            Ok(self.backend[n - 1])
        }
    }
}

/// Round-trip law for scoped activation: pushing a backend and then
/// popping it restores the stack, and with it the current backend,
/// exactly as they were before — including the case where nothing was
/// active before.
pub proof fn lemma_push_pop_round_trip(s: Seq<Backend>, b: Backend)
    ensures
        s.push(b).drop_last() == s,
        current_of(s.push(b).drop_last()) == current_of(s),
{
    assert(s.push(b).drop_last() =~= s);
}

} // verus!
