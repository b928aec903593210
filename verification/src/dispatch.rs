//! The invocation dispatcher: reset the context, push typed arguments,
//! resolve the handler for a stable identifier, execute it against the
//! context, and read the typed result back out of the shared stack.

use crate::context::InvokerContext;
use crate::registry::built_from;
use crate::registry::NativeRegistry;
use crate::registry::RegistrationSource;
use crate::slot::SlotValue;
use vstd::prelude::*;

verus! {

/// A handler performs one native's actual work against the call context: it
/// may read the arguments and the auxiliary data, and it writes its results
/// back into the same stack region.
pub trait NativeHandler: Sized {
    /// How a call of this handler may change the context. Left at the
    /// default, it constrains nothing: the handler may rewrite the stack,
    /// the arguments and the auxiliary data at will.
    open spec fn effect(&self, pre: InvokerContext, post: InvokerContext) -> bool {
        true
    }

    /// Executes the native's work. A handler keeps the bookkeeping within
    /// capacity and does not rebind the context's regions.
    fn call(&self, context: &mut InvokerContext)
        requires
            old(context).wf(),
            old(context).bound,
        ensures
            final(context).wf(),
            final(context).bound,
            self.effect(*old(context), *final(context)),
    ;
}

/// A handler that writes one constant word into the first result slot and
/// touches nothing else.
#[derive(Clone, Copy, Debug, PartialEq, Eq, Structural)]
pub struct ConstResultHandler {
    pub value: u64,
}

impl NativeHandler for ConstResultHandler {
    open spec fn effect(&self, pre: InvokerContext, post: InvokerContext) -> bool {
        &&& post.stack@ == pre.stack@.update(0, self.value)
        &&& post.arg_count == pre.arg_count
        &&& post.data@ == pre.data@
        &&& post.data_count == pre.data_count
    }

    fn call(&self, context: &mut InvokerContext) {
        context.stack[0] = self.value;
    }
}

/// A handler that adds the first two argument words, wrapping on overflow,
/// and writes the sum into the first result slot: a native that computes on
/// its arguments.
#[derive(Clone, Copy, Debug, PartialEq, Eq, Structural)]
pub struct AddArgsHandler;

impl NativeHandler for AddArgsHandler {
    open spec fn effect(&self, pre: InvokerContext, post: InvokerContext) -> bool {
        &&& post.stack@ == pre.stack@.update(
            0,
            vstd::wrapping::u64_specs::wrapping_add(pre.stack@[0], pre.stack@[1]),
        )
        &&& post.arg_count == pre.arg_count
        &&& post.data@ == pre.data@
        &&& post.data_count == pre.data_count
    }

    fn call(&self, context: &mut InvokerContext) {
        let a = context.stack[0];
        let b = context.stack[1];
        context.stack[0] = a.wrapping_add(b);
    }
}

/// `post` is `mid` with the auxiliary bookkeeping reconciled: only the data
/// count changed, to zero.
pub open spec fn normalized_from(mid: InvokerContext, post: InvokerContext) -> bool {
    &&& post.stack@ == mid.stack@
    &&& post.arg_count == mid.arg_count
    &&& post.data@ == mid.data@
    &&& post.data_count == 0
    &&& post.bound == mid.bound
}

impl InvokerContext {
    /// Dispatches one call: resolves the handler registered for the stable
    /// identifier and executes it against the context. A missing handler
    /// degrades to a no-op — expected when the remap lags the runtime
    /// version, so it is no error. Either way the auxiliary bookkeeping is
    /// reconciled, leaving the context consistent for its next use. Returns
    /// whether a handler ran, so the caller can report a miss.
    pub fn invoke_with_context<H: NativeHandler>(
        registry: &NativeRegistry<H>,
        hash: u64,
        context: &mut InvokerContext,
    ) -> (found: bool)
        requires
            old(context).wf(),
            old(context).bound,
        ensures
            found == registry@.contains_key(hash),
            final(context).wf(),
            final(context).bound,
            !registry@.contains_key(hash) ==> normalized_from(*old(context), *final(context)),
            registry@.contains_key(hash) ==> exists|mid: InvokerContext|
                #[trigger] registry@[hash].effect(*old(context), mid) && mid.wf()
                    && normalized_from(mid, *final(context)),
    {
        let resolved = registry.get_native_handler(hash);
        let found = resolved.is_some();
        if let Some(handler) = resolved {
            handler.call(context);
        }
        let ghost mid = *context;
        context.set_data_results();
        proof {
            if registry@.contains_key(hash) {
                assert(registry@[hash].effect(*old(context), mid) && mid.wf() && normalized_from(
                    mid,
                    *context,
                ));
            }
        }
        found
    }

    /// Dispatches the identifier against the already-composed context and
    /// reads the first result slot back as the statically requested type.
    /// When no handler is registered the slot keeps its prior value, so the
    /// call degrades to returning that value, never to an error.
    pub fn invoke<T: SlotValue, H: NativeHandler>(
        &mut self,
        registry: &NativeRegistry<H>,
        hash: u64,
    ) -> (r: T)
        requires
            old(self).wf(),
            old(self).bound,
        ensures
            final(self).wf(),
            final(self).bound,
            r == T::value_of(final(self).stack@[0]),
            !registry@.contains_key(hash) ==> normalized_from(*old(self), *final(self)),
            registry@.contains_key(hash) ==> exists|mid: InvokerContext|
                #[trigger] registry@[hash].effect(*old(self), mid) && mid.wf() && normalized_from(
                    mid,
                    *final(self),
                ),
    {
        let _ = Self::invoke_with_context(registry, hash, self);
        self.read_result()
    }
}

/// The single initialization entry point: binds the context's result region
/// to its argument region and builds the handler registry from the
/// identifier remap. Must run once, before any dispatch.
pub fn init<H, R: RegistrationSource<H>>(
    context: &mut InvokerContext,
    remap: &[(u64, u64)],
    source: &R,
) -> (registry: NativeRegistry<H>)
    requires
        forall|i: int, j: int| 0 <= i < j < remap@.len() ==> remap@[i].0 != remap@[j].0,
    ensures
        final(context).stack@ == old(context).stack@,
        final(context).arg_count == old(context).arg_count,
        final(context).data@ == old(context).data@,
        final(context).data_count == old(context).data_count,
        final(context).bound,
        built_from(remap@, *source, registry@),
{
    context.init_base();
    NativeRegistry::build_from_remap(remap, source)
}

} // verus!
