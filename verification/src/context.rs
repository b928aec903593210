//! The call context: a reusable, fixed-capacity argument/result container
//! for one in-flight native call.

use crate::slot::SlotValue;
use vstd::prelude::*;

verus! {

/// How one push changes a context: the slot at the old argument count now
/// holds the word `w`, the argument count grew by one, and everything else
/// is untouched.
pub open spec fn push_rel(pre: InvokerContext, post: InvokerContext, w: u64) -> bool {
    &&& pre.arg_count < 64
    &&& post.stack@ == pre.stack@.update(pre.arg_count as int, w)
    &&& post.arg_count == pre.arg_count + 1
    &&& post.data@ == pre.data@
    &&& post.data_count == pre.data_count
    &&& post.bound == pre.bound
}

/// The context for one in-flight native call.
///
/// Arguments are pushed into the backing `stack` of 64 native value slots;
/// after a dispatch the same slots hold the call's results (the argument
/// region and the result region alias the same storage). The auxiliary
/// `data` region is an opaque payload handed through to handlers, with its
/// own independent count.
pub struct InvokerContext {
    /// Backing stack of 64 native value slots, shared by the argument and
    /// result regions.
    pub stack: [u64; 64],
    /// Number of arguments composed so far; never exceeds 64.
    pub arg_count: u32,
    /// Auxiliary payload region; its meaning is defined by the external
    /// runtime, this core only carries it.
    pub data: [u32; 192],
    /// Number of live entries of the auxiliary region; never exceeds 192.
    pub data_count: u32,
    /// Whether the argument/result regions have been bound to the backing
    /// stack. Binding happens once, through `init_base`; a call may only be
    /// dispatched against a bound context.
    pub bound: bool,
}

impl InvokerContext {
    /// The context's bookkeeping is within the fixed capacities.
    pub open spec fn wf(self) -> bool {
        self.arg_count <= 64 && self.data_count <= 192
    }

    /// Binds the result region and the argument region to the backing stack.
    /// Must run once, before any call is dispatched.
    pub fn init_base(&mut self)
        ensures
            final(self).stack@ == old(self).stack@,
            final(self).arg_count == old(self).arg_count,
            final(self).data@ == old(self).data@,
            final(self).data_count == old(self).data_count,
            final(self).bound,
    {
        self.bound = true;
    }

    /// Resets the context before a new call is composed: the argument count
    /// and the auxiliary-data count return to zero. Stale stack contents are
    /// kept; they are overwritten by later pushes, never read first.
    pub fn init(&mut self)
        ensures
            final(self).stack@ == old(self).stack@,
            final(self).arg_count == 0,
            final(self).data@ == old(self).data@,
            final(self).data_count == 0,
            final(self).bound == old(self).bound,
            final(self).wf(),
    {
        self.arg_count = 0;
        self.data_count = 0;
    }

    /// Writes `value` into the next free slot (zero-padding the slot, since
    /// a narrower value is zero-extended into its word) and counts it as one
    /// more argument. The caller must leave room: at most 64 arguments fit.
    pub fn push_argument<T: SlotValue>(&mut self, value: T)
        requires
            old(self).arg_count < 64,
        ensures
            push_rel(*old(self), *final(self), value.word_of()),
    {
        let index: usize = self.arg_count as usize;
        self.stack[index] = value.to_word();
        self.arg_count = self.arg_count + 1;
    }

    /// Like `push_argument`, but a push beyond the 64-slot capacity is
    /// rejected (returning `false` and changing nothing) instead of being a
    /// contract violation.
    pub fn try_push_argument<T: SlotValue>(&mut self, value: T) -> (ok: bool)
        ensures
            old(self).arg_count < 64 ==> ok && push_rel(*old(self), *final(self), value.word_of()),
            old(self).arg_count >= 64 ==> !ok && final(self).stack@ == old(self).stack@
                && final(self).arg_count == old(self).arg_count && final(self).data@ == old(
                self,
            ).data@ && final(self).data_count == old(self).data_count && final(self).bound == old(
                self,
            ).bound,
    {
        if self.arg_count < 64 {
            self.push_argument(value);
            true
        } else {
            false
        }
    }

    /// Reads the front of the stack back as a value of the requested type.
    /// Meaningful immediately after a dispatch, when the slot holds the
    /// call's result, or immediately after a first push.
    pub fn read_result<T: SlotValue>(&self) -> (r: T)
        ensures
            r == T::value_of(self.stack@[0]),
    {
        T::of_word(self.stack[0])
    }

    /// Reconciles the auxiliary-data bookkeeping after a dispatch, so that
    /// the context is in a consistent state for its next use.
    pub fn set_data_results(&mut self)
        ensures
            final(self).stack@ == old(self).stack@,
            final(self).arg_count == old(self).arg_count,
            final(self).data@ == old(self).data@,
            final(self).data_count == 0,
            final(self).bound == old(self).bound,
    {
        self.data_count = 0;
    }
}

/// Round-trip law: a value pushed into a freshly reset context (no arguments
/// yet) is returned unchanged by a result read of the same type, for any
/// type that fits in one slot.
pub proof fn lemma_push_read_result_round_trip<T: SlotValue>(
    pre: InvokerContext,
    post: InvokerContext,
    v: T,
)
    requires
        pre.arg_count == 0,
        push_rel(pre, post, v.word_of()),
    ensures
        T::value_of(post.stack@[0]) == v,
{
    T::lemma_slot_round_trip(v);
    assert(post.stack@[0] == v.word_of());
}

/// A fresh, unbound context: empty bookkeeping and a zeroed stack.
pub fn create_invoker_context() -> (c: InvokerContext)
    ensures
        c.wf(),
        c.arg_count == 0,
        c.data_count == 0,
        !c.bound,
        forall|i: int| 0 <= i < 64 ==> c.stack@[i] == 0,
        forall|i: int| 0 <= i < 192 ==> c.data@[i] == 0,
{
    InvokerContext {
        stack: [0u64; 64],
        arg_count: 0,
        data: [0u32; 192],
        data_count: 0,
        bound: false,
    }
}

} // verus!
