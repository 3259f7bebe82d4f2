use vstd::prelude::*;

use crate::thingy::Thingy;

verus! {

/// What a stateless registration hands to the foreign side: one heap block
/// that owns the closure.
///
/// The block is consumed by exactly one trampoline call, which takes it back
/// by value: the closure cannot run twice, and the block is freed when that
/// call returns.
pub struct CallbackPayload<F> {
    pub cb: F,
}

/// What a bound registration hands to the foreign side: the closure and the
/// receiver it is entitled to change, in one heap block.
///
/// The receiver stays exclusively borrowed until the trampoline has consumed
/// the block. The closure sees the receiver's state and returns its next
/// state, which the trampoline writes back through the borrow.
pub struct BoundCallbackPayload<'a, F> {
    pub cb: F,
    pub receiver: &'a mut Thingy,
}

/// Packages a stateless closure into a single owned block.
///
/// Registration never runs the closure.
pub fn register<F: Fn(i32) -> O, O>(cb: F) -> (r: Box<CallbackPayload<F>>)
    ensures
        r.cb == cb,
{
    Box::new(CallbackPayload { cb })
}

/// The fixed-shape entry point for a stateless registration: it takes back the
/// block that `register` made and runs its closure once on `value`.
///
/// What the closure produces is returned, and is the one effect of the call.
pub fn trampoline<F: Fn(i32) -> O, O>(value: i32, context: Box<CallbackPayload<F>>) -> (r: O)
    requires
        context.cb.requires((value,)),
    ensures
        context.cb.ensures((value,), r),
{
    let payload = *context;
    (payload.cb)(value)
}

/// A stateless callback that records the one call it receives: the record
/// holds the argument it was called with.
pub fn record(n: i32) -> (r: Vec<i32>)
    ensures
        r@ == seq![n],
{
    let mut calls: Vec<i32> = Vec::new();
    calls.push(n);
    calls
}

impl Thingy {
    /// Packages `cb` together with an exclusive borrow of this receiver into a
    /// single owned block.
    ///
    /// Registration never runs the closure. Once the borrow ends, the receiver
    /// holds whatever state the block's receiver was left in.
    pub fn callback<'a, F: Fn(Thingy, i32) -> Thingy>(&'a mut self, cb: F) -> (r: Box<
        BoundCallbackPayload<'a, F>,
    >)
        ensures
            r.cb == cb,
            *r.receiver == *old(self),
            *final(r.receiver) == *final(self),
    {
        Box::new(BoundCallbackPayload { cb, receiver: self })
    }
}

/// The fixed-shape entry point for a bound registration: it takes back the
/// block that `Thingy::callback` made, runs its closure once on the receiver's
/// state and `value`, and stores the closure's result in the receiver.
pub fn apply_closure<'a, F: Fn(Thingy, i32) -> Thingy>(
    value: i32,
    context: Box<BoundCallbackPayload<'a, F>>,
)
    requires
        context.cb.requires((*context.receiver, value)),
    ensures
        context.cb.ensures((*old(context.receiver), value), *final(context.receiver)),
{
    let payload = *context;
    let BoundCallbackPayload { cb, receiver } = payload;
    let next = cb(*receiver, value);
    *receiver = next;
}

} // verus!
