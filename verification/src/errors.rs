//! The error that the forwarding path reports: a message.

use vstd::prelude::*;

verus! {

/// A failure with its message.
#[derive(Debug)]
pub struct PipeError {
    msg: String,
}

impl PipeError {
    /// The message.
    pub closed spec fn view(&self) -> Seq<char> {
        self.msg@
    }

    /// An error with the message `msg`.
    pub fn wrap(msg: String) -> (e: PipeError)
        ensures
            e@ == msg@,
    {
        PipeError { msg }
    }

    /// An error with the message `msg`, on the heap.
    pub fn wrap_box(msg: String) -> (e: Box<PipeError>)
        ensures
            e@ == msg@,
    {
        Box::new(Self::wrap(msg))
    }

    /// Takes a value that can be copied, and does nothing with it.
    pub fn test<T: Copy>(idn: T) {
    }

    /// The message.
    pub fn message(&self) -> (msg: String)
        ensures
            msg@ == self@,
    {
        self.msg.clone()
    }
}

} // verus!
