//! Traits to exchange messages and data between widgets and the application.
use vstd::prelude::*;

verus! {

/// Create a new message from a template (&self) and a given parameter (T).
pub trait TryFromArg<T> where Self: Sized {
    type Error;

    fn try_from_arg(&self, t: T) -> Result<Self, Self::Error>;
}

/// Create a new message from a template (&self) and a given parameter (T).
pub trait FromArg<T> where Self: Sized {
    /// `message` is a message that `from_arg(t)` may build from the template `self`.
    spec fn builds_from_arg(&self, t: T, message: Self) -> bool;

    fn from_arg(&self, t: T) -> (r: Self)
        ensures
            self.builds_from_arg(t, r),
    ;
}

pub trait Message<M, D, U> where Self: Sized {
    /// `reply` is what `get(message)` may answer.
    spec fn message_reply(&self, message: M, reply: Option<U>) -> bool;

    /// `send(message, data)` may leave `after` and answer `reply`.
    spec fn message_sent(&self, message: M, data: D, after: Self, reply: Option<U>) -> bool;

    fn get(&self, message: M) -> (r: Option<U>)
        ensures
            self.message_reply(message, r),
    ;

    fn send(&mut self, message: M, data: D) -> (r: Option<U>)
        ensures
            old(self).message_sent(message, data, *final(self), r),
    ;
}

pub trait SimpleMessage<M, D, U>: Message<M, D, U> {
    fn send(&mut self, message: M) -> Option<U>;
}

impl<M, U, T> SimpleMessage<M, (), U> for T where T: Message<M, (), U> {
    /// Sends `message` with no data.
    fn send(&mut self, message: M) -> Option<U> {
        Message::send(self, message, ())
    }
}

impl<I, T> TryFromArg<T> for I where I: FromArg<T> {
    type Error = ();

    /// Always succeeds with the message `FromArg::from_arg` builds.
    fn try_from_arg(&self, t: T) -> (r: Result<Self, Self::Error>)
        ensures
            r matches Ok(message) && self.builds_from_arg(t, message),
    {
        Ok(FromArg::from_arg(self, t))
    }
}

/// The heart of snui's application model.
/// When your application needs to be updated, your widget's sync method will be invoked
/// and your Data will be propagates down the widget tree.
pub trait Data {
    fn sync(&mut self) -> bool;
}

} // verus!
