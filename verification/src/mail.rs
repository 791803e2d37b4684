//! Traits to share data in snui.
//!
//! Mail refers to the idea of a mailing service.
//!
//! In the scope of snui, a `Mail` is an interface widgets can use exchange messages and data
//! with your application. This allows widgets to operate independently from it and keep most
//! of the complexity inside the trait implementation.
use std::borrow::Borrow;
use vstd::prelude::*;

verus! {

pub trait Mail<'a, M, D, U> where Self: Sized {
    /// `reply` is what `get(message)` may answer.
    spec fn mail_reply(&self, message: M, reply: Option<U>) -> bool;

    /// `send(message, data)` may leave `after` and answer `reply`.
    spec fn mail_sent(&self, message: M, data: D, after: Self, reply: Option<U>) -> bool;

    fn get(&'a self, message: M) -> (r: Option<U>)
        ensures
            self.mail_reply(message, r),
    ;

    fn send(&'a mut self, message: M, data: D) -> (r: Option<U>)
        ensures
            old(self).mail_sent(message, data, *final(self), r),
    ;
}

pub trait BorrowMail<'a, M, D, U> where Self: Sized {
    /// `reply` is what `get(message)` may answer.
    spec fn borrowed_reply(&self, message: M, reply: Option<U>) -> bool;

    /// `send(message, data)` may leave `after` and answer `reply`.
    spec fn borrowed_sent(&self, message: M, data: D, after: Self, reply: Option<U>) -> bool;

    fn get<B: Borrow<M>>(&'a self, message: M) -> (r: Option<U>)
        ensures
            self.borrowed_reply(message, r),
    ;

    fn send<B: Borrow<M>>(&'a mut self, message: M, data: D) -> (r: Option<U>)
        ensures
            old(self).borrowed_sent(message, data, *final(self), r),
    ;
}

impl<'a, M, D, U, T> BorrowMail<'a, M, D, U> for T where T: for <'b>Mail<'a, &'b M, D, U> {
    /// What `Mail::get` answers for a reference to `message`.
    open spec fn borrowed_reply(&self, message: M, reply: Option<U>) -> bool {
        Mail::<'a, &M, D, U>::mail_reply(self, &message, reply)
    }

    /// What `Mail::send` does with a reference to `message`.
    open spec fn borrowed_sent(&self, message: M, data: D, after: Self, reply: Option<U>) -> bool {
        Mail::<'a, &M, D, U>::mail_sent(self, &message, data, after, reply)
    }

    /// Passes a reference to `message` to `Mail::get`.
    fn get<B: Borrow<M>>(&'a self, message: M) -> Option<U> {
        Mail::get(self, &message)
    }

    /// Passes a reference to `message` to `Mail::send`.
    fn send<B: Borrow<M>>(&'a mut self, message: M, data: D) -> Option<U> {
        Mail::send(self, &message, data)
    }
}

} // verus!
