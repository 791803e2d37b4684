//! The controller a widget talks to, and a barebone controller for testing.
use vstd::prelude::*;

verus! {

pub trait TryIntoMessage<T> where Self: Sized {
    type Error;

    /// `result` is what `try_into(t)` may give for the template `self`.
    spec fn tries_message(&self, t: T, result: Result<Self, Self::Error>) -> bool;

    fn try_into(&self, t: T) -> (r: Result<Self, Self::Error>)
        ensures
            self.tries_message(t, r),
    ;
}

pub trait IntoMessage<T> where Self: Sized {
    /// `message` is a message that `into(t)` may build from the template `self`.
    spec fn builds_message(&self, t: T, message: Self) -> bool;

    fn into(&self, t: T) -> (r: Self)
        ensures
            self.builds_message(t, r),
    ;
}

impl<I, T> TryIntoMessage<T> for I where Self: IntoMessage<T> {
    type Error = ();

    /// Always succeeds with a message `IntoMessage::into` builds.
    open spec fn tries_message(&self, t: T, result: Result<Self, Self::Error>) -> bool {
        result matches Ok(message) && self.builds_message(t, message)
    }

    fn try_into(&self, t: T) -> Result<Self, Self::Error> {
        Ok(IntoMessage::into(self, t))
    }
}

#[derive(Clone, Copy, Debug, PartialEq, Eq, Structural)]
pub enum ControllerError {
    Waiting,
    Blocking,
    Message,
    Data,
    WrongSerial,
    PendingSerial,
    NonSerialized,
}

pub trait Controller<M> {
    /// Tells the model all incomming messages are linked.
    /// The Controller returns a token that can be used to deserialize.
    fn serialize(&mut self) -> (r: Result<u32, ControllerError>)
        default_ensures
            r == Err::<u32, ControllerError>(ControllerError::NonSerialized),
    {
        Err(ControllerError::NonSerialized)
    }

    /// Ends the serialization.
    fn deserialize(&mut self, serial: u32) -> (r: Result<(), ControllerError>)
        default_ensures
            r == Err::<(), ControllerError>(ControllerError::NonSerialized),
    {
        Err(ControllerError::NonSerialized)
    }

    fn get(&self, msg: &M) -> Result<M, ControllerError>;

    fn send(&mut self, msg: M) -> Result<M, ControllerError>;

    fn send_serialize(&mut self, serial: u32, msg: M) -> (r: Result<M, ControllerError>)
        default_ensures
            r matches Err(e) && e == ControllerError::NonSerialized,
    {
        Err(ControllerError::NonSerialized)
    }

    /// Returns an Ok(Message) if the application needs to be synced.
    fn sync(&mut self) -> Result<M, ControllerError>;
}

/// What `serialize` does to the pending serial, and what it returns.
pub open spec fn serialize_outcome(pending: Option<u32>) -> (Option<u32>, Result<u32, ControllerError>) {
    match pending {
        Some(_) => (pending, Err(ControllerError::PendingSerial)),
        None => (Some(1), Ok(1)),
    }
}

/// What `deserialize(serial)` does to the pending serial, and what it returns.
pub open spec fn deserialize_outcome(pending: Option<u32>, serial: u32) -> (
    Option<u32>,
    Result<(), ControllerError>,
) {
    match pending {
        Some(this) => if this != serial {
            (pending, Err(ControllerError::WrongSerial))
        } else {
            (None, Ok(()))
        },
        None => (None, Ok(())),
    }
}

/// Barebone implementation of Controller, meant for testing and debugging.
#[derive(Clone, Copy, Debug)]
pub struct DummyController<M> {
    serial: Option<u32>,
    data: M,
}

impl<M> DummyController<M> {
    /// The serial of the serialization in progress.
    pub closed spec fn pending(&self) -> Option<u32> {
        self.serial
    }

    /// The last message sent.
    pub closed spec fn spec_data(&self) -> M {
        self.data
    }

    pub fn new(data: M) -> (r: Self)
        ensures
            r.pending() is None,
            r.spec_data() == data,
    {
        DummyController { serial: None, data }
    }
}

impl<M> Controller<M> for DummyController<M> {
    fn serialize(&mut self) -> (r: Result<u32, ControllerError>)
        ensures
            (final(self).pending(), r) == serialize_outcome(old(self).pending()),
            final(self).spec_data() == old(self).spec_data(),
    {
        if self.serial.is_some() {
            return Err(ControllerError::PendingSerial);
        } else {
            self.serial = Some(1)
        }
        Ok(1)
    }

    fn deserialize(&mut self, serial: u32) -> (r: Result<(), ControllerError>)
        ensures
            (final(self).pending(), r) == deserialize_outcome(old(self).pending(), serial),
            final(self).spec_data() == old(self).spec_data(),
    {
        if let Some(this) = self.serial {
            if this != serial {
                return Err(ControllerError::WrongSerial);
            } else {
                self.serial = None;
            }
        }
        Ok(())
    }

    fn get(&self, msg: &M) -> (r: Result<M, ControllerError>)
        ensures
            r matches Err(e) && e == ControllerError::Message,
    {
        Err(ControllerError::Message)
    }

    fn send(&mut self, msg: M) -> (r: Result<M, ControllerError>)
        ensures
            r matches Err(e) && e == ControllerError::Message,
            final(self).spec_data() == msg,
            final(self).pending() == old(self).pending(),
    {
        self.data = msg;
        Err(ControllerError::Message)
    }

    fn send_serialize(&mut self, serial: u32, msg: M) -> (r: Result<M, ControllerError>)
        ensures
            r matches Err(e) && e == ControllerError::Message,
            final(self).spec_data() == old(self).spec_data(),
            final(self).pending() == old(self).pending(),
    {
        Err(ControllerError::Message)
    }

    fn sync(&mut self) -> (r: Result<M, ControllerError>)
        ensures
            r matches Err(e) && e == ControllerError::Waiting,
            final(self).spec_data() == old(self).spec_data(),
            final(self).pending() == old(self).pending(),
    {
        Err(ControllerError::Waiting)
    }
}

/// A serialization opened on a controller with none pending hands out a token; closing it with
/// that token succeeds and leaves nothing pending. A second `serialize` while one is pending is
/// refused and changes nothing, and closing with another token is refused and changes nothing.
pub proof fn lemma_serialize_roundtrip(pending: Option<u32>, serial: u32)
    ensures
        pending is None ==> ({
            let (opened, token) = serialize_outcome(pending);
            &&& token == Ok::<u32, ControllerError>(1)
            &&& deserialize_outcome(opened, 1) == (None::<u32>, Ok::<(), ControllerError>(()))
        }),
        pending is Some ==> serialize_outcome(pending) == (
            pending,
            Err::<u32, ControllerError>(ControllerError::PendingSerial),
        ),
        pending == Some(serial) ==> deserialize_outcome(pending, serial).0 is None,
        pending is Some && pending != Some(serial) ==> deserialize_outcome(pending, serial) == (
            pending,
            Err::<(), ControllerError>(ControllerError::WrongSerial),
        ),
        serialize_outcome(serialize_outcome(pending).0).1 == Err::<u32, ControllerError>(
            ControllerError::PendingSerial,
        ),
{
}

} // verus!
