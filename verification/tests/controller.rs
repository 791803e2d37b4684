use snui::controller::{Controller, ControllerError, DummyController};

#[test]
fn dummy_controller_serialize_roundtrip() {
    let mut c = DummyController::new(3u32);
    assert_eq!(c.serialize(), Ok(1));
    assert_eq!(c.serialize(), Err(ControllerError::PendingSerial));
    assert_eq!(c.deserialize(2), Err(ControllerError::WrongSerial));
    assert_eq!(c.deserialize(1), Ok(()));
    assert_eq!(c.serialize(), Ok(1));
}

#[test]
fn dummy_controller_deserialize_without_pending() {
    let mut c = DummyController::new(0u8);
    assert_eq!(c.deserialize(5), Ok(()));
}

#[test]
fn dummy_controller_messages() {
    let mut c = DummyController::new(1i32);
    assert_eq!(c.get(&4), Err(ControllerError::Message));
    assert_eq!(c.send(5), Err(ControllerError::Message));
    assert_eq!(c.send_serialize(1, 6), Err(ControllerError::Message));
    assert_eq!(c.sync(), Err(ControllerError::Waiting));
}

struct Plain;

impl Controller<u8> for Plain {
    fn get(&self, msg: &u8) -> Result<u8, ControllerError> {
        Ok(*msg)
    }
    fn send(&mut self, msg: u8) -> Result<u8, ControllerError> {
        Ok(msg)
    }
    fn sync(&mut self) -> Result<u8, ControllerError> {
        Err(ControllerError::Waiting)
    }
}

#[test]
fn controller_defaults_are_not_serialized() {
    let mut p = Plain;
    assert_eq!(p.serialize(), Err(ControllerError::NonSerialized));
    assert_eq!(p.deserialize(1), Err(ControllerError::NonSerialized));
    assert_eq!(p.send_serialize(1, 2), Err(ControllerError::NonSerialized));
}
