use kernel_core::types::{KernelError, KernelMessage};
use kernel_core::wire::{encode, encoded, is_encoding_of};

/// A notification as a serializer sees an enum with one variant that
/// carries a byte.
struct AsEnum(KernelMessage);

impl serde::Serialize for AsEnum {
    fn serialize<S: serde::Serializer>(&self, serializer: S) -> Result<S::Ok, S::Error> {
        match self.0 {
            KernelMessage::IRQFired(irq) => {
                serializer.serialize_newtype_variant("KernelMessage", 0, "IRQFired", &irq)
            },
        }
    }
}

#[test]
fn interrupt_notification_is_kind_then_line() {
    assert_eq!(encode(&KernelMessage::IRQFired(5)), Ok(vec![0, 5]));
    assert_eq!(encode(&KernelMessage::IRQFired(0)), Ok(vec![0, 0]));
    assert_eq!(encode(&KernelMessage::IRQFired(0xDF)), Ok(vec![0, 0xDF]));
    assert_eq!(encode(&KernelMessage::IRQFired(0xFF)), Ok(vec![0, 0xFF]));
}

#[test]
fn encoding_is_that_of_the_enum() {
    for irq in 0..=255u8 {
        let note = KernelMessage::IRQFired(irq);
        assert_eq!(encode(&note).unwrap(), postcard::to_allocvec(&AsEnum(note)).unwrap());
    }
}

#[test]
fn serializer_results_are_mapped() {
    assert_eq!(encoded(Ok(vec![1, 2, 3])), Ok(vec![1, 2, 3]));
    assert_eq!(encoded(Ok(vec![])), Ok(vec![]));
    assert_eq!(
        encoded(Err(postcard::Error::SerializeBufferFull)),
        Err(KernelError::EncodingFailed)
    );
    assert_eq!(
        encoded(Err(postcard::Error::WontImplement)),
        Err(KernelError::EncodingFailed)
    );
}

#[test]
fn every_notification_is_encoded() {
    for irq in 0..=255u8 {
        let bytes = encode(&KernelMessage::IRQFired(irq));
        assert_eq!(bytes, Ok(vec![0, irq]));
    }
}

#[test]
fn encoding_is_recognised() {
    let note = KernelMessage::IRQFired(5);
    assert!(is_encoding_of(&encode(&note).unwrap(), &note));
    assert!(is_encoding_of(&[0, 5], &note));
    assert!(!is_encoding_of(&[0, 6], &note));
    assert!(!is_encoding_of(&[1, 5], &note));
    assert!(!is_encoding_of(&[0], &note));
    assert!(!is_encoding_of(&[], &note));
    assert!(!is_encoding_of(&[0, 5, 0], &note));
    assert!(!is_encoding_of(&encode(&KernelMessage::IRQFired(6)).unwrap(), &note));
}
