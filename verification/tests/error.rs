use local_async_utils::sync::error::SendError;
use local_async_utils::sync::error::TrySendError;
use std::io::ErrorKind;

#[test]
fn try_send_error_full() {
    let error = TrySendError::Full(7);
    assert_eq!(error.message(), "channel is full");
    assert_eq!(error.kind(), ErrorKind::StorageFull);
    assert_eq!(error.into_inner(), 7);
}

#[test]
fn try_send_error_closed() {
    let error = TrySendError::Closed("item");
    assert_eq!(error.message(), "channel is closed");
    assert_eq!(error.kind(), ErrorKind::BrokenPipe);
    assert_eq!(error.into_inner(), "item");
}

#[test]
fn send_error_closed() {
    let error = SendError::Closed(vec![1u8, 2]);
    assert_eq!(error.message(), "channel is closed");
    assert_eq!(error.kind(), ErrorKind::BrokenPipe);
    assert_eq!(error.into_inner(), vec![1u8, 2]);
}

#[test]
fn errors_compare_by_variant_and_payload() {
    assert_eq!(TrySendError::Full(1), TrySendError::Full(1));
    assert_ne!(TrySendError::Full(1), TrySendError::Closed(1));
    assert_ne!(TrySendError::Closed(1), TrySendError::Closed(2));
    assert_eq!(SendError::Closed(3), SendError::Closed(3));
    assert_ne!(SendError::Closed(3), SendError::Closed(4));
}
