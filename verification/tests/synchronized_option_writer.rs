use std::sync::Arc;
use std::sync::Mutex;

use synchronized_writer::slot_flush;
use synchronized_writer::slot_write;
use synchronized_writer::IoErrorKind;
use synchronized_writer::SynchronizedOptionWriter;

#[test]
fn write_to_option_vec() {
    let data = Mutex::new(Some(Vec::new()));

    let data_arc = Arc::new(data);

    let mut writer = SynchronizedOptionWriter::new(data_arc.clone());

    writer.write_all(b"Hello world!").unwrap();

    writer.flush().unwrap();

    let data = data_arc.lock().unwrap().take().unwrap(); // remove out the vec from arc

    assert_eq!(b"Hello world!".to_vec(), data);
}

#[test]
fn detach_then_fail() {
    let data_arc = Arc::new(Mutex::new(Some(Vec::new())));

    let mut writer = SynchronizedOptionWriter::new(data_arc.clone());
    let mut other_writer = SynchronizedOptionWriter::new(data_arc.clone());

    writer.write_all(b"Hello world!").unwrap();

    let extracted = data_arc.lock().unwrap().take().unwrap();
    assert_eq!(b"Hello world!".to_vec(), extracted);

    let err = writer.write(b"more").unwrap_err();
    assert_eq!(err.kind(), IoErrorKind::BrokenPipe);
    assert_eq!(err.message(), "the writer has been removed out");

    let err = other_writer.flush().unwrap_err();
    assert_eq!(err.kind(), IoErrorKind::BrokenPipe);
    assert_eq!(err.message(), "the writer has been removed out");

    // the extracted buffer is unchanged by the failed calls
    assert_eq!(b"Hello world!".to_vec(), extracted);
}

#[test]
fn no_resurrection() {
    let data_arc = Arc::new(Mutex::new(Some(Vec::new())));

    let mut writer = SynchronizedOptionWriter::new(data_arc.clone());
    writer.write_all(b"Hello world!").unwrap();

    data_arc.lock().unwrap().take().unwrap();

    for _ in 0..5 {
        let err = writer.write(b"Hello world!").unwrap_err();
        assert_eq!(err.kind(), IoErrorKind::BrokenPipe);
        let err = writer.flush().unwrap_err();
        assert_eq!(err.kind(), IoErrorKind::BrokenPipe);
        assert!(data_arc.lock().unwrap().is_none());
    }
}

#[test]
fn write_to_empty_slot_fails() {
    let data_arc: Arc<Mutex<Option<Vec<u8>>>> = Arc::new(Mutex::new(None));

    let mut writer = SynchronizedOptionWriter::new(data_arc.clone());

    let err = writer.write(b"Hello world!").unwrap_err();
    assert_eq!(err.kind(), IoErrorKind::BrokenPipe);
    assert_eq!(err.message(), "the writer has been removed out");
}

#[test]
fn slot_functions_branch_on_presence() {
    let mut slot: Option<Vec<u8>> = Some(Vec::new());
    assert_eq!(slot_write(&mut slot, b"Hello world!").unwrap(), 12);
    slot_flush(&mut slot).unwrap();
    assert_eq!(slot.as_ref().unwrap(), &b"Hello world!".to_vec());

    let mut empty: Option<Vec<u8>> = None;
    let err = slot_write(&mut empty, b"Hello world!").unwrap_err();
    assert_eq!(err.kind(), IoErrorKind::BrokenPipe);
    assert_eq!(err.message(), "the writer has been removed out");
    let err = slot_flush(&mut empty).unwrap_err();
    assert_eq!(err.kind(), IoErrorKind::BrokenPipe);
    assert!(empty.is_none());
}
