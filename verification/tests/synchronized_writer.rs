use std::sync::Arc;
use std::sync::Mutex;

use synchronized_writer::SynchronizedWriter;

#[test]
fn write_to_vec() {
    let data = Mutex::new(Vec::new());

    let data_arc = Arc::new(data);

    let mut writer = SynchronizedWriter::new(data_arc.clone());

    writer.write_all(b"Hello world!").unwrap();

    writer.flush().unwrap();

    assert_eq!(b"Hello world!".to_vec(), *data_arc.lock().unwrap());
}

#[test]
fn write_via_ten_handles() {
    let data_arc = Arc::new(Mutex::new(Vec::new()));

    for _ in 0..10 {
        let mut writer = SynchronizedWriter::new(data_arc.clone());
        writer.write_all(b"Hello world!").unwrap();
    }

    let data = data_arc.lock().unwrap();
    assert_eq!(data.len(), 120);
    assert_eq!(
        b"Hello world!Hello world!Hello world!Hello world!Hello world!Hello world!Hello world!Hello world!Hello world!Hello world!".to_vec(),
        *data
    );
    for i in 0..10 {
        assert_eq!(&data[i * 12..(i + 1) * 12], b"Hello world!");
    }
}

#[test]
fn construction_performs_no_write() {
    let data_arc = Arc::new(Mutex::new(Vec::new()));

    let mut writers = Vec::new();
    for _ in 0..100 {
        writers.push(SynchronizedWriter::<Vec<u8>>::new(data_arc.clone()));
    }
    assert!(data_arc.lock().unwrap().is_empty());

    let mut writer = SynchronizedWriter::new(data_arc.clone());
    assert_eq!(writer.write(b"Hello world!").unwrap(), 12);
    assert_eq!(b"Hello world!".to_vec(), *data_arc.lock().unwrap());
}

#[test]
fn single_write_reports_count() {
    let data_arc = Arc::new(Mutex::new(Vec::new()));

    let mut writer = SynchronizedWriter::new(data_arc.clone());
    let n = writer.write(b"Hello world!").unwrap();
    assert_eq!(n, 12);
    writer.flush().unwrap();
    assert_eq!(b"Hello world!".to_vec(), *data_arc.lock().unwrap());
}
