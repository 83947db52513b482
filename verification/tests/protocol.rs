use dumpsys_rs::protocol::{conclude, next_action};
use dumpsys_rs::{Action, ByteCapture, DumpError, Phase, TextCapture};
use std::io::{Read, Write};

#[test]
fn reading_asks_for_a_read_and_the_rest_for_a_join() {
    assert_eq!(next_action(Phase::Reading), Action::Read);
    assert_eq!(next_action(Phase::Ended), Action::Join);
    assert_eq!(next_action(Phase::Failed(None)), Action::Join);
    assert_eq!(next_action(Phase::Failed(Some(11))), Action::Join);
}

#[test]
fn conclude_returns_data_only_when_nothing_failed() {
    assert_eq!(conclude(Phase::Ended, Ok(()), 7u8), Ok(7u8));
    assert_eq!(conclude(Phase::Reading, Ok(()), 7u8), Ok(7u8));
    assert_eq!(conclude(Phase::Failed(Some(5)), Ok(()), 7u8), Err(DumpError::Io(Some(5))));
    assert_eq!(conclude(Phase::Failed(None), Ok(()), 7u8), Err(DumpError::Io(None)));
    assert_eq!(conclude(Phase::Ended, Err(-32), 7u8), Err(DumpError::Status(-32)));
    assert_eq!(conclude(Phase::Failed(Some(5)), Err(-32), 7u8), Err(DumpError::Status(-32)));
}

#[test]
fn error_tells_its_kind_and_code() {
    assert!(DumpError::Io(Some(24)).is_io());
    assert!(DumpError::Io(None).is_io());
    assert!(!DumpError::Status(-32).is_io());
    assert_eq!(DumpError::Io(Some(24)).code(), Some(24));
    assert_eq!(DumpError::Io(None).code(), None);
    assert_eq!(DumpError::Status(-32).code(), Some(-32));
}

#[test]
fn text_is_captured_from_a_real_pipe() {
    let (mut reader, mut writer) = os_pipe::pipe().unwrap();
    writer.write_all(b"SurfaceFlinger state\n").unwrap();
    drop(writer);
    let mut c = TextCapture::new();
    let mut scratch = [0u8; 8];
    while c.next_action() == Action::Read {
        match reader.read(&mut scratch) {
            Ok(n) => c.accept(&scratch[..n]),
            Err(e) => c.read_failed(e.raw_os_error()),
        }
    }
    assert_eq!(c.finish(Ok(())), Ok(String::from("SurfaceFlinger state\n")));
}

#[test]
fn bytes_are_captured_from_a_real_pipe() {
    let (mut reader, mut writer) = os_pipe::pipe().unwrap();
    writer.write_all(b"0123456789").unwrap();
    drop(writer);
    let mut c = ByteCapture::<4>::new();
    let mut scratch = [0u8; 3];
    let mut reads: u32 = 0;
    while c.next_action() == Action::Read {
        match reader.read(&mut scratch) {
            Ok(n) => c.accept(&scratch[..n]),
            Err(e) => c.read_failed(e.raw_os_error()),
        }
        reads += 1;
    }
    assert!(reads >= 5);
    assert_eq!(c.finish(Ok(())), Ok(*b"0123"));
}
