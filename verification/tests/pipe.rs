use dumpsys_rs::{Action, ByteCapture, DumpError, Phase, TextCapture};
use std::io::{Read, Write};

#[test]
fn bounded_capture_drains_the_pipe_to_its_end() {
    let (mut reader, mut writer) = os_pipe::pipe().unwrap();
    let block = [b'y'; 4096];
    let mut i: u32 = 0;
    while i < 8 {
        writer.write_all(&block).unwrap();
        i += 1;
    }
    drop(writer);
    let mut c = ByteCapture::<16>::new();
    let mut scratch = [0u8; 1024];
    let mut drained: usize = 0;
    while c.next_action() == Action::Read {
        match reader.read(&mut scratch) {
            Ok(n) => {
                drained += n;
                c.accept(&scratch[..n]);
            }
            Err(e) => c.read_failed(e.raw_os_error()),
        }
    }
    assert_eq!(drained, 8 * 4096);
    assert_eq!(c.phase(), Phase::Ended);
    assert_eq!(c.finish(Ok(())), Ok([b'y'; 16]));
}

#[test]
fn failing_worker_decides_after_partial_output() {
    let (mut reader, mut writer) = os_pipe::pipe().unwrap();
    writer.write_all(b"half a dump").unwrap();
    drop(writer);
    let mut c = TextCapture::new();
    let mut scratch = [0u8; 64];
    while c.next_action() == Action::Read {
        match reader.read(&mut scratch) {
            Ok(n) => c.accept(&scratch[..n]),
            Err(e) => c.read_failed(e.raw_os_error()),
        }
    }
    assert_eq!(c.captured(), &b"half a dump"[..]);
    assert_eq!(c.finish(Err(-32)), Err(DumpError::Status(-32)));
}
