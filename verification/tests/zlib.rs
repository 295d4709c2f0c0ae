use async_discord::gateway::zlib::ZlibBuffer;
use flate2::{Compress, Compression, FlushCompress};

/// Compresses each message with a sync flush, on one stream, as the gateway does.
fn compress_stream(messages: &[&str]) -> Vec<Vec<u8>> {
    let mut c = Compress::new(Compression::default(), true);
    let mut out = Vec::new();
    for m in messages {
        let mut buf = Vec::with_capacity(m.len() * 2 + 1024);
        c.compress_vec(m.as_bytes(), &mut buf, FlushCompress::Sync).unwrap();
        assert!(buf.ends_with(&[0, 0, 0xff, 0xff]));
        out.push(buf);
    }
    out
}

#[test]
fn incomplete_frames_are_only_gathered() {
    let frames = compress_stream(&["{\"op\":11}"]);
    let frame = &frames[0];
    let mut z = ZlibBuffer::new();
    z.extend(&frame[..frame.len() - 1]);
    assert_eq!(z.consume().unwrap(), None);
    assert!(!z.has_complete_message());
    z.extend(&frame[frame.len() - 1..]);
    assert!(z.has_complete_message());
    assert_eq!(z.consume().unwrap().unwrap(), b"{\"op\":11}");
}

#[test]
fn messages_on_one_stream_inflate_in_turn() {
    let frames = compress_stream(&["first message", "second message, longer than the first"]);
    let mut z = ZlibBuffer::new();
    z.extend(&frames[0]);
    assert_eq!(z.consume().unwrap().unwrap(), b"first message");
    z.clear();
    z.extend(&frames[1][..3]);
    assert_eq!(z.consume().unwrap(), None);
    z.extend(&frames[1][3..]);
    assert_eq!(z.consume().unwrap().unwrap(), b"second message, longer than the first");
}

#[test]
fn empty_buffer_has_no_message() {
    let mut z = ZlibBuffer::new();
    assert!(!z.has_complete_message());
    assert_eq!(z.consume().unwrap(), None);
    z.extend(&[0, 0, 0xff]);
    assert_eq!(z.consume().unwrap(), None);
}

#[test]
fn corrupt_stream_is_an_error() {
    let mut z = ZlibBuffer::new();
    z.extend(&[1, 2, 3, 4, 5, 0, 0, 0xff, 0xff]);
    assert!(z.consume().is_err());
}

#[test]
fn message_inflating_past_the_scratch_buffer_comes_back_whole() {
    // Mostly incompressible text well over 16 KiB, so that inflating it
    // takes several calls that fill the scratch buffer.
    let mut big = String::new();
    let mut x: u64 = 12345;
    while big.len() < 100_000 {
        x = x.wrapping_mul(6364136223846793005).wrapping_add(1442695040888963407);
        big.push_str(&format!("{:x}", x >> 20));
    }
    let small = "{\"op\":11}";
    let frames = compress_stream(&[big.as_str(), small]);
    let mut z = ZlibBuffer::new();
    z.extend(&frames[0]);
    assert_eq!(z.consume().unwrap().unwrap(), big.as_bytes());
    z.clear();
    // The inflater is still in step with the stream.
    z.extend(&frames[1]);
    assert_eq!(z.consume().unwrap().unwrap(), small.as_bytes());
}

#[test]
fn highly_compressible_large_message() {
    let big = "a".repeat(200_000);
    let frames = compress_stream(&[big.as_str()]);
    let mut z = ZlibBuffer::new();
    z.extend(&frames[0]);
    assert_eq!(z.consume().unwrap().unwrap().len(), 200_000);
}
