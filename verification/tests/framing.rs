use barcode_engine::framer::Framer;

fn bytes(s: &str) -> Vec<u8> {
    s.as_bytes().to_vec()
}

#[test]
fn full_barcode_line_yields_one_token() {
    let mut f = Framer::new();
    let tokens = f.push_bytes(&bytes("ABCDEFGHIJKLMNOPQR\n"));
    assert_eq!(tokens.len(), 1);
    assert_eq!(tokens[0], bytes("ABCDEFGHIJKLMNOPQR"));
}

#[test]
fn short_line_yields_no_token() {
    let mut f = Framer::new();
    let tokens = f.push_bytes(&bytes("AB\n"));
    assert_eq!(tokens.len(), 0);
}

#[test]
fn long_run_without_newline_flushes_and_discards() {
    let mut f = Framer::new();
    let noise = vec![b'X'; 40];
    let tokens = f.push_bytes(&noise);
    assert_eq!(tokens.len(), 0);
    // the flush cleared the buffer: a following clean frame comes out whole
    let tokens = f.push_bytes(&bytes("ABCDEFGHIJKLMNOPQR\n"));
    assert_eq!(tokens.len(), 1);
    assert_eq!(tokens[0], bytes("ABCDEFGHIJKLMNOPQR"));
}

#[test]
fn bytes_accumulate_across_reads() {
    let mut f = Framer::new();
    assert_eq!(f.push_bytes(&bytes("ABCDEFGH")).len(), 0);
    let tokens = f.push_bytes(&bytes("IJKLMNOPQR"));
    assert_eq!(tokens.len(), 1);
    assert_eq!(tokens[0], bytes("ABCDEFGHIJKLMNOPQR"));
}

#[test]
fn surrounding_whitespace_is_trimmed() {
    let mut f = Framer::new();
    let tokens = f.push_bytes(&bytes(" ABCDEFGHIJKLMNOPQR \r\n"));
    assert_eq!(tokens.len(), 1);
    assert_eq!(tokens[0], bytes("ABCDEFGHIJKLMNOPQR"));
}

#[test]
fn two_lines_in_one_chunk_yield_two_tokens() {
    let mut f = Framer::new();
    let tokens = f.push_bytes(&bytes("AAAAAAAAAAAAAAAAAA\nBBBBBBBBBBBBBBBBBB\n"));
    assert_eq!(tokens.len(), 2);
    assert_eq!(tokens[0], bytes("AAAAAAAAAAAAAAAAAA"));
    assert_eq!(tokens[1], bytes("BBBBBBBBBBBBBBBBBB"));
}

#[test]
fn exactly_eighteen_bytes_flush_without_newline() {
    let mut f = Framer::new();
    let tokens = f.push_bytes(&bytes("ABCDEFGHIJKLMNOPQR"));
    assert_eq!(tokens.len(), 1);
    assert_eq!(tokens[0], bytes("ABCDEFGHIJKLMNOPQR"));
}

#[test]
fn empty_read_is_a_no_op() {
    let mut f = Framer::new();
    assert_eq!(f.push_bytes(&Vec::new()).len(), 0);
    assert_eq!(f.push_bytes(&bytes("ABCDEFGH")).len(), 0);
    assert_eq!(f.push_bytes(&Vec::new()).len(), 0);
    let tokens = f.push_bytes(&bytes("IJKLMNOPQR"));
    assert_eq!(tokens.len(), 1);
}

#[test]
fn noise_flushes_as_soon_as_length_is_reached() {
    let mut f = Framer::new();
    assert_eq!(f.push_bytes(&vec![b'X'; 10]).len(), 0);
    // the second read takes the buffer to 20 bytes: a flush with one
    // 20-byte segment, which is not a barcode and is discarded
    assert_eq!(f.push_bytes(&vec![b'X'; 10]).len(), 0);
    // the buffer was cleared, not carried over
    let tokens = f.push_bytes(&bytes("ABCDEFGHIJKLMNOPQR\n"));
    assert_eq!(tokens.len(), 1);
}

#[test]
fn partial_segment_after_newline_is_dropped() {
    let mut f = Framer::new();
    // the tail after the newline is short noise and the flush drops it
    let tokens = f.push_bytes(&bytes("AAAAAAAAAAAAAAAAAA\nBB"));
    assert_eq!(tokens.len(), 1);
    assert_eq!(tokens[0], bytes("AAAAAAAAAAAAAAAAAA"));
    // and it was not carried over either
    let tokens = f.push_bytes(&bytes("CCCCCCCCCCCCCCCCCC\n"));
    assert_eq!(tokens.len(), 1);
    assert_eq!(tokens[0], bytes("CCCCCCCCCCCCCCCCCC"));
}
