use deployer::{digest_chunks, ContentHasher};

fn chunks(parts: &[&[u8]]) -> Vec<Vec<u8>> {
    parts.iter().map(|p| p.to_vec()).collect()
}

#[test]
fn digest_of_empty_content() {
    assert_eq!(
        digest_chunks(&Vec::new()),
        "af1349b9f5f9a1a6a0404dea36dcc9499bcb25c9adc112b7cc9a93cae41f3262"
    );
}

#[test]
fn digest_matches_blake3() {
    let d = digest_chunks(&chunks(&[b"hello"]));
    assert_eq!(d, blake3::hash(b"hello").to_hex().as_str());
    assert_eq!(d.len(), 64);
    assert!(d.chars().all(|c| c.is_ascii_digit() || ('a'..='f').contains(&c)));
}

#[test]
fn digest_does_not_depend_on_buffer_size() {
    let whole = digest_chunks(&chunks(&[b"hello world"]));
    let bytes: Vec<Vec<u8>> = b"hello world".iter().map(|b| vec![*b]).collect();
    assert_eq!(digest_chunks(&bytes), whole);
    assert_eq!(digest_chunks(&chunks(&[b"hel", b"", b"lo wo", b"rld"])), whole);
    let big: Vec<u8> = (0..10_000u32).map(|i| (i % 251) as u8).collect();
    let one = digest_chunks(&vec![big.clone()]);
    let pieces: Vec<Vec<u8>> = big.chunks(1000).map(|c| c.to_vec()).collect();
    let odd: Vec<Vec<u8>> = big.chunks(333).map(|c| c.to_vec()).collect();
    assert_eq!(digest_chunks(&pieces), one);
    assert_eq!(digest_chunks(&odd), one);
}

#[test]
fn digests_of_contents_one_byte_apart_differ() {
    assert_ne!(digest_chunks(&chunks(&[b"hello"])), digest_chunks(&chunks(&[b"hellp"])));
    assert_ne!(digest_chunks(&chunks(&[b"hello"])), digest_chunks(&chunks(&[b"hello\0"])));
    assert_ne!(digest_chunks(&chunks(&[b"ab"])), digest_chunks(&chunks(&[b"ba"])));
}

#[test]
fn streaming_hasher_agrees_with_chunks() {
    let mut h = ContentHasher::new();
    h.update(b"hel");
    h.update(b"lo");
    assert_eq!(h.finalize(), digest_chunks(&chunks(&[b"hello"])));
    assert_eq!(h.finalize(), h.finalize());
    h.update(b"!");
    assert_eq!(h.finalize(), digest_chunks(&chunks(&[b"hello!"])));
}
