use canonical_png::digest::sha256_of;
use canonical_png::hex::write_hex;

#[test]
fn digest_of_the_empty_span() {
    let digest = sha256_of(&[]);
    assert_eq!(digest.len(), 32);
    assert_eq!(
        write_hex(&digest),
        "E3B0C44298FC1C149AFBF4C8996FB92427AE41E4649B934CA495991B7852B855"
    );
}

#[test]
fn digest_of_abc() {
    let digest = sha256_of(b"abc");
    assert_eq!(digest.len(), 32);
    assert_eq!(
        write_hex(&digest),
        "BA7816BF8F01CFEA414140DE5DAE2223B00361A396177A9CB410FF61F20015AD"
    );
}

#[test]
fn digest_of_a_span_longer_than_one_block() {
    let digest = sha256_of(b"abcdbcdecdefdefgefghfghighijhijkijkljklmklmnlmnomnopnopq");
    assert_eq!(
        write_hex(&digest),
        "248D6A61D20638B8E5C026930C3E6039A33CE45964FF2167F6ECEDD419DB06C1"
    );
}

#[test]
fn same_span_same_digest() {
    let span: Vec<u8> = vec![7, 1, 250, 0, 0, 33];
    let first = sha256_of(&span);
    let second = sha256_of(&span);
    assert_eq!(first, second);
    assert_eq!(first.len(), 32);
}

#[test]
fn one_changed_byte_changes_the_digest() {
    let span: Vec<u8> = vec![7, 1, 250, 0, 0, 33];
    let mut other = span.clone();
    other[3] = 1;
    assert_ne!(sha256_of(&span), sha256_of(&other));
}

#[test]
fn spans_are_hashed_independently() {
    let before = sha256_of(b"abc");
    let _ = sha256_of(b"something else in between");
    let after = sha256_of(b"abc");
    assert_eq!(before, after);
}
