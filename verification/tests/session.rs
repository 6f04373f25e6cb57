use herdr_prevtab::error::FailureKind;
use herdr_prevtab::session::{is_dir_ready, session_dir, spell_hash};
use herdr_prevtab::{session_hash, SESSION_HASH_LEN};

#[test]
fn hash_is_spelled_lowest_digit_first() {
    assert_eq!(&spell_hash(27), b"drehhhhhhhhh");
    assert_eq!(&spell_hash(0), b"hhhhhhhhhhhh");
    assert_eq!(&spell_hash(u64::MAX), b"dddddddddddd");
}

#[test]
fn hash_of_socket_path() {
    assert_eq!(seahash::hash(b"to be or not to be"), 1988685042348123509);
    assert_eq!(&session_hash(b"to be or not to be"), b"eedeeerdrrhe");
    assert_eq!(session_hash(b"").len(), SESSION_HASH_LEN);
}

#[test]
fn only_the_low_bits_count() {
    assert_eq!(spell_hash(5), spell_hash(5 + (1 << 24)));
    assert_ne!(spell_hash(5), spell_hash(5 + (1 << 23)));
}

#[test]
fn hash_is_a_plain_name() {
    let hash = session_hash(b"/run/user/1000/herdr.sock");
    assert!(hash.iter().all(|byte| b"herd".contains(byte)));
    assert!(std::str::from_utf8(&hash).is_ok());
}

#[test]
fn session_directory() {
    let expected = [b"/state/".as_slice(), b"eedeeerdrrhe".as_slice()].concat();
    assert_eq!(session_dir(b"/state", b"to be or not to be"), expected);
    assert_eq!(session_dir(b"/state/", b"to be or not to be"), expected);
}

#[test]
fn directory_may_be_there_before() {
    assert!(is_dir_ready(Ok(())));
    assert!(is_dir_ready(Err(FailureKind::AlreadyExists)));
    for kind in [FailureKind::Other, FailureKind::WouldBlock, FailureKind::TimedOut] {
        assert!(!is_dir_ready(Err(kind)));
    }
}
