//! Texts and byte strings.
use op_succinct::bytes::{
    cut, push_be_u64, read_be, same_bytes, same_hash, word_at, word_to_u64_saturating,
};
use op_succinct::text::{chars_of, contains_text, same_text};

#[test]
fn texts_are_compared_and_searched_by_characters() {
    assert!(same_text("abc", "abc"));
    assert!(!same_text("abc", "abd"));
    assert!(!same_text("abc", "ab"));
    assert!(contains_text("gr\u{fc}ner Tee", "\u{fc}ner"));
    assert!(contains_text("abc", ""));
    assert!(contains_text("", ""));
    assert!(contains_text("aab", "ab"));
    assert!(!contains_text("ab", "abc"));
    assert!(!contains_text("acb", "ab"));
    assert_eq!(chars_of("a\u{fc}"), vec!['a', '\u{fc}']);
}

#[test]
fn byte_strings_are_cut_and_compared() {
    let bytes: Vec<u8> = (0..40).collect();
    assert_eq!(cut(&bytes, 2, 5), vec![2, 3, 4]);
    assert_eq!(cut(&bytes, 40, 40), Vec::<u8>::new());
    assert_eq!(word_at(&bytes, 8)[0], 8);
    assert_eq!(word_at(&bytes, 8)[31], 39);
    assert!(same_bytes(&[1, 2], &[1, 2]));
    assert!(!same_bytes(&[1, 2], &[1, 3]));
    assert!(!same_bytes(&[1, 2], &[1]));
    assert!(same_hash(&[1; 32], &[1; 32]));
    assert!(!same_hash(&[1; 32], &[2; 32]));
}

#[test]
fn numbers_are_big_endian() {
    assert_eq!(read_be(&[]), 0);
    assert_eq!(read_be(&[1, 2]), 0x102);
    assert_eq!(read_be(&[0xff; 8]), u64::MAX);
    let mut word = [0; 32];
    word[30] = 1;
    assert_eq!(word_to_u64_saturating(&word), 256);
    word[0] = 1;
    assert_eq!(word_to_u64_saturating(&word), u64::MAX);
    let mut out = vec![9];
    push_be_u64(&mut out, 0x0102_0304_0506_0708);
    assert_eq!(out, vec![9, 1, 2, 3, 4, 5, 6, 7, 8]);
}
