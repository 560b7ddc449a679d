use essential_wallet::align_to_word;
use essential_wallet::hash_bytes;
use essential_wallet::hash_words;
use essential_wallet::into_words;
use essential_wallet::is_word_aligned;
use essential_wallet::pad_bytes;
use essential_wallet::Padding;

#[test]
fn empty_is_aligned() {
    assert!(is_word_aligned(&[]));
}

#[test]
fn eight_bytes_are_aligned() {
    assert!(is_word_aligned(&[0u8; 8]));
    assert!(is_word_aligned(&[0u8; 16]));
}

#[test]
fn fifteen_bytes_are_not_aligned() {
    assert!(!is_word_aligned(&[0u8; 15]));
    assert!(!is_word_aligned(&[0u8; 1]));
}

#[test]
fn pad_bytes_start_prepends_zeros() {
    let padded = pad_bytes(vec![1, 2, 3], Padding::Start);
    assert_eq!(padded, vec![0, 0, 0, 0, 0, 1, 2, 3]);
}

#[test]
fn pad_bytes_end_appends_zeros() {
    let padded = pad_bytes(vec![1, 2, 3], Padding::End);
    assert_eq!(padded, vec![1, 2, 3, 0, 0, 0, 0, 0]);
}

#[test]
fn pad_bytes_always_pads_a_full_word_when_aligned() {
    let padded = pad_bytes(vec![9; 8], Padding::End);
    assert_eq!(padded.len(), 16);
    assert_eq!(&padded[..8], &[9; 8]);
    assert_eq!(&padded[8..], &[0; 8]);
}

#[test]
fn align_to_word_keeps_aligned_data_unchanged() {
    let data = vec![7u8; 16];
    assert_eq!(align_to_word(data.clone(), Padding::Start), data);
    assert_eq!(align_to_word(data.clone(), Padding::End), data);
}

#[test]
fn align_to_word_pads_unaligned_data() {
    let aligned = align_to_word(vec![1, 2, 3], Padding::End);
    assert!(is_word_aligned(&aligned));
    assert_eq!(aligned, vec![1, 2, 3, 0, 0, 0, 0, 0]);
}

#[test]
fn into_words_reads_big_endian() {
    assert_eq!(into_words(vec![0, 0, 0, 0, 0, 0, 0, 1], Padding::End), vec![1]);
    assert_eq!(into_words(vec![0xff; 8], Padding::End), vec![-1]);
    assert_eq!(into_words(vec![0u8; 8], Padding::End), vec![0]);
}

#[test]
fn into_words_pads_before_chunking() {
    assert_eq!(into_words(vec![1], Padding::Start), vec![1]);
    assert_eq!(into_words(vec![1], Padding::End), vec![0x0100_0000_0000_0000]);
    assert_eq!(into_words(vec![1, 2], Padding::Start), vec![0x0102]);
}

#[test]
fn hash_bytes_matches_known_sha256() {
    let empty = hash_bytes(&[]);
    assert_eq!(
        hex_of(&empty),
        "e3b0c44298fc1c149afbf4c8996fb92427ae41e4649b934ca495991b7852b855"
    );
    let abc = hash_bytes(b"abc");
    assert_eq!(
        hex_of(&abc),
        "ba7816bf8f01cfea414140de5dae2223b00361a396177a9cb410ff61f20015ad"
    );
}

#[test]
fn hash_words_hashes_the_big_endian_bytes() {
    let from_words = hash_words(&[1]);
    let from_bytes = hash_bytes(&[0, 0, 0, 0, 0, 0, 0, 1]);
    assert_eq!(from_words, from_bytes);

    let from_words = hash_words(&[-1, 2]);
    let mut bytes = vec![0xffu8; 8];
    bytes.extend_from_slice(&[0, 0, 0, 0, 0, 0, 0, 2]);
    assert_eq!(from_words, hash_bytes(&bytes));
}

fn hex_of(bytes: &[u8]) -> String {
    essential_wallet::encode_str(bytes.to_vec(), essential_wallet::Encoding::Hex)
}
