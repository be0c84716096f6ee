use wordvm::image::words_from_bytes;

#[test]
fn words_are_little_endian() {
    assert_eq!(words_from_bytes(&[0x34, 0x12]), Some(vec![0x1234]));
    assert_eq!(words_from_bytes(&[21, 0, 0, 0]), Some(vec![21, 0]));
    assert_eq!(
        words_from_bytes(&[0x00, 0x80, 0xFF, 0xFF, 0x01, 0x00]),
        Some(vec![32768, 65535, 1])
    );
}

#[test]
fn an_empty_image_has_no_words() {
    assert_eq!(words_from_bytes(&[]), Some(vec![]));
}

#[test]
fn an_odd_number_of_bytes_is_refused() {
    assert_eq!(words_from_bytes(&[1]), None);
    assert_eq!(words_from_bytes(&[1, 2, 3]), None);
}

#[test]
fn every_word_decodes_from_its_bytes() {
    let mut bytes = Vec::new();
    for word in 0..=65535u16 {
        bytes.push((word % 256) as u8);
        bytes.push((word / 256) as u8);
    }
    let words = words_from_bytes(&bytes).unwrap();
    assert_eq!(words.len(), 65536);
    for (i, word) in words.iter().enumerate() {
        assert_eq!(*word as usize, i);
    }
}
