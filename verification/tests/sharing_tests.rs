use twin_type::sharing::{char_player, get_sharing, key_char_to_num, key_num_to_char, Player};

#[test]
fn key_char_to_num_digits_letters_and_marks() {
    assert_eq!(key_char_to_num('0'), Some(33));
    assert_eq!(key_char_to_num('9'), Some(42));
    assert_eq!(key_char_to_num('A'), Some(7));
    assert_eq!(key_char_to_num('Z'), Some(32));
    assert_eq!(key_char_to_num('-'), Some(49));
    assert_eq!(key_char_to_num(','), Some(51));
    assert_eq!(key_char_to_num('.'), Some(50));
}

#[test]
fn key_char_to_num_rejects_other_chars() {
    assert_eq!(key_char_to_num('a'), None);
    assert_eq!(key_char_to_num('|'), None);
    assert_eq!(key_char_to_num(' '), None);
    assert_eq!(key_char_to_num('あ'), None);
}

#[test]
fn key_num_to_char_values() {
    assert_eq!(key_num_to_char(33), Some('0'));
    assert_eq!(key_num_to_char(42), Some('9'));
    assert_eq!(key_num_to_char(7), Some('a'));
    assert_eq!(key_num_to_char(32), Some('z'));
    assert_eq!(key_num_to_char(49), Some('-'));
    assert_eq!(key_num_to_char(51), Some(','));
    assert_eq!(key_num_to_char(50), Some('.'));
    assert_eq!(key_num_to_char(0), None);
    assert_eq!(key_num_to_char(6), None);
    assert_eq!(key_num_to_char(43), None);
    assert_eq!(key_num_to_char(48), None);
    assert_eq!(key_num_to_char(52), None);
    assert_eq!(key_num_to_char(255), None);
}

#[test]
fn key_numbers_round_trip() {
    for num in 0..=255u8 {
        if let Some(c) = key_num_to_char(num) {
            assert_eq!(key_char_to_num(c.to_ascii_uppercase()), Some(num));
        }
    }
}

#[test]
fn sharing_has_every_typed_key() {
    let sharing = get_sharing();
    assert_eq!(sharing.len(), 39);
    for num in 0..=255u8 {
        assert_eq!(sharing.contains_key(&num), key_num_to_char(num).is_some());
    }
}

#[test]
fn sharing_rows_are_split_at_the_bar() {
    let sharing = get_sharing();
    for c in "12345QWERTASDFGZXCVB".chars() {
        assert_eq!(sharing.get(&key_char_to_num(c).unwrap()), Some(&Player::Left));
    }
    for c in "67890-YUIOPHJKLNM,.".chars() {
        assert_eq!(sharing.get(&key_char_to_num(c).unwrap()), Some(&Player::Right));
    }
}

#[test]
fn char_player_uppercases_first() {
    assert_eq!(char_player('q'), Some(Player::Left));
    assert_eq!(char_player('Q'), Some(Player::Left));
    assert_eq!(char_player('p'), Some(Player::Right));
    assert_eq!(char_player('5'), Some(Player::Left));
    assert_eq!(char_player('6'), Some(Player::Right));
    assert_eq!(char_player(','), Some(Player::Right));
    assert_eq!(char_player('!'), None);
    assert_eq!(char_player('|'), None);
}

#[test]
fn char_player_follows_unicode_uppercase() {
    // the long s uppercases to 'S', a key of the left player
    assert_eq!(char_player('\u{17f}'), Some(Player::Left));
    assert_eq!(char_player('あ'), None);
}
