//! Which keys belong to which player, and the numbering of keys.

use std::collections::HashMap;
use vstd::prelude::*;

verus! {

/// The two players that share one keyboard layout.
#[derive(Clone, Copy, Debug, PartialEq, Eq, Structural)]
pub enum Player {
    Left,
    Right,
}

/// The key number of a key character (digits, capital letters, `-`, `,`, `.`).
pub open spec fn spec_key_char_to_num(c: char) -> Option<u8> {
    if '0' <= c && c <= '9' {
        Some((c as int - '0' as int + 33) as u8)
    } else if 'A' <= c && c <= 'Z' {
        Some((c as int - 'A' as int + 7) as u8)
    } else if c == '-' {
        Some(49u8)
    } else if c == ',' {
        Some(51u8)
    } else if c == '.' {
        Some(50u8)
    } else {
        None
    }
}

/// The character that a key number types (digits, small letters, `-`, `,`, `.`).
pub open spec fn spec_key_num_to_char(num: u8) -> Option<char> {
    if 33 <= num && num <= 42 {
        Some((num - 33 + '0' as int) as char)
    } else if 7 <= num && num <= 32 {
        Some((num - 7 + 'a' as int) as char)
    } else if num == 49 {
        Some('-')
    } else if num == 51 {
        Some(',')
    } else if num == 50 {
        Some('.')
    } else {
        None
    }
}

/// Maps a key character to its key number.
pub fn key_char_to_num(c: char) -> (res: Option<u8>)
    ensures
        res == spec_key_char_to_num(c),
{
    if '0' <= c && c <= '9' {
        Some((c as u8) - ('0' as u8) + 33)
    } else if 'A' <= c && c <= 'Z' {
        Some((c as u8) - ('A' as u8) + 7)
    } else if c == '-' {
        Some(49)
    } else if c == ',' {
        Some(51)
    } else if c == '.' {
        Some(50)
    } else {
        None
    }
}

/// Maps a key number to the character that it types.
pub fn key_num_to_char(num: u8) -> (res: Option<char>)
    ensures
        res == spec_key_num_to_char(num),
{
    if 33 <= num && num <= 42 {
        Some((num - 33 + ('0' as u8)) as char)
    } else if 7 <= num && num <= 32 {
        Some((num - 7 + ('a' as u8)) as char)
    } else if num == 49 {
        Some('-')
    } else if num == 51 {
        Some(',')
    } else if num == 50 {
        Some('.')
    } else {
        None
    }
}

/// The keyboard layout, one row per line: the keys before `|` belong to the
/// left player, those after it to the right player.
pub const KB_SHARING: &'static str = "\n12345|67890-\nQWERT|YUIOP\nASDFG|HJKL\nZXCVB|NM,.\n";

/// The side that a layout row assigns to a key, written with the
/// character that the key types.
pub open spec fn layout_side(c: char) -> Option<Player> {
    if c == '1' || c == '2' || c == '3' || c == '4' || c == '5' || c == 'q' || c == 'w'
        || c == 'e' || c == 'r' || c == 't' || c == 'a' || c == 's' || c == 'd' || c == 'f'
        || c == 'g' || c == 'z' || c == 'x' || c == 'c' || c == 'v' || c == 'b' {
        Some(Player::Left)
    } else if c == '6' || c == '7' || c == '8' || c == '9' || c == '0' || c == '-' || c == 'y'
        || c == 'u' || c == 'i' || c == 'o' || c == 'p' || c == 'h' || c == 'j' || c == 'k'
        || c == 'l' || c == 'n' || c == 'm' || c == ',' || c == '.' {
        Some(Player::Right)
    } else {
        None
    }
}

/// The player that owns the key with number `num`, if any.
pub open spec fn player_of_key(num: u8) -> Option<Player> {
    match spec_key_num_to_char(num) {
        Some(c) => layout_side(c),
        None => None,
    }
}

/// The whole key sharing as a map from key number to player.
pub open spec fn sharing_spec() -> Map<u8, Player> {
    Map::new(|k: u8| player_of_key(k) is Some, |k: u8| player_of_key(k).unwrap())
}

/// The side that is current after reading the first `n` characters of a
/// layout text: a new line starts on the left, `|` switches to the right.
pub open spec fn side_after(s: Seq<char>, n: nat) -> Player
    decreases n,
{
    if n == 0 {
        Player::Left
    } else if s[n - 1] == '\n' {
        Player::Left
    } else if s[n - 1] == '|' {
        Player::Right
    } else {
        side_after(s, (n - 1) as nat)
    }
}

/// The sharing read from the first `n` characters of a layout text.
pub open spec fn sharing_after(s: Seq<char>, n: nat) -> Map<u8, Player>
    decreases n,
{
    if n == 0 {
        Map::empty()
    } else {
        let prev = sharing_after(s, (n - 1) as nat);
        let c = s[n - 1];
        if c == '\n' || c == '|' {
            prev
        } else {
            match spec_key_char_to_num(c) {
                Some(k) => prev.insert(k, side_after(s, (n - 1) as nat)),
                None => prev,
            }
        }
    }
}

/// Every character of a layout text from position `i` on is a line break,
/// the separator or a key character.
pub closed spec fn layout_chars_ok(s: Seq<char>, i: nat) -> bool
    decreases s.len() - i,
{
    if i >= s.len() {
        true
    } else {
        (s[i as int] == '\n' || s[i as int] == '|' || spec_key_char_to_num(s[i as int]) is Some)
            && layout_chars_ok(s, i + 1)
    }
}

proof fn lemma_layout_chars_ok(s: Seq<char>, i: nat, j: int)
    requires
        layout_chars_ok(s, i),
        i <= j < s.len(),
    ensures
        s[j] == '\n' || s[j] == '|' || spec_key_char_to_num(s[j]) is Some,
    decreases j - i,
{
    if i < j {
        lemma_layout_chars_ok(s, i + 1, j);
    }
}

proof fn lemma_kb_sharing()
    ensures
        KB_SHARING@.len() == 48,
        layout_chars_ok(KB_SHARING@, 0),
        sharing_after(KB_SHARING@, 48) == sharing_spec(),
{
    reveal_strlit("\n12345|67890-\nQWERT|YUIOP\nASDFG|HJKL\nZXCVB|NM,.\n");
    reveal_with_fuel(layout_chars_ok, 49);
    reveal_with_fuel(side_after, 49);
    reveal_with_fuel(sharing_after, 49);
    assert(sharing_after(KB_SHARING@, 48) =~= sharing_spec());
}

/// Reads the key sharing from the keyboard layout [`KB_SHARING`]: every key
/// that a key number types belongs to exactly one player.
pub fn get_sharing() -> (res: HashMap<u8, Player>)
    ensures
        res@ == sharing_after(KB_SHARING@, KB_SHARING@.len()),
        res@ == sharing_spec(),
{
    broadcast use vstd::std_specs::hash::group_hash_axioms;

    let layout: &str = KB_SHARING;
    proof {
        lemma_kb_sharing();
    }
    let n: usize = layout.unicode_len();
    let mut res: HashMap<u8, Player> = HashMap::new();
    let mut side: Player = Player::Left;
    let mut i: usize = 0;
    while i < n
        invariant
            layout@ == KB_SHARING@,
            n == layout@.len(),
            i <= n,
            layout_chars_ok(layout@, 0),
            res@ == sharing_after(layout@, i as nat),
            side == side_after(layout@, i as nat),
        decreases n - i,
    {
        let c: char = layout.get_char(i);
        proof {
            lemma_layout_chars_ok(layout@, 0, i as int);
        }
        if c == '\n' {
            side = Player::Left;
        } else if c == '|' {
            side = Player::Right;
        } else {
            let k: u8 = key_char_to_num(c).unwrap();
            res.insert(k, side);
        }
        i = i + 1;
    }
    res
}

/// What `char::to_uppercase` yields first for `c`.
pub uninterp spec fn uppercase_first(c: char) -> char;

/// Calls `char::to_uppercase` and takes the first character that it yields
/// (the iterator always yields at least one). Trusted: the result is the
/// named uppercase mapping of `c`; for ASCII characters, whose uppercase
/// mapping the standard library documents through `to_ascii_uppercase`,
/// small letters become capital letters and every other ASCII character
/// stays as it is. For other characters the Unicode tables decide, and
/// nothing more is stated here.
#[verifier::external_body]
fn to_uppercase_first(c: char) -> (u: char)
    ensures
        u == uppercase_first(c),
        'a' <= c <= 'z' ==> u as int == c as int - 32,
        (c as int) < 128 && !('a' <= c <= 'z') ==> u == c,
{
    c.to_uppercase().next().unwrap()
}

/// The ASCII uppercase of `c`: small letters become capital letters.
pub open spec fn ascii_upper(c: char) -> char {
    if 'a' <= c && c <= 'z' {
        (c as int - 32) as char
    } else {
        c
    }
}

/// Typing the character of a key number and uppercasing it gives back the
/// key number.
pub proof fn lemma_key_num_round_trip(num: u8)
    requires
        spec_key_num_to_char(num) is Some,
    ensures
        (spec_key_num_to_char(num).unwrap() as int) < 128,
        spec_key_char_to_num(ascii_upper(spec_key_num_to_char(num).unwrap())) == Some(num),
{
}

/// The player that owns the key which types `c`, looked up by the key
/// character that `c` uppercases to.
pub open spec fn spec_char_player(c: char) -> Option<Player> {
    match spec_key_char_to_num(uppercase_first(c)) {
        Some(k) => player_of_key(k),
        None => None,
    }
}

/// Every key character's key number belongs to a player, the one that the
/// layout gives to the character that the key number types.
pub proof fn lemma_key_char_has_player(u: char)
    requires
        spec_key_char_to_num(u) is Some,
    ensures
        player_of_key(spec_key_char_to_num(u).unwrap()) is Some,
        spec_key_num_to_char(spec_key_char_to_num(u).unwrap()) is Some,
{
}

/// The player that owns the key typing `c`: `c` is uppercased, turned into
/// a key number and looked up in [`get_sharing`]. `None` when `c` is no
/// key character.
pub fn char_player(c: char) -> (res: Option<Player>)
    ensures
        res == spec_char_player(c),
        res is Some <==> spec_key_char_to_num(uppercase_first(c)) is Some,
        (c as int) < 128 ==> uppercase_first(c) == ascii_upper(c),
{
    broadcast use vstd::std_specs::hash::group_hash_axioms;

    let sharing = get_sharing();
    let u: char = to_uppercase_first(c);
    match key_char_to_num(u) {
        Some(k) => {
            proof {
                lemma_key_char_has_player(u);
            }
            match sharing.get(&k) {
                Some(p) => Some(*p),
                None => None,
            }
        },
        None => None,
    }
}

/// Keys are numbered in a fixed table: the letters from key 7 on in
/// alphabetical order (typing small letters, named by capitals), the digits
/// from key 33 on in order from `0`, and `-`, `.`, `,` as keys 49, 50, 51;
/// no other key number types a character and no other character has a key.
pub proof fn lemma_key_table()
    ensures
        forall|i: int|
            0 <= i < 26 ==> spec_key_num_to_char((7 + i) as u8) == Some(('a' as int + i) as char)
                && #[trigger] spec_key_char_to_num(('A' as int + i) as char) == Some((7 + i) as u8),
        forall|i: int|
            0 <= i < 10 ==> spec_key_num_to_char((33 + i) as u8) == Some(('0' as int + i) as char)
                && #[trigger] spec_key_char_to_num(('0' as int + i) as char) == Some((33 + i) as u8),
        spec_key_num_to_char(49) == Some('-') && spec_key_char_to_num('-') == Some(49u8),
        spec_key_num_to_char(50) == Some('.') && spec_key_char_to_num('.') == Some(50u8),
        spec_key_num_to_char(51) == Some(',') && spec_key_char_to_num(',') == Some(51u8),
        forall|num: u8|
            #![trigger spec_key_num_to_char(num)]
            spec_key_num_to_char(num) is Some <==> (7 <= num <= 42 || 49 <= num <= 51),
        forall|c: char|
            #![trigger spec_key_char_to_num(c)]
            spec_key_char_to_num(c) is Some <==> ('0' <= c <= '9' || 'A' <= c <= 'Z' || c == '-'
                || c == '.' || c == ','),
{
    assert forall|i: int| 0 <= i < 26 implies spec_key_num_to_char((7 + i) as u8) == Some(
        ('a' as int + i) as char,
    ) && #[trigger] spec_key_char_to_num(('A' as int + i) as char) == Some((7 + i) as u8) by {
        assert((('A' as int + i) as char) as int == 'A' as int + i);
    }
    assert forall|i: int| 0 <= i < 10 implies spec_key_num_to_char((33 + i) as u8) == Some(
        ('0' as int + i) as char,
    ) && #[trigger] spec_key_char_to_num(('0' as int + i) as char) == Some((33 + i) as u8) by {
        assert((('0' as int + i) as char) as int == '0' as int + i);
    }
}

/// The ASCII lowercase of `c`: capital letters become small letters.
pub open spec fn ascii_lower(c: char) -> char {
    if 'A' <= c && c <= 'Z' {
        (c as int + 32) as char
    } else {
        c
    }
}

/// A key belongs to a player exactly when its key number types a character:
/// the layout shares out every key, and no other.
pub proof fn lemma_sharing_covers_typed_keys(num: u8)
    ensures
        sharing_spec().contains_key(num) <==> spec_key_num_to_char(num) is Some,
{
}

/// The key number of a key character types that character in lowercase.
pub proof fn lemma_key_char_round_trip(u: char)
    requires
        spec_key_char_to_num(u) is Some,
    ensures
        spec_key_num_to_char(spec_key_char_to_num(u).unwrap()) == Some(ascii_lower(u)),
{
}

} // verus!
