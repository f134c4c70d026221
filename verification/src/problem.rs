//! The current problem: its title, its reading in hiragana, the romaji typed
//! so far, and how the romaji is shown key by key.

use crate::in_game::{Level, LevelResource, UsedWordIndexes};
use crate::sharing::{ascii_upper, char_player, spec_char_player, uppercase_first, Player};
use crate::words::{choice_word, has_unused_word, words_of, Wordbook};
use vstd::prelude::*;
use vstd::utf8::{
    decode_utf8, encode_utf8, encode_utf8_decode_utf8, encode_utf8_first_scalar,
    encode_utf8_valid_utf8, is_char_boundary, pop_first_scalar,
};

verus! {

/// The word that is shown as the problem.
pub struct Title(pub String);

/// The reading of the problem in hiragana, which the players type in romaji.
pub struct Hiragana(pub String);

/// The romaji typed so far for the current problem.
pub struct CurrentRomaji(pub String);

/// How a typed or pending key is shown: in the colour of the player that
/// owns it (on the easy level), or in plain grey.
#[derive(Clone, Copy, Debug, PartialEq, Eq, Structural)]
pub enum KeyTone {
    LeftConfirmed,
    LeftPending,
    RightConfirmed,
    RightPending,
    PlainConfirmed,
    PlainPending,
}

/// The tone of a key when its owner is known.
pub open spec fn spec_tone(player: Player, is_confirmed: bool, is_easy: bool) -> KeyTone {
    if is_easy {
        match player {
            Player::Left => if is_confirmed { KeyTone::LeftConfirmed } else { KeyTone::LeftPending },
            Player::Right => if is_confirmed { KeyTone::RightConfirmed } else { KeyTone::RightPending },
        }
    } else if is_confirmed {
        KeyTone::PlainConfirmed
    } else {
        KeyTone::PlainPending
    }
}

/// The tone of the romaji character `c`, if it is typed with a key.
pub open spec fn spec_key_tone(c: char, is_confirmed: bool, is_easy: bool) -> Option<KeyTone> {
    match spec_char_player(c) {
        Some(p) => Some(spec_tone(p, is_confirmed, is_easy)),
        None => None,
    }
}

/// The tone shows whether the key is typed, never a typed tone for a
/// pending key nor the reverse; on the easy level it shows the owner of the
/// key, on other levels it is plain grey whoever owns the key.
pub proof fn lemma_tone_shows_typed_and_owner(player: Player, is_confirmed: bool, is_easy: bool)
    ensures
        (spec_tone(player, is_confirmed, is_easy) == KeyTone::LeftConfirmed
            || spec_tone(player, is_confirmed, is_easy) == KeyTone::RightConfirmed
            || spec_tone(player, is_confirmed, is_easy) == KeyTone::PlainConfirmed) == is_confirmed,
        !is_easy ==> spec_tone(player, is_confirmed, is_easy) == (if is_confirmed {
            KeyTone::PlainConfirmed
        } else {
            KeyTone::PlainPending
        }),
        is_easy && player == Player::Left ==> (spec_tone(player, is_confirmed, is_easy)
            == KeyTone::LeftConfirmed || spec_tone(player, is_confirmed, is_easy)
            == KeyTone::LeftPending),
        is_easy && player == Player::Right ==> (spec_tone(player, is_confirmed, is_easy)
            == KeyTone::RightConfirmed || spec_tone(player, is_confirmed, is_easy)
            == KeyTone::RightPending),
{
}

/// The tone in which the romaji character `c` is shown. The owner of the
/// key is looked up even where the tone does not depend on it, so `c` must
/// be typed with a key.
pub fn key_tone(c: char, is_confirmed: bool, is_easy: bool) -> (res: KeyTone)
    requires
        spec_char_player(c) is Some,
    ensures
        res == spec_tone(spec_char_player(c).unwrap(), is_confirmed, is_easy),
        Some(res) == spec_key_tone(c, is_confirmed, is_easy),
        (c as int) < 128 ==> uppercase_first(c) == ascii_upper(c),
{
    let player: Player = char_player(c).unwrap();
    if is_easy {
        match player {
            Player::Left => if is_confirmed { KeyTone::LeftConfirmed } else { KeyTone::LeftPending },
            Player::Right => if is_confirmed { KeyTone::RightConfirmed } else { KeyTone::RightPending },
        }
    } else if is_confirmed {
        KeyTone::PlainConfirmed
    } else {
        KeyTone::PlainPending
    }
}

/// What the romaji parser reports for the hiragana of a problem and the
/// romaji typed so far, keeping the romaji of each part.
pub enum RomajiParse {
    /// Still typing: the parts already done, the part being typed (the
    /// romaji typed of it so far and its full romaji) and the parts after it.
    Writing { confirmed: Vec<String>, buffer: String, romaji: String, tail: Vec<String> },
    /// Every part is typed.
    Completed { parts: Vec<String> },
}

/// The romaji of several parts, one after the other.
pub open spec fn concat_romaji(parts: Seq<String>) -> Seq<char>
    decreases parts.len(),
{
    if parts.len() == 0 {
        Seq::empty()
    } else {
        concat_romaji(parts.drop_last()) + parts.last()@
    }
}

/// The characters of `s` that follow its first `k` bytes in UTF-8.
pub open spec fn chars_after_bytes(s: Seq<char>, k: int) -> Seq<char> {
    decode_utf8(encode_utf8(s).subrange(k, encode_utf8(s).len() as int))
}

/// The romaji split into what is already typed and what remains.
pub open spec fn spec_split_romaji(p: RomajiParse) -> (Seq<char>, Seq<char>) {
    match p {
        RomajiParse::Writing { confirmed, buffer, romaji, tail } => (
            concat_romaji(confirmed@) + buffer@,
            chars_after_bytes(romaji@, encode_utf8(buffer@).len() as int) + concat_romaji(tail@),
        ),
        RomajiParse::Completed { parts } => (concat_romaji(parts@), Seq::empty()),
    }
}

/// The parse can be split: while typing, the typed romaji of the current
/// part ends at a character boundary of its full romaji.
pub open spec fn split_romaji_ok(p: RomajiParse) -> bool {
    match p {
        RomajiParse::Writing { buffer, romaji, .. } => is_char_boundary(
            encode_utf8(romaji@),
            encode_utf8(buffer@).len() as int,
        ),
        RomajiParse::Completed { .. } => true,
    }
}

/// Appends the characters of `s` to `out`.
fn push_chars(out: &mut Vec<char>, s: &str)
    ensures
        final(out)@ == old(out)@ + s@,
{
    let n: usize = s.unicode_len();
    let mut i: usize = 0;
    while i < n
        invariant
            n == s@.len(),
            i <= n,
            out@ == old(out)@ + s@.subrange(0, i as int),
        decreases n - i,
    {
        let c: char = s.get_char(i);
        out.push(c);
        assert(s@.subrange(0, i + 1) =~= s@.subrange(0, i as int).push(c));
        i = i + 1;
    }
    assert(s@.subrange(0, n as int) =~= s@);
}

/// Appends the romaji of every part to `out`.
fn push_parts(out: &mut Vec<char>, parts: &Vec<String>)
    ensures
        final(out)@ == old(out)@ + concat_romaji(parts@),
{
    let n: usize = parts.len();
    let mut i: usize = 0;
    while i < n
        invariant
            n == parts@.len(),
            i <= n,
            out@ == old(out)@ + concat_romaji(parts@.subrange(0, i as int)),
        decreases n - i,
    {
        push_chars(out, parts[i].as_str());
        proof {
            let pre = parts@.subrange(0, i as int);
            let post = parts@.subrange(0, i + 1);
            assert(post.drop_last() =~= pre);
            assert(post.last() == parts@[i as int]);
            assert(out@ =~= old(out)@ + concat_romaji(post));
        }
        i = i + 1;
    }
    assert(parts@.subrange(0, n as int) =~= parts@);
}

/// Splits the romaji of a parse into the characters already typed and the
/// characters still to type, in order.
pub fn split_romaji(p: &RomajiParse) -> (res: (Vec<char>, Vec<char>))
    requires
        split_romaji_ok(*p),
    ensures
        res.0@ == spec_split_romaji(*p).0,
        res.1@ == spec_split_romaji(*p).1,
{
    match p {
        RomajiParse::Writing { confirmed, buffer, romaji, tail } => {
            let mut done: Vec<char> = Vec::new();
            push_parts(&mut done, confirmed);
            push_chars(&mut done, buffer.as_str());
            let typed_bytes: usize = buffer.as_str().as_bytes().len();
            let (_, after) = romaji.as_str().split_at(typed_bytes);
            let mut rest: Vec<char> = Vec::new();
            push_chars(&mut rest, after);
            proof {
                encode_utf8_decode_utf8(after@);
            }
            push_parts(&mut rest, tail);
            (done, rest)
        },
        RomajiParse::Completed { parts } => {
            let mut done: Vec<char> = Vec::new();
            push_parts(&mut done, parts);
            (done, Vec::new())
        },
    }
}

/// A word of `level` whose index is not in `used`, shown as the new
/// problem with nothing typed yet.
pub open spec fn is_new_problem(
    book: Wordbook,
    level: Level,
    used: Seq<usize>,
    title: Title,
    hiragana: Hiragana,
    romaji: CurrentRomaji,
) -> bool {
    exists|i: int|
        0 <= i < words_of(book, level).len() && !used.contains(i as usize) && title.0@
            == (#[trigger] words_of(book, level)[i]).0@ && hiragana.0@ == words_of(book, level)[i].1@
            && romaji.0@ == Seq::<char>::empty()
}

/// Sets a new problem: a word of the level chosen at random among the
/// unused ones, with its title, its hiragana, and no romaji typed yet.
/// The chosen word is not added to the used ones.
pub fn set_new_problem(
    book: &Wordbook,
    level_resource: &LevelResource,
    used_word_indexes_resource: &UsedWordIndexes,
) -> (res: (Title, Hiragana, CurrentRomaji))
    requires
        has_unused_word(*book, level_resource.0, used_word_indexes_resource.0@),
    ensures
        is_new_problem(
            *book,
            level_resource.0,
            used_word_indexes_resource.0@,
            res.0,
            res.1,
            res.2,
        ),
{
    let word = choice_word(book, level_resource.0, &used_word_indexes_resource.0);
    let (title, hiragana, _) = word;
    (Title(title), Hiragana(hiragana), CurrentRomaji(String::new()))
}

/// The romaji of the problem as shown: every character of what is typed,
/// then of what remains, each with its tone.
pub open spec fn sections_match(
    sections: Seq<(char, KeyTone)>,
    done: Seq<char>,
    rest: Seq<char>,
    is_easy: bool,
) -> bool {
    &&& sections.len() == done.len() + rest.len()
    &&& forall|i: int|
        0 <= i < done.len() ==> #[trigger] sections[i] == (done[i], spec_key_tone(done[i], true, is_easy).unwrap())
    &&& forall|i: int|
        0 <= i < rest.len() ==> #[trigger] sections[done.len() + i] == (
            rest[i],
            spec_key_tone(rest[i], false, is_easy).unwrap(),
        )
}

/// Every character of `chars` is typed with a key.
pub open spec fn all_keyed(chars: Seq<char>) -> bool {
    forall|i: int| 0 <= i < chars.len() ==> (#[trigger] spec_char_player(chars[i])) is Some
}

/// The uppercase of every ASCII character of `chars` is its ASCII uppercase.
pub open spec fn ascii_uppercased(chars: Seq<char>) -> bool {
    forall|i: int|
        0 <= i < chars.len() && (chars[i] as int) < 128 ==> #[trigger] uppercase_first(chars[i])
            == ascii_upper(chars[i])
}

/// Whether every character of `chars` is typed with a key; every character
/// is looked up.
fn chars_keyed(chars: &Vec<char>) -> (ok: bool)
    ensures
        ok == all_keyed(chars@),
        ascii_uppercased(chars@),
{
    let n: usize = chars.len();
    let mut ok: bool = true;
    let mut i: usize = 0;
    while i < n
        invariant
            n == chars@.len(),
            i <= n,
            ok == forall|k: int| 0 <= k < i ==> (#[trigger] spec_char_player(chars@[k])) is Some,
            forall|k: int|
                0 <= k < i && (chars@[k] as int) < 128 ==> #[trigger] uppercase_first(chars@[k])
                    == ascii_upper(chars@[k]),
        decreases n - i,
    {
        let found = char_player(chars[i]);
        if found.is_none() {
            ok = false;
        }
        i = i + 1;
    }
    ok
}

/// Appends each character of `chars` with its tone.
fn push_sections(out: &mut Vec<(char, KeyTone)>, chars: &Vec<char>, is_confirmed: bool, is_easy: bool)
    requires
        all_keyed(chars@),
    ensures
        final(out)@.len() == old(out)@.len() + chars@.len(),
        forall|i: int| 0 <= i < old(out)@.len() ==> final(out)@[i] == old(out)@[i],
        forall|i: int|
            0 <= i < chars@.len() ==> #[trigger] final(out)@[old(out)@.len() + i] == (
                chars@[i],
                spec_key_tone(chars@[i], is_confirmed, is_easy).unwrap(),
            ),
{
    let n: usize = chars.len();
    let mut i: usize = 0;
    while i < n
        invariant
            n == chars@.len(),
            i <= n,
            all_keyed(chars@),
            out@.len() == old(out)@.len() + i,
            forall|k: int| 0 <= k < old(out)@.len() ==> out@[k] == old(out)@[k],
            forall|k: int|
                0 <= k < i ==> #[trigger] out@[old(out)@.len() + k] == (
                    chars@[k],
                    spec_key_tone(chars@[k], is_confirmed, is_easy).unwrap(),
                ),
        decreases n - i,
    {
        let c: char = chars[i];
        let tone: KeyTone = key_tone(c, is_confirmed, is_easy);
        out.push((c, tone));
        i = i + 1;
    }
}

/// The romaji of the problem as shown, character by character with its
/// tone: the typed characters first, then the remaining ones; coloured by
/// player on the easy level. `None` when a character is typed with no key.
pub fn romaji_sections(p: &RomajiParse, level: &LevelResource) -> (res: Option<Vec<(char, KeyTone)>>)
    requires
        split_romaji_ok(*p),
    ensures
        ascii_uppercased(spec_split_romaji(*p).0),
        ascii_uppercased(spec_split_romaji(*p).1),
        res is Some <==> all_keyed(spec_split_romaji(*p).0) && all_keyed(spec_split_romaji(*p).1),
        res matches Some(v) ==> sections_match(
            v@,
            spec_split_romaji(*p).0,
            spec_split_romaji(*p).1,
            level.0 == Level::Easy,
        ),
{
    let (done, rest) = split_romaji(p);
    let done_keyed: bool = chars_keyed(&done);
    let rest_keyed: bool = chars_keyed(&rest);
    if !done_keyed || !rest_keyed {
        return None;
    }
    let is_easy: bool = level.0 == Level::Easy;
    let mut secs: Vec<(char, KeyTone)> = Vec::new();
    push_sections(&mut secs, &done, true, is_easy);
    let ghost first = secs@;
    push_sections(&mut secs, &rest, false, is_easy);
    assert forall|i: int| 0 <= i < done@.len() implies #[trigger] secs@[i] == (
        done@[i],
        spec_key_tone(done@[i], true, is_easy).unwrap(),
    ) by {
        assert(first[0 + i] == first[i]);
    }
    Some(secs)
}

/// The romaji of no parts is empty; one part more adds its romaji at the
/// end.
pub proof fn lemma_concat_romaji_push(parts: Seq<String>, s: String)
    ensures
        concat_romaji(Seq::empty()) == Seq::<char>::empty(),
        concat_romaji(parts.push(s)) == concat_romaji(parts) + s@,
{
    assert(parts.push(s).drop_last() =~= parts);
}

/// While typing, the typed characters are the romaji of the confirmed parts
/// followed by what is typed of the current part, however many parts are
/// confirmed; when that begins the current part's romaji, the remaining
/// characters are the rest of it followed by the romaji of the parts after
/// it. Once completed, every part is typed and nothing remains.
pub proof fn lemma_split_romaji_parts(
    confirmed: Vec<String>,
    buffer: String,
    romaji: String,
    tail: Vec<String>,
    parts: Vec<String>,
)
    ensures
        spec_split_romaji(RomajiParse::Writing { confirmed, buffer, romaji, tail }).0
            == concat_romaji(confirmed@) + buffer@,
        buffer@.is_prefix_of(romaji@) ==> spec_split_romaji(
            RomajiParse::Writing { confirmed, buffer, romaji, tail },
        ).1 == romaji@.skip(buffer@.len() as int) + concat_romaji(tail@),
        spec_split_romaji(RomajiParse::Completed { parts }).0 == concat_romaji(parts@),
        spec_split_romaji(RomajiParse::Completed { parts }).1 == Seq::<char>::empty(),
{
    let p = RomajiParse::Writing { confirmed, buffer, romaji, tail };
    if buffer@.is_prefix_of(romaji@) {
        let rest = romaji@.skip(buffer@.len() as int);
        assert(romaji@ =~= buffer@ + rest);
        lemma_encode_utf8_concat(buffer@, rest);
        let bytes = encode_utf8(romaji@);
        let k = encode_utf8(buffer@).len() as int;
        assert(bytes.subrange(k, bytes.len() as int) =~= encode_utf8(rest));
        encode_utf8_decode_utf8(rest);
    }
}

/// The whole romaji of a parse: every part, the current one in full.
pub open spec fn whole_romaji(p: RomajiParse) -> Seq<char> {
    match p {
        RomajiParse::Writing { confirmed, romaji, tail, .. } => concat_romaji(confirmed@) + romaji@
            + concat_romaji(tail@),
        RomajiParse::Completed { parts } => concat_romaji(parts@),
    }
}

/// While typing, what is typed of the current part begins its romaji.
pub open spec fn typed_is_prefix(p: RomajiParse) -> bool {
    match p {
        RomajiParse::Writing { buffer, romaji, .. } => buffer@.is_prefix_of(romaji@),
        RomajiParse::Completed { .. } => true,
    }
}

proof fn lemma_encode_utf8_concat(a: Seq<char>, b: Seq<char>)
    ensures
        encode_utf8(a + b) == encode_utf8(a) + encode_utf8(b),
    decreases a.len(),
{
    if a.len() == 0 {
        assert(a + b =~= b);
        assert(encode_utf8(a) + encode_utf8(b) =~= encode_utf8(b));
    } else {
        assert((a + b).drop_first() =~= a.drop_first() + b);
        assert((a + b)[0] == a[0]);
        lemma_encode_utf8_concat(a.drop_first(), b);
        assert(encode_utf8(a + b) =~= encode_utf8(a) + encode_utf8(b));
    }
}

proof fn lemma_boundary_after_prefix(a: Seq<char>, b: Seq<char>)
    ensures
        is_char_boundary(encode_utf8(a + b), encode_utf8(a).len() as int),
    decreases a.len(),
{
    broadcast use encode_utf8_valid_utf8;

    if a.len() == 0 {
    } else {
        let ab = a + b;
        let bytes = encode_utf8(ab);
        encode_utf8_first_scalar(ab);
        assert(ab[0] == a[0]);
        assert(ab.drop_first() =~= a.drop_first() + b);
        assert(pop_first_scalar(bytes) =~= encode_utf8(ab.drop_first()));
        lemma_encode_utf8_concat(a, b);
        lemma_boundary_after_prefix(a.drop_first(), b);
    }
}

/// When what is typed of the current part begins its romaji, the typed
/// characters followed by the remaining ones are the whole romaji.
pub proof fn lemma_split_romaji_whole(p: RomajiParse)
    requires
        typed_is_prefix(p),
    ensures
        split_romaji_ok(p),
        spec_split_romaji(p).0 + spec_split_romaji(p).1 == whole_romaji(p),
{
    match p {
        RomajiParse::Writing { confirmed, buffer, romaji, tail } => {
            let rest = romaji@.skip(buffer@.len() as int);
            assert(romaji@ =~= buffer@ + rest);
            lemma_boundary_after_prefix(buffer@, rest);
            lemma_encode_utf8_concat(buffer@, rest);
            let bytes = encode_utf8(romaji@);
            let k = encode_utf8(buffer@).len() as int;
            assert(bytes.subrange(k, bytes.len() as int) =~= encode_utf8(rest));
            encode_utf8_decode_utf8(rest);
            assert(chars_after_bytes(romaji@, k) == rest);
            assert(spec_split_romaji(p).0 + spec_split_romaji(p).1 =~= whole_romaji(p));
        },
        RomajiParse::Completed { parts } => {
            assert(spec_split_romaji(p).0 + spec_split_romaji(p).1 =~= whole_romaji(p));
        },
    }
}

} // verus!
