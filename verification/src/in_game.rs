//! The game in progress: levels, the history of typed and mistyped keys,
//! and what a key press does.

use crate::problem::{is_new_problem, set_new_problem, CurrentRomaji, Hiragana, Title};
use crate::sharing::{char_player, key_num_to_char, player_of_key, spec_key_num_to_char, Player};
use crate::status_board::{GameTime, StartTime};
use crate::words::{has_unused_word, words_of, Wordbook};
use std::time::Instant;
use vstd::prelude::*;

verus! {

#[verifier::external_type_specification]
#[verifier::external_body]
pub struct ExInstant(Instant);

/// The difficulty levels, each with a word list of its own.
#[derive(Clone, Copy, Debug, PartialEq, Eq, Structural)]
pub enum Level {
    Easy,
    Medium,
    Hard,
    ExtraHard,
}

/// The level being played.
pub struct LevelResource(pub Level);

/// The indices of the words of the level that are not to be chosen again.
pub struct UsedWordIndexes(pub Vec<usize>);

/// Why a key press was a mistype.
#[derive(Clone, Copy, Debug, PartialEq)]
pub enum MistypeReason {
    /// The key belongs to the other player.
    Opposite,
    /// The key does not continue the romaji of the problem.
    InvalidChar { key_num: u8 },
}

/// What a recorded key press was.
#[derive(Clone, Copy, Debug, PartialEq)]
pub enum EventType {
    Success { key_num: u8 },
    MisType { reason: MistypeReason },
}

/// A recorded key press: by which player, when, and what it was.
#[derive(Clone, Copy, Debug, PartialEq)]
pub struct Event {
    pub is_left: bool,
    pub time: Instant,
    pub type_: EventType,
}

/// Every recorded key press of the game, in order.
pub struct History {
    pub list: Vec<Event>,
}

/// The state of a game in progress.
pub struct InGame {
    pub level: LevelResource,
    pub used_word_indexes: UsedWordIndexes,
    pub title: Title,
    pub hiragana: Hiragana,
    pub romaji: CurrentRomaji,
    pub history: History,
}

/// A key press that continues the romaji, waiting for the romaji parser to
/// judge the romaji typed with it.
pub struct PendingKey {
    pub is_left: bool,
    pub key_num: u8,
    /// The romaji typed so far followed by the character of the key.
    pub candidate: String,
}

/// What a key press led to before the romaji is judged.
pub enum KeyPress {
    /// The key types no character: nothing happens.
    Ignored,
    /// The key belongs to the other player: recorded as a mistype.
    Opposite,
    /// The romaji with the key's character is to be judged.
    Pending(PendingKey),
}

/// What the romaji parser answered for the hiragana of the problem and a
/// candidate romaji.
#[derive(Clone, Copy, Debug, PartialEq, Eq, Structural)]
pub enum RomajiVerdict {
    /// The romaji is a correct beginning of the hiragana.
    Writing,
    /// The romaji spells the whole hiragana.
    Completed,
    /// The romaji does not fit the hiragana.
    Invalid,
}

/// The keyboard with id 0 is the left player's, the one with id 1 the right
/// player's; a key of the other player typed on either is a mistype.
pub open spec fn is_opposite(player: Player, kb_id: usize) -> bool {
    (player == Player::Right && kb_id == 0) || (player == Player::Left && kb_id == 1)
}

/// On the two players' keyboards a key is only taken from its owner: the
/// left player's keys from keyboard 0, the right player's from keyboard 1.
pub proof fn lemma_keys_taken_from_owner(key_num: u8, kb_id: usize)
    requires
        spec_key_num_to_char(key_num) is Some,
        kb_id == 0 || kb_id == 1,
        !is_opposite(player_of_key(key_num).unwrap(), kb_id),
    ensures
        player_of_key(key_num) == Some(if kb_id == 0 { Player::Left } else { Player::Right }),
{
    crate::sharing::lemma_key_num_round_trip(key_num);
    crate::sharing::lemma_key_char_has_player(
        crate::sharing::ascii_upper(spec_key_num_to_char(key_num).unwrap()),
    );
}

/// Keyboard 0 may not type the right player's keys and keyboard 1 not the
/// left player's; any other keyboard may type every key.
pub proof fn lemma_opposite_keyboards(player: Player, kb_id: usize)
    ensures
        kb_id == 0 ==> (is_opposite(player, kb_id) <==> player == Player::Right),
        kb_id == 1 ==> (is_opposite(player, kb_id) <==> player == Player::Left),
        kb_id != 0 && kb_id != 1 ==> !is_opposite(player, kb_id),
{
}

/// The event recorded for a key press on keyboard `kb_id`.
pub open spec fn event_of(kb_id: usize, time: Instant, type_: EventType) -> Event {
    Event { is_left: kb_id == 0, time, type_ }
}

/// An event is the left player's exactly when its key came from keyboard 0.
pub proof fn lemma_event_side(kb_id: usize, time: Instant, type_: EventType)
    ensures
        event_of(kb_id, time, type_).is_left <==> kb_id == 0,
        event_of(kb_id, time, type_).time == time,
        event_of(kb_id, time, type_).type_ == type_,
{
}

/// Starts a game on the level at `now`: sixty seconds to play, nothing
/// recorded, no word used, and a first problem of the level. The level
/// needs a word.
pub fn start_ingame(book: &Wordbook, level: LevelResource, now: Instant) -> (res: (
    InGame,
    StartTime,
    GameTime,
))
    requires
        words_of(*book, level.0).len() > 0,
    ensures
        res.0.level == level,
        res.0.used_word_indexes.0@ == Seq::<usize>::empty(),
        res.0.history.list@ == Seq::<Event>::empty(),
        is_new_problem(
            *book,
            level.0,
            Seq::empty(),
            res.0.title,
            res.0.hiragana,
            res.0.romaji,
        ),
        res.1.0 == now,
        res.2.0 == 60,
{
    let used_word_indexes = UsedWordIndexes(Vec::new());
    assert(!used_word_indexes.0@.contains(0int as usize));
    assert(has_unused_word(*book, level.0, used_word_indexes.0@));
    let (title, hiragana, romaji) = set_new_problem(book, &level, &used_word_indexes);
    let game = InGame {
        level,
        used_word_indexes,
        title,
        hiragana,
        romaji,
        history: History { list: Vec::new() },
    };
    (game, StartTime(now), GameTime(60))
}

/// What a key press does: see [`InGame::press_key`].
pub open spec fn pressed(
    old: InGame,
    new: InGame,
    kb_id: usize,
    key_num: u8,
    now: Instant,
    res: KeyPress,
) -> bool {
    match spec_key_num_to_char(key_num) {
        None => res is Ignored && new == old,
        Some(c) => if is_opposite(player_of_key(key_num).unwrap(), kb_id) {
            &&& res is Opposite
            &&& new.history.list@ == old.history.list@.push(
                event_of(kb_id, now, EventType::MisType { reason: MistypeReason::Opposite }),
            )
            &&& new.level == old.level
            &&& new.used_word_indexes == old.used_word_indexes
            &&& new.title == old.title
            &&& new.hiragana == old.hiragana
            &&& new.romaji == old.romaji
        } else {
            &&& res matches KeyPress::Pending(p) && p.is_left == (kb_id == 0) && p.key_num
                == key_num && p.candidate@ == old.romaji.0@.push(c)
            &&& new == old
        },
    }
}

/// What settling a pending key does: see [`InGame::settle_key`].
pub open spec fn settled(
    old: InGame,
    new: InGame,
    book: Wordbook,
    pending: PendingKey,
    verdict: RomajiVerdict,
    now: Instant,
) -> bool {
    &&& new.level == old.level
    &&& new.used_word_indexes == old.used_word_indexes
    &&& new.history.list@ == old.history.list@.push(
        Event {
            is_left: pending.is_left,
            time: now,
            type_: match verdict {
                RomajiVerdict::Invalid => EventType::MisType {
                    reason: MistypeReason::InvalidChar { key_num: pending.key_num },
                },
                _ => EventType::Success { key_num: pending.key_num },
            },
        },
    )
    &&& match verdict {
        RomajiVerdict::Writing => {
            &&& new.title == old.title
            &&& new.hiragana == old.hiragana
            &&& new.romaji.0@ == pending.candidate@
        },
        RomajiVerdict::Completed => is_new_problem(
            book,
            old.level.0,
            old.used_word_indexes.0@,
            new.title,
            new.hiragana,
            new.romaji,
        ),
        RomajiVerdict::Invalid => {
            &&& new.title == old.title
            &&& new.hiragana == old.hiragana
            &&& new.romaji == old.romaji
        },
    }
}

/// The romaji typed so far is what the romaji parser `accepts` keeps:
/// nothing yet, or a correct beginning of the hiragana of the problem.
pub open spec fn romaji_kept(
    accepts: spec_fn(Seq<char>, Seq<char>) -> RomajiVerdict,
    game: InGame,
) -> bool {
    game.romaji.0@ == Seq::<char>::empty() || accepts(game.hiragana.0@, game.romaji.0@)
        == RomajiVerdict::Writing
}

/// A key press, settled with the romaji parser's verdict on its candidate
/// when it is pending, keeps the typed romaji something the parser keeps,
/// and only appends to the history, at most one event; the level and the
/// used words stay as they are.
pub proof fn lemma_key_press_keeps_romaji(
    accepts: spec_fn(Seq<char>, Seq<char>) -> RomajiVerdict,
    book: Wordbook,
    before: InGame,
    pressed_state: InGame,
    after: InGame,
    kb_id: usize,
    key_num: u8,
    now: Instant,
    res: KeyPress,
    settle_time: Instant,
)
    requires
        romaji_kept(accepts, before),
        pressed(before, pressed_state, kb_id, key_num, now, res),
        match res {
            KeyPress::Pending(p) => settled(
                pressed_state,
                after,
                book,
                p,
                accepts(pressed_state.hiragana.0@, p.candidate@),
                settle_time,
            ),
            _ => after == pressed_state,
        },
    ensures
        romaji_kept(accepts, after),
        before.history.list@.is_prefix_of(after.history.list@),
        after.history.list@.len() <= before.history.list@.len() + 1,
        after.level == before.level,
        after.used_word_indexes == before.used_word_indexes,
{
}

/// Appends a character to a string: `String::push`.
#[verifier::external_body]
fn push_char(s: &mut String, c: char)
    ensures
        final(s)@ == old(s)@.push(c),
{
    s.push(c)
}

impl InGame {
    /// A key with number `key_num` was pressed on keyboard `kb_id` at `now`.
    /// A key that types no character is ignored; a key of the other player
    /// is recorded as a mistype; otherwise the romaji typed so far followed
    /// by the key's character is handed back to be judged, and nothing
    /// changes yet.
    pub fn press_key(&mut self, kb_id: usize, key_num: u8, now: Instant) -> (res: KeyPress)
        ensures
            pressed(*old(self), *final(self), kb_id, key_num, now, res),
    {
        let c: char = match key_num_to_char(key_num) {
            Some(c) => c,
            None => return KeyPress::Ignored,
        };
        proof {
            crate::sharing::lemma_key_num_round_trip(key_num);
            crate::sharing::lemma_key_char_has_player(crate::sharing::ascii_upper(c));
        }
        let player: Player = char_player(c).unwrap();
        if (player == Player::Right && kb_id == 0) || (player == Player::Left && kb_id == 1) {
            self.history.list.push(
                Event {
                    is_left: kb_id == 0,
                    time: now,
                    type_: EventType::MisType { reason: MistypeReason::Opposite },
                },
            );
            return KeyPress::Opposite;
        }
        let mut candidate: String = self.romaji.0.clone();
        push_char(&mut candidate, c);
        KeyPress::Pending(PendingKey { is_left: kb_id == 0, key_num, candidate })
    }

    /// Applies the parser's verdict on a pending key press at `now`. A
    /// correct beginning becomes the typed romaji; a completed word is
    /// followed by a new problem of the level; both are recorded as typed.
    /// Romaji that does not fit is recorded as a mistype and not kept.
    pub fn settle_key(
        &mut self,
        book: &Wordbook,
        pending: PendingKey,
        verdict: RomajiVerdict,
        now: Instant,
    )
        requires
            verdict == RomajiVerdict::Completed ==> has_unused_word(
                *book,
                old(self).level.0,
                old(self).used_word_indexes.0@,
            ),
        ensures
            settled(*old(self), *final(self), *book, pending, verdict, now),
    {
        match verdict {
            RomajiVerdict::Writing => {
                self.romaji = CurrentRomaji(pending.candidate);
                self.history.list.push(
                    Event {
                        is_left: pending.is_left,
                        time: now,
                        type_: EventType::Success { key_num: pending.key_num },
                    },
                );
            },
            RomajiVerdict::Completed => {
                let (title, hiragana, romaji) = set_new_problem(
                    book,
                    &self.level,
                    &self.used_word_indexes,
                );
                self.title = title;
                self.hiragana = hiragana;
                self.romaji = romaji;
                self.history.list.push(
                    Event {
                        is_left: pending.is_left,
                        time: now,
                        type_: EventType::Success { key_num: pending.key_num },
                    },
                );
            },
            RomajiVerdict::Invalid => {
                self.history.list.push(
                    Event {
                        is_left: pending.is_left,
                        time: now,
                        type_: EventType::MisType {
                            reason: MistypeReason::InvalidChar { key_num: pending.key_num },
                        },
                    },
                );
            },
        }
    }
}

} // verus!
