use std::time::Instant;
use twin_type::in_game::{
    start_ingame, Event, EventType, InGame, KeyPress, Level, LevelResource, MistypeReason,
    RomajiVerdict,
};
use twin_type::problem::{set_new_problem, Title};
use twin_type::in_game::UsedWordIndexes;
use twin_type::status_board::{calc_score, GameTime};
use twin_type::words::{choice_word, pick_unused, unused_word_left, Wordbook};

fn word(a: &str, b: &str, c: &str) -> (String, String, String) {
    (a.to_string(), b.to_string(), c.to_string())
}

fn book() -> Wordbook {
    Wordbook {
        easy: vec![word("イヌ", "いぬ", "inu")],
        medium: vec![word("ネコ", "ねこ", "neko"), word("トリ", "とり", "tori")],
        hard: vec![
            word("スケルトン", "すけるとん", "sukeruton"),
            word("リンゴ", "りんご", "ringo"),
            word("ミカン", "みかん", "mikan"),
        ],
        extra_hard: vec![],
    }
}

fn game(level: Level) -> InGame {
    let (g, _, _) = start_ingame(&book(), LevelResource(level), Instant::now());
    g
}

#[test]
fn pick_unused_takes_the_first_free_index() {
    assert_eq!(pick_unused(&vec![2, 0, 1], &vec![2]), Some(0));
    assert_eq!(pick_unused(&vec![2, 0, 1], &vec![]), Some(2));
    assert_eq!(pick_unused(&vec![2, 0, 1], &vec![0, 1, 2]), None);
    assert_eq!(pick_unused(&vec![], &vec![]), None);
}

#[test]
fn choice_word_avoids_used_words() {
    let b = book();
    for _ in 0..20 {
        assert_eq!(choice_word(&b, Level::Hard, &vec![0, 2]), word("リンゴ", "りんご", "ringo"));
        let w = choice_word(&b, Level::Medium, &vec![]);
        assert!(w == b.medium[0] || w == b.medium[1]);
    }
    assert_eq!(choice_word(&b, Level::Easy, &vec![5]), word("イヌ", "いぬ", "inu"));
}

#[test]
fn set_new_problem_starts_with_no_romaji() {
    let (title, hiragana, romaji) =
        set_new_problem(&book(), &LevelResource(Level::Easy), &UsedWordIndexes(vec![]));
    assert_eq!(title.0, "イヌ");
    assert_eq!(hiragana.0, "いぬ");
    assert_eq!(romaji.0, "");
}

#[test]
fn start_ingame_sets_up_a_fresh_game() {
    let now = Instant::now();
    let (g, start, time) = start_ingame(&book(), LevelResource(Level::Easy), now);
    assert_eq!(g.level.0, Level::Easy);
    assert!(g.used_word_indexes.0.is_empty());
    assert!(g.history.list.is_empty());
    assert_eq!(g.title.0, "イヌ");
    assert_eq!(g.hiragana.0, "いぬ");
    assert_eq!(g.romaji.0, "");
    assert_eq!(start.0, now);
    assert_eq!(time.0, 60);
    let _: GameTime = time;
}

#[test]
fn press_key_ignores_keys_without_a_character() {
    let mut g = game(Level::Easy);
    assert!(matches!(g.press_key(0, 0, Instant::now()), KeyPress::Ignored));
    assert!(matches!(g.press_key(1, 45, Instant::now()), KeyPress::Ignored));
    assert!(g.history.list.is_empty());
    assert_eq!(g.romaji.0, "");
}

#[test]
fn press_key_of_the_other_player_is_a_mistype() {
    let mut g = game(Level::Easy);
    let now = Instant::now();
    // 'i' (key 15) belongs to the right player, typed on the left keyboard
    assert!(matches!(g.press_key(0, 15, now), KeyPress::Opposite));
    assert_eq!(
        g.history.list,
        vec![Event { is_left: true, time: now, type_: EventType::MisType { reason: MistypeReason::Opposite } }]
    );
    // 'a' (key 7) belongs to the left player, typed on the right keyboard
    assert!(matches!(g.press_key(1, 7, now), KeyPress::Opposite));
    assert_eq!(g.history.list.len(), 2);
    assert!(!g.history.list[1].is_left);
    assert_eq!(g.romaji.0, "");
}

#[test]
fn press_key_hands_back_the_candidate_romaji() {
    let mut g = game(Level::Easy);
    match g.press_key(1, 15, Instant::now()) {
        KeyPress::Pending(p) => {
            assert!(!p.is_left);
            assert_eq!(p.key_num, 15);
            assert_eq!(p.candidate, "i");
        }
        _ => panic!("expected a pending key"),
    }
    assert!(g.history.list.is_empty());
    // a keyboard other than the two players' is never opposite
    match g.press_key(7, 7, Instant::now()) {
        KeyPress::Pending(p) => {
            assert!(!p.is_left);
            assert_eq!(p.candidate, "a");
        }
        _ => panic!("expected a pending key"),
    }
}

#[test]
fn settle_key_writing_keeps_the_romaji() {
    let b = book();
    let mut g = game(Level::Easy);
    let now = Instant::now();
    let KeyPress::Pending(p) = g.press_key(1, 15, now) else { panic!("expected a pending key") };
    g.settle_key(&b, p, RomajiVerdict::Writing, now);
    assert_eq!(g.romaji.0, "i");
    assert_eq!(g.title.0, "イヌ");
    assert_eq!(
        g.history.list,
        vec![Event { is_left: false, time: now, type_: EventType::Success { key_num: 15 } }]
    );
    assert_eq!(calc_score(&g.history), 2);
}

#[test]
fn settle_key_invalid_is_a_mistype() {
    let b = book();
    let mut g = game(Level::Easy);
    let now = Instant::now();
    let KeyPress::Pending(p) = g.press_key(0, 26, now) else { panic!("expected a pending key") };
    g.settle_key(&b, p, RomajiVerdict::Invalid, now);
    assert_eq!(g.romaji.0, "");
    assert_eq!(
        g.history.list,
        vec![Event { is_left: true, time: now, type_: EventType::MisType { reason: MistypeReason::InvalidChar { key_num: 26 } } }]
    );
    assert_eq!(calc_score(&g.history), -1);
}

#[test]
fn settle_key_completed_sets_a_new_problem() {
    let b = book();
    let mut g = game(Level::Medium);
    g.romaji.0 = "nek".to_string();
    let now = Instant::now();
    let KeyPress::Pending(p) = g.press_key(1, 21, now) else { panic!("expected a pending key") };
    assert_eq!(p.candidate, "neko");
    g.settle_key(&b, p, RomajiVerdict::Completed, now);
    assert_eq!(g.romaji.0, "");
    assert!(g.title.0 == "ネコ" || g.title.0 == "トリ");
    assert!(g.hiragana.0 == "ねこ" || g.hiragana.0 == "とり");
    assert!(g.used_word_indexes.0.is_empty());
    assert_eq!(g.history.list.len(), 1);
    assert_eq!(g.history.list[0].type_, EventType::Success { key_num: 21 });
    let _ = Title(String::new());
}

#[test]
fn unused_word_left_checks_every_index() {
    let b = book();
    assert!(unused_word_left(&b, Level::Hard, &vec![]));
    assert!(unused_word_left(&b, Level::Hard, &vec![0, 2]));
    assert!(!unused_word_left(&b, Level::Hard, &vec![2, 1, 0]));
    assert!(!unused_word_left(&b, Level::ExtraHard, &vec![]));
    assert!(unused_word_left(&b, Level::Easy, &vec![1]));
}
