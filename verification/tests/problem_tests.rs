use twin_type::in_game::{Level, LevelResource};
use twin_type::problem::{key_tone, romaji_sections, split_romaji, KeyTone, RomajiParse};

fn s(x: &str) -> String {
    x.to_string()
}

#[test]
fn key_tone_on_the_easy_level_follows_the_player() {
    assert_eq!(key_tone('a', true, true), KeyTone::LeftConfirmed);
    assert_eq!(key_tone('a', false, true), KeyTone::LeftPending);
    assert_eq!(key_tone('k', true, true), KeyTone::RightConfirmed);
    assert_eq!(key_tone('k', false, true), KeyTone::RightPending);
}

#[test]
fn key_tone_on_other_levels_is_plain() {
    assert_eq!(key_tone('a', true, false), KeyTone::PlainConfirmed);
    assert_eq!(key_tone('k', false, false), KeyTone::PlainPending);
}

#[test]
fn key_tone_of_capitals_and_marks() {
    assert_eq!(key_tone('A', true, true), KeyTone::LeftConfirmed);
    assert_eq!(key_tone('.', false, true), KeyTone::RightPending);
    assert_eq!(key_tone('-', true, false), KeyTone::PlainConfirmed);
}

#[test]
fn split_romaji_while_writing() {
    let p = RomajiParse::Writing {
        confirmed: vec![s("su"), s("ke")],
        buffer: s("r"),
        romaji: s("ru"),
        tail: vec![s("to"), s("nn")],
    };
    let (done, rest) = split_romaji(&p);
    assert_eq!(done, "suker".chars().collect::<Vec<char>>());
    assert_eq!(rest, "utonn".chars().collect::<Vec<char>>());
}

#[test]
fn split_romaji_when_completed() {
    let p = RomajiParse::Completed { parts: vec![s("i"), s("nu")] };
    let (done, rest) = split_romaji(&p);
    assert_eq!(done, vec!['i', 'n', 'u']);
    assert!(rest.is_empty());
}

#[test]
fn split_romaji_with_nothing_typed() {
    let p = RomajiParse::Writing { confirmed: vec![], buffer: s(""), romaji: s("ne"), tail: vec![s("ko")] };
    let (done, rest) = split_romaji(&p);
    assert!(done.is_empty());
    assert_eq!(rest, vec!['n', 'e', 'k', 'o']);
}

#[test]
fn romaji_sections_colour_by_player_on_easy() {
    let p = RomajiParse::Writing { confirmed: vec![s("i")], buffer: s(""), romaji: s("nu"), tail: vec![] };
    let secs = romaji_sections(&p, &LevelResource(Level::Easy)).unwrap();
    assert_eq!(
        secs,
        vec![('i', KeyTone::RightConfirmed), ('n', KeyTone::RightPending), ('u', KeyTone::RightPending)]
    );
    let secs = romaji_sections(&p, &LevelResource(Level::Hard)).unwrap();
    assert_eq!(
        secs,
        vec![('i', KeyTone::PlainConfirmed), ('n', KeyTone::PlainPending), ('u', KeyTone::PlainPending)]
    );
}

#[test]
fn romaji_sections_fail_on_a_char_without_key() {
    let p = RomajiParse::Completed { parts: vec![s("a!")] };
    assert_eq!(romaji_sections(&p, &LevelResource(Level::Easy)), None);
}
