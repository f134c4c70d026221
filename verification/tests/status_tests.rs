use std::time::Instant;
use twin_type::in_game::{Event, EventType, History, MistypeReason};
use twin_type::screens::AppState;
use twin_type::status_board::{calc_score, check_time, remaining_time, GameTime};

fn ok(is_left: bool) -> Event {
    Event { is_left, time: Instant::now(), type_: EventType::Success { key_num: 7 } }
}

fn miss(is_left: bool) -> Event {
    Event { is_left, time: Instant::now(), type_: EventType::MisType { reason: MistypeReason::Opposite } }
}

#[test]
fn score_of_empty_history_is_zero() {
    assert_eq!(calc_score(&History { list: vec![] }), 0);
}

#[test]
fn score_counts_two_per_key_minus_one_per_mistype() {
    let history = History { list: vec![ok(true), ok(false), miss(true), ok(true), miss(false), miss(false)] };
    assert_eq!(calc_score(&history), 3);
}

#[test]
fn score_can_be_negative() {
    let history = History {
        list: vec![
            miss(true),
            Event { is_left: false, time: Instant::now(), type_: EventType::MisType { reason: MistypeReason::InvalidChar { key_num: 9 } } },
        ],
    };
    assert_eq!(calc_score(&history), -2);
}

#[test]
fn score_grows_by_the_points_of_a_new_event() {
    let mut history = History { list: vec![ok(true), miss(false)] };
    let before = calc_score(&history);
    history.list.push(ok(false));
    assert_eq!(calc_score(&history), before + 2);
    history.list.push(miss(true));
    assert_eq!(calc_score(&history), before + 1);
}

#[test]
fn remaining_time_counts_down() {
    assert_eq!(remaining_time(&GameTime(60), 0), 60);
    assert_eq!(remaining_time(&GameTime(60), 13), 47);
    assert_eq!(remaining_time(&GameTime(60), 60), 0);
}

#[test]
fn check_time_ends_the_game_when_no_time_is_left() {
    assert_eq!(check_time(&GameTime(60), 59), None);
    assert_eq!(check_time(&GameTime(60), 60), Some(AppState::ResultScreen));
    assert_eq!(check_time(&GameTime(0), 0), Some(AppState::ResultScreen));
}
