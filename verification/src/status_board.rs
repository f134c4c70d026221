//! The status board shown during a game: the remaining time and the score.

use crate::in_game::{Event, EventType, History};
use crate::screens::AppState;
use std::time::Instant;
use vstd::prelude::*;

verus! {

/// When the game started.
pub struct StartTime(pub Instant);

/// How long a game lasts, in seconds.
pub struct GameTime(pub u64);

/// The points of one recorded key press: two for a typed key, minus one for
/// a mistype.
pub open spec fn event_points(e: Event) -> int {
    match e.type_ {
        EventType::Success { .. } => 2,
        EventType::MisType { .. } => -1,
    }
}

/// The score of a sequence of recorded key presses.
pub open spec fn score_of(events: Seq<Event>) -> int
    decreases events.len(),
{
    if events.len() == 0 {
        0
    } else {
        score_of(events.drop_last()) + event_points(events.last())
    }
}

/// The score stays within `i32` while the events are counted one by one.
pub open spec fn score_fits(events: Seq<Event>) -> bool {
    forall|k: int|
        0 <= k <= events.len() ==> i32::MIN <= #[trigger] score_of(events.take(k)) <= i32::MAX
}

/// The score of a game: two points for every typed key, minus one for every
/// mistype.
pub fn calc_score(history: &History) -> (res: i32)
    requires
        score_fits(history.list@),
    ensures
        res == score_of(history.list@),
{
    let n: usize = history.list.len();
    let mut res: i32 = 0;
    let mut i: usize = 0;
    assert(history.list@.take(0) =~= Seq::<Event>::empty());
    while i < n
        invariant
            n == history.list@.len(),
            i <= n,
            score_fits(history.list@),
            res == score_of(history.list@.take(i as int)),
        decreases n - i,
    {
        let ghost next = history.list@.take(i + 1);
        assert(next.drop_last() =~= history.list@.take(i as int));
        assert(i32::MIN <= score_of(next) <= i32::MAX);
        match &history.list[i].type_ {
            EventType::Success { .. } => {
                res = res + 2;
            },
            EventType::MisType { .. } => {
                res = res - 1;
            },
        }
        i = i + 1;
    }
    assert(history.list@.take(n as int) =~= history.list@);
    res
}

/// Recording one more key press changes the score by its points: two more
/// for a typed key, one less for a mistype.
pub proof fn lemma_score_push(events: Seq<Event>, e: Event)
    ensures
        score_of(Seq::empty()) == 0,
        score_of(events.push(e)) == score_of(events) + event_points(e),
        score_of(events.push(e)) == score_of(events) + if e.type_ is Success {
            2int
        } else {
            -1int
        },
{
    assert(events.push(e).drop_last() =~= events);
}

/// The seconds left of a game after `elapsed_secs` seconds.
pub fn remaining_time(game_time: &GameTime, elapsed_secs: u64) -> (res: u64)
    requires
        elapsed_secs <= game_time.0,
    ensures
        res == game_time.0 - elapsed_secs,
{
    game_time.0 - elapsed_secs
}

/// When no time is left the results are shown.
pub fn check_time(game_time: &GameTime, elapsed_secs: u64) -> (res: Option<AppState>)
    requires
        elapsed_secs <= game_time.0,
    ensures
        res == (if elapsed_secs == game_time.0 { Some(AppState::ResultScreen) } else { None::<AppState> }),
{
    let remaining: u64 = remaining_time(game_time, elapsed_secs);
    if remaining == 0 {
        Some(AppState::ResultScreen)
    } else {
        None
    }
}

} // verus!
