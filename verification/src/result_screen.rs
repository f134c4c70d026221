//! The result screen: the counts of typed keys and mistypes of each player
//! and how the two players compare.

use crate::in_game::{Event, EventType, History};
use crate::sharing::Player;
use crate::status_board::score_of;
use vstd::prelude::*;

verus! {

/// The recorded key presses of each player, typed and mistyped.
#[derive(Clone, Copy, Debug, PartialEq, Eq, Structural)]
pub struct Tally {
    pub left_type_count: i32,
    pub left_mistype_count: i32,
    pub right_type_count: i32,
    pub right_mistype_count: i32,
}

/// How many events were made by the given side and were typed keys
/// (`success`) or mistypes (`!success`).
pub open spec fn count_events(events: Seq<Event>, is_left: bool, success: bool) -> nat
    decreases events.len(),
{
    if events.len() == 0 {
        0
    } else {
        count_events(events.drop_last(), is_left, success) + if events.last().is_left == is_left
            && (events.last().type_ is Success) == success {
            1nat
        } else {
            0nat
        }
    }
}

/// Every count of the tally fits in `i32`.
pub open spec fn tally_fits(events: Seq<Event>) -> bool {
    &&& count_events(events, true, true) <= i32::MAX
    &&& count_events(events, true, false) <= i32::MAX
    &&& count_events(events, false, true) <= i32::MAX
    &&& count_events(events, false, false) <= i32::MAX
}

/// Counting a prefix gives no more than counting the whole.
pub proof fn lemma_count_prefix(events: Seq<Event>, k: int, is_left: bool, success: bool)
    requires
        0 <= k <= events.len(),
    ensures
        count_events(events.take(k), is_left, success) <= count_events(events, is_left, success),
    decreases events.len() - k,
{
    if k < events.len() {
        lemma_count_prefix(events, k + 1, is_left, success);
        assert(events.take(k + 1).drop_last() =~= events.take(k));
    } else {
        assert(events.take(k) =~= events);
    }
}

/// Counts the typed keys and the mistypes of each player.
pub fn tally(history: &History) -> (res: Tally)
    requires
        tally_fits(history.list@),
    ensures
        res.left_type_count == count_events(history.list@, true, true),
        res.left_mistype_count == count_events(history.list@, true, false),
        res.right_type_count == count_events(history.list@, false, true),
        res.right_mistype_count == count_events(history.list@, false, false),
{
    let n: usize = history.list.len();
    let mut left_type_count: i32 = 0;
    let mut left_mistype_count: i32 = 0;
    let mut right_type_count: i32 = 0;
    let mut right_mistype_count: i32 = 0;
    let mut i: usize = 0;
    let ghost events = history.list@;
    assert(events.take(0) =~= Seq::<Event>::empty());
    while i < n
        invariant
            n == events.len(),
            events == history.list@,
            i <= n,
            tally_fits(events),
            left_type_count == count_events(events.take(i as int), true, true),
            left_mistype_count == count_events(events.take(i as int), true, false),
            right_type_count == count_events(events.take(i as int), false, true),
            right_mistype_count == count_events(events.take(i as int), false, false),
        decreases n - i,
    {
        let ghost next = events.take(i + 1);
        assert(next.drop_last() =~= events.take(i as int));
        proof {
            lemma_count_prefix(events, i + 1, true, true);
            lemma_count_prefix(events, i + 1, true, false);
            lemma_count_prefix(events, i + 1, false, true);
            lemma_count_prefix(events, i + 1, false, false);
        }
        let e = &history.list[i];
        match e.type_ {
            EventType::Success { .. } => {
                if e.is_left {
                    left_type_count = left_type_count + 1;
                } else {
                    right_type_count = right_type_count + 1;
                }
            },
            EventType::MisType { .. } => {
                if e.is_left {
                    left_mistype_count = left_mistype_count + 1;
                } else {
                    right_mistype_count = right_mistype_count + 1;
                }
            },
        }
        i = i + 1;
    }
    assert(events.take(n as int) =~= events);
    Tally { left_type_count, left_mistype_count, right_type_count, right_mistype_count }
}

/// The two counts as compared: negated when fewer is better.
pub open spec fn compared(left: i32, right: i32, neg: bool) -> (int, int) {
    if neg {
        (-(left as int), -(right as int))
    } else {
        (left as int, right as int)
    }
}

/// The sign between the two counts: `>` when the left side is ahead, `=` on
/// a tie, `<` when the right side is ahead.
pub open spec fn spec_sign(left: i32, right: i32, neg: bool) -> Seq<char> {
    let (l, r) = compared(left, right, neg);
    if l > r {
        ">"@
    } else if l == r {
        "="@
    } else {
        "<"@
    }
}

/// The sign shown between the left and the right count. With `neg` the
/// counts are negated first, so that fewer counts as more.
pub fn sign(left: i32, right: i32, neg: bool) -> (res: String)
    requires
        neg ==> left != i32::MIN && right != i32::MIN,
    ensures
        res@ == spec_sign(left, right, neg),
{
    let left: i32 = if !neg {
        left
    } else {
        -left
    };
    let right: i32 = if !neg {
        right
    } else {
        -right
    };
    if left > right {
        ">".to_string()
    } else if left == right {
        "=".to_string()
    } else {
        "<".to_string()
    }
}

/// The side whose count is shown highlighted, if the counts differ: the
/// larger count, or the smaller one with `neg`.
pub open spec fn spec_better_side(left: i32, right: i32, neg: bool) -> Option<Player> {
    if left == right {
        None
    } else if (left > right) != neg {
        Some(Player::Left)
    } else if (left < right) != neg {
        Some(Player::Right)
    } else {
        None
    }
}

/// The side whose count is highlighted on the result screen.
pub fn better_side(left_cnt: i32, right_cnt: i32, neg: bool) -> (res: Option<Player>)
    ensures
        res == spec_better_side(left_cnt, right_cnt, neg),
{
    if left_cnt == right_cnt {
        None
    } else if (left_cnt > right_cnt) ^ neg {
        Some(Player::Left)
    } else if (left_cnt < right_cnt) ^ neg {
        Some(Player::Right)
    } else {
        None
    }
}

/// Nothing is counted in an empty history, and one more event is counted
/// for the side that made it, as a typed key or as a mistype.
pub proof fn lemma_count_push(events: Seq<Event>, e: Event)
    ensures
        count_events(Seq::empty(), true, true) == 0,
        count_events(Seq::empty(), true, false) == 0,
        count_events(Seq::empty(), false, true) == 0,
        count_events(Seq::empty(), false, false) == 0,
        count_events(events.push(e), true, true) == count_events(events, true, true) + if e.is_left
            && e.type_ is Success {
            1int
        } else {
            0int
        },
        count_events(events.push(e), true, false) == count_events(events, true, false) + if e.is_left
            && e.type_ is MisType {
            1int
        } else {
            0int
        },
        count_events(events.push(e), false, true) == count_events(events, false, true) + if !e.is_left
            && e.type_ is Success {
            1int
        } else {
            0int
        },
        count_events(events.push(e), false, false) == count_events(events, false, false) + if !e.is_left
            && e.type_ is MisType {
            1int
        } else {
            0int
        },
{
    assert(events.push(e).drop_last() =~= events);
}

/// Every recorded key press is counted once: as typed or mistyped, on the
/// left or on the right.
pub proof fn lemma_tally_total(events: Seq<Event>)
    ensures
        count_events(events, true, true) + count_events(events, true, false) + count_events(
            events,
            false,
            true,
        ) + count_events(events, false, false) == events.len(),
    decreases events.len(),
{
    if events.len() > 0 {
        lemma_tally_total(events.drop_last());
    }
}

/// The final score is two points for each key typed by either player, minus
/// one for each mistype of either player.
pub proof fn lemma_score_from_tally(events: Seq<Event>)
    ensures
        score_of(events) == 2 * (count_events(events, true, true) + count_events(events, false, true))
            - (count_events(events, true, false) + count_events(events, false, false)),
    decreases events.len(),
{
    if events.len() > 0 {
        lemma_score_from_tally(events.drop_last());
    }
}

/// The highlighted side is the one the sign points to: the left side for
/// `>`, the right side for `<`, neither for `=`.
pub proof fn lemma_better_side_matches_sign(left: i32, right: i32, neg: bool)
    ensures
        spec_better_side(left, right, neg) == Some(Player::Left) <==> spec_sign(left, right, neg)
            == ">"@,
        spec_better_side(left, right, neg) == Some(Player::Right) <==> spec_sign(left, right, neg)
            == "<"@,
        spec_better_side(left, right, neg) is None <==> spec_sign(left, right, neg) == "="@,
{
    reveal_strlit(">");
    reveal_strlit("<");
    reveal_strlit("=");
    assert(">"@[0] == '>');
    assert("<"@[0] == '<');
    assert("="@[0] == '=');
    assert(">"@ != "<"@);
    assert(">"@ != "="@);
    assert("<"@ != "="@);
}

/// The sign points to the larger count; with `neg` (fewer is better) it
/// points to the smaller count.
pub proof fn lemma_sign_points_to_better(left: i32, right: i32)
    ensures
        spec_sign(left, right, false) == ">"@ <==> left > right,
        spec_sign(left, right, false) == "="@ <==> left == right,
        spec_sign(left, right, false) == "<"@ <==> left < right,
        spec_sign(left, right, true) == ">"@ <==> left < right,
        spec_sign(left, right, true) == "="@ <==> left == right,
        spec_sign(left, right, true) == "<"@ <==> left > right,
{
    reveal_strlit(">");
    reveal_strlit("<");
    reveal_strlit("=");
    assert(">"@[0] == '>');
    assert("<"@[0] == '<');
    assert("="@[0] == '=');
    assert(">"@ != "<"@);
    assert(">"@ != "="@);
    assert("<"@ != "="@);
}

/// The highlighted side has the larger count; with `neg` (fewer is better)
/// the smaller one; on a tie no side is highlighted.
pub proof fn lemma_better_side_counts(left: i32, right: i32)
    ensures
        spec_better_side(left, right, false) == Some(Player::Left) <==> left > right,
        spec_better_side(left, right, false) == Some(Player::Right) <==> left < right,
        spec_better_side(left, right, true) == Some(Player::Left) <==> left < right,
        spec_better_side(left, right, true) == Some(Player::Right) <==> left > right,
        spec_better_side(left, right, false) is None <==> left == right,
        spec_better_side(left, right, true) is None <==> left == right,
{
}

/// Swapping the two counts swaps the highlighted side.
pub proof fn lemma_better_side_mirror(left: i32, right: i32, neg: bool)
    ensures
        spec_better_side(right, left, neg) == match spec_better_side(left, right, neg) {
            Some(Player::Left) => Some(Player::Right),
            Some(Player::Right) => Some(Player::Left),
            None => None::<Player>,
        },
{
}

} // verus!
