use vstd::prelude::*;

verus! {

/// First visible index of the window: the whole list when it fits, otherwise the
/// cursor centred as far as the ends of the list allow.
pub open spec fn view_start(total: nat, cursor: nat, max_show: nat) -> nat {
    if total <= max_show {
        0
    } else {
        let centred: int = cursor - max_show / 2;
        let low: nat = if centred < 0 { 0 } else { centred as nat };
        if low <= total - max_show { low } else { (total - max_show) as nat }
    }
}

/// One past the last visible index of the window.
pub open spec fn view_end(total: nat, cursor: nat, max_show: nat) -> nat {
    if total <= max_show {
        total
    } else {
        view_start(total, cursor, max_show) + max_show
    }
}

/// The visible window `(start, end)` over `total` options with the highlight at
/// `cursor` and room for `max_show` lines.
pub fn visible_range(total: usize, cursor: usize, max_show: usize) -> (r: (usize, usize))
    ensures
        r.0 == view_start(total as nat, cursor as nat, max_show as nat),
        r.1 == view_end(total as nat, cursor as nat, max_show as nat),
{
    if total <= max_show {
        (0, total)
    } else {
        let start: usize = cursor.saturating_sub(max_show / 2);
        let start: usize = if start <= total - max_show { start } else { total - max_show };
        (start, start + max_show)
    }
}

/// When the list fits in the window, the window is the whole list whatever the
/// cursor.
pub proof fn lemma_short_list_shown_whole(total: nat, cursor: nat, max_show: nat)
    requires
        total <= max_show,
    ensures
        view_start(total, cursor, max_show) == 0,
        view_end(total, cursor, max_show) == total,
{
}

/// When the list overflows the window, the window holds exactly `max_show` lines,
/// lies inside the list and contains the cursor.
pub proof fn lemma_overflow_window_holds_cursor(total: nat, cursor: nat, max_show: nat)
    requires
        max_show >= 1,
        total > max_show,
        cursor < total,
    ensures
        view_start(total, cursor, max_show) <= cursor,
        cursor < view_start(total, cursor, max_show) + max_show,
        view_start(total, cursor, max_show) <= total - max_show,
        view_end(total, cursor, max_show) == view_start(total, cursor, max_show) + max_show,
{
}

/// For every valid cursor and a window of at least one line, the cursor's row is
/// among the visible ones and the window stays within the list.
pub proof fn lemma_cursor_visible(total: nat, cursor: nat, max_show: nat)
    requires
        max_show >= 1,
        cursor < total,
    ensures
        view_start(total, cursor, max_show) <= cursor,
        cursor < view_end(total, cursor, max_show),
        view_end(total, cursor, max_show) <= total,
{
    if total > max_show {
        lemma_overflow_window_holds_cursor(total, cursor, max_show);
    }
}

} // verus!
