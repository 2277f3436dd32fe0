use vstd::prelude::*;
use vstd::string::StringExecFns;
use crate::viewport::{view_start, view_end, visible_range};

verus! {

/// The character of a decimal digit.
pub open spec fn digit_char(d: nat) -> char {
    if d == 0 { '0' }
    else if d == 1 { '1' }
    else if d == 2 { '2' }
    else if d == 3 { '3' }
    else if d == 4 { '4' }
    else if d == 5 { '5' }
    else if d == 6 { '6' }
    else if d == 7 { '7' }
    else if d == 8 { '8' }
    else { '9' }
}

/// Decimal notation of a natural number, without leading zeros.
pub open spec fn decimal_of(n: nat) -> Seq<char>
    decreases n,
{
    if n < 10 {
        seq![digit_char(n)]
    } else {
        decimal_of(n / 10) + seq![digit_char(n % 10)]
    }
}

/// The text of one option row: reverse video and a `> ` marker for the
/// highlighted row, two spaces of indent for the others.
pub open spec fn row_text(label: Seq<char>, highlighted: bool) -> Seq<char> {
    if highlighted {
        "\x1B[7m> "@ + label + "\x1B[0m"@
    } else {
        "  "@ + label
    }
}

/// The views of a sequence of strings.
pub open spec fn texts(v: Seq<String>) -> Seq<Seq<char>> {
    v.map_values(|s: String| s@)
}

/// The rows visible for the window `[start, end)`, in index order.
pub open spec fn rows_view(labels: Seq<Seq<char>>, cursor: nat, max_show: nat) -> Seq<Seq<char>> {
    let start = view_start(labels.len(), cursor, max_show);
    let end = view_end(labels.len(), cursor, max_show);
    Seq::new(
        (end - start) as nat,
        |j: int| row_text(labels[start + j], start + j == cursor),
    )
}

/// The status line: the number of options and the 1-based range shown.
pub open spec fn status_text(total: nat, start: nat, end: nat) -> Seq<char> {
    "Total: "@ + decimal_of(total) + " | Showing: "@ + decimal_of(start + 1) + " - "@
        + decimal_of(end)
}

/// The lines of a frame, printed after the screen is cleared.
pub open spec fn frame_view(labels: Seq<Seq<char>>, cursor: nat, max_show: nat) -> Seq<Seq<char>> {
    if labels.len() == 0 {
        seq!["No options available."@, "Press ESC to exit."@]
    } else {
        let start = view_start(labels.len(), cursor, max_show);
        let end = view_end(labels.len(), cursor, max_show);
        seq![PROMPT@, status_text(labels.len(), start, end), ""@]
            + rows_view(labels, cursor, max_show)
            + seq![""@, LEGEND@]
    }
}

/// Erases the screen and moves the terminal cursor to row 1, column 1.
pub const CLEAR_SCREEN: &'static str = "\x1B[2J\x1B[1;1H";

/// The prompt line at the top of each frame.
pub const PROMPT: &'static str = "Please select.（ESC for canceling）:";

/// The navigation legend at the bottom of each frame.
pub const LEGEND: &'static str = "↑: Up | ↓: Down | Enter: Confirm | ESC: Cancel";

/// The escape sequence that clears the screen before a frame.
pub fn clear_screen() -> (r: &'static str)
    ensures
        r@ == CLEAR_SCREEN@,
{
    CLEAR_SCREEN
}

fn digit_text(d: usize) -> (r: String)
    requires
        d < 10,
    ensures
        r@ == seq![digit_char(d as nat)],
{
    proof {
        reveal_strlit("0");
        reveal_strlit("1");
        reveal_strlit("2");
        reveal_strlit("3");
        reveal_strlit("4");
        reveal_strlit("5");
        reveal_strlit("6");
        reveal_strlit("7");
        reveal_strlit("8");
        reveal_strlit("9");
    }
    let s = if d == 0 { "0" }
    else if d == 1 { "1" }
    else if d == 2 { "2" }
    else if d == 3 { "3" }
    else if d == 4 { "4" }
    else if d == 5 { "5" }
    else if d == 6 { "6" }
    else if d == 7 { "7" }
    else if d == 8 { "8" }
    else { "9" };
    let r = String::from_str(s);
    assert(r@ =~= seq![digit_char(d as nat)]);
    r
}

/// Decimal notation of `n`.
pub fn decimal(n: usize) -> (r: String)
    ensures
        r@ == decimal_of(n as nat),
    decreases n,
{
    if n < 10 {
        digit_text(n)
    } else {
        let high = decimal(n / 10);
        let low = digit_text(n % 10);
        high.concat(low.as_str())
    }
}

/// The text of one option row.
pub fn row(label: &String, highlighted: bool) -> (r: String)
    ensures
        r@ == row_text(label@, highlighted),
{
    if highlighted {
        String::from_str("\x1B[7m> ").concat(label.as_str()).concat("\x1B[0m")
    } else {
        String::from_str("  ").concat(label.as_str())
    }
}

/// The option rows of a frame: exactly one per index of the visible window, the
/// row at `cursor` highlighted.
pub fn option_rows(options: &Vec<String>, cursor: usize, max_show: usize) -> (r: Vec<String>)
    ensures
        r@.len() == view_end(options@.len(), cursor as nat, max_show as nat) - view_start(
            options@.len(),
            cursor as nat,
            max_show as nat,
        ),
        texts(r@) == rows_view(texts(options@), cursor as nat, max_show as nat),
{
    let (start, end) = visible_range(options.len(), cursor, max_show);
    let ghost labels = texts(options@);
    let mut out: Vec<String> = Vec::new();
    let mut i: usize = start;
    while i < end
        invariant
            start <= i <= end <= options@.len(),
            start == view_start(options@.len(), cursor as nat, max_show as nat),
            end == view_end(options@.len(), cursor as nat, max_show as nat),
            labels == texts(options@),
            out@.len() == i - start,
            forall|j: int|
                0 <= j < out@.len() ==> #[trigger] out@[j]@ == row_text(
                    labels[start + j],
                    start + j == cursor,
                ),
        decreases end - i,
    {
        let line = row(&options[i], i == cursor);
        out.push(line);
        i = i + 1;
    }
    assert(texts(out@) =~= rows_view(labels, cursor as nat, max_show as nat));
    out
}

/// The status line of a frame.
pub fn status_line(total: usize, start: usize, end: usize) -> (r: String)
    requires
        start < usize::MAX,
    ensures
        r@ == status_text(total as nat, start as nat, end as nat),
{
    String::from_str("Total: ")
        .concat(decimal(total).as_str())
        .concat(" | Showing: ")
        .concat(decimal(start + 1).as_str())
        .concat(" - ")
        .concat(decimal(end).as_str())
}

/// The lines of one frame of the menu, to print after `clear_screen`.
pub fn frame_lines(options: &Vec<String>, cursor: usize, max_show: usize) -> (r: Vec<String>)
    requires
        max_show >= 1,
    ensures
        texts(r@) == frame_view(texts(options@), cursor as nat, max_show as nat),
{
    let mut out: Vec<String> = Vec::new();
    if options.len() == 0 {
        out.push(String::from_str("No options available."));
        out.push(String::from_str("Press ESC to exit."));
        assert(texts(out@) =~= frame_view(texts(options@), cursor as nat, max_show as nat));
        return out;
    }
    let (start, end) = visible_range(options.len(), cursor, max_show);
    out.push(String::from_str(PROMPT));
    out.push(status_line(options.len(), start, end));
    out.push(String::new());
    let rows = option_rows(options, cursor, max_show);
    let ghost head = out@;
    assert(head[0]@ == PROMPT@ && head[2]@ == Seq::<char>::empty());
    let mut k: usize = 0;
    while k < rows.len()
        invariant
            k <= rows@.len(),
            head.len() == 3,
            out@.len() == 3 + k,
            forall|j: int| 0 <= j < 3 ==> #[trigger] out@[j] == head[j],
            forall|j: int| 0 <= j < k ==> #[trigger] out@[3 + j]@ == rows@[j]@,
        decreases rows@.len() - k,
    {
        out.push(rows[k].clone());
        k = k + 1;
    }
    out.push(String::new());
    out.push(String::from_str(LEGEND));
    proof {
        reveal_strlit("");
        let labels = texts(options@);
        let want = frame_view(labels, cursor as nat, max_show as nat);
        let rv = rows_view(labels, cursor as nat, max_show as nat);
        assert(texts(rows@) == rv);
        assert(want =~= seq![PROMPT@, status_text(labels.len(), start as nat, end as nat), ""@] + rv
            + seq![""@, LEGEND@]);
        assert forall|j: int| 0 <= j < rows@.len() implies #[trigger] texts(out@)[3 + j] == rv[j] by {
            assert(texts(rows@)[j] == rows@[j]@);
        }
        let n = rows@.len() as int;
        assert(texts(out@).len() == want.len());
        assert(out@[0] == head[0] && out@[1] == head[1] && out@[2] == head[2]);
        assert(texts(out@)[3 + n] == want[3 + n]);
        assert(texts(out@)[4 + n] == want[4 + n]);
        assert forall|j: int| 0 <= j < want.len() implies #[trigger] texts(out@)[j] == want[j] by {
            if 3 <= j < 3 + n {
                assert(texts(out@)[3 + (j - 3)] == rv[j - 3]);
            }
        }
        assert(texts(out@) =~= want);
    }
    out
}

/// The visible rows number `end - start`, and for a valid cursor and a window of
/// at least one line the cursor's row is among them, highlighted, while every
/// other row is plain.
pub proof fn lemma_rows_hold_highlight(labels: Seq<Seq<char>>, cursor: nat, max_show: nat)
    requires
        max_show >= 1,
        cursor < labels.len(),
    ensures
        rows_view(labels, cursor, max_show).len() == view_end(labels.len(), cursor, max_show)
            - view_start(labels.len(), cursor, max_show),
        cursor - view_start(labels.len(), cursor, max_show) < rows_view(
            labels,
            cursor,
            max_show,
        ).len(),
        rows_view(labels, cursor, max_show)[cursor - view_start(labels.len(), cursor, max_show)]
            == row_text(labels[cursor as int], true),
        forall|j: int|
            0 <= j < rows_view(labels, cursor, max_show).len() && j != cursor - view_start(
                labels.len(),
                cursor,
                max_show,
            ) ==> #[trigger] rows_view(labels, cursor, max_show)[j] == row_text(
                labels[view_start(labels.len(), cursor, max_show) + j],
                false,
            ),
{
    crate::viewport::lemma_cursor_visible(labels.len(), cursor, max_show);
}

/// The text of the confirmation line for an option.
pub open spec fn confirm_text(label: Seq<char>) -> Seq<char> {
    "Confirm delete: "@ + label
}

/// The line printed when an option is confirmed.
pub fn confirm_line(label: &String) -> (r: String)
    ensures
        r@ == confirm_text(label@),
{
    String::from_str("Confirm delete: ").concat(label.as_str())
}

/// The line printed when the choice is canceled.
pub fn cancel_line() -> (r: String)
    ensures
        r@ == "Delete canceled."@,
{
    String::from_str("Delete canceled.")
}

/// The notice printed when there is nothing to choose from.
pub fn empty_notice() -> (r: String)
    ensures
        r@ == "No options available."@,
{
    String::from_str("No options available.")
}

} // verus!
