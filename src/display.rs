//! Command sequences that drive a two-line character display reliably, and a model of
//! what the display shows after them.

use vstd::prelude::*;

verus! {

/// Characters per display line.
pub const LCD_COLUMNS: usize = 16;

/// Settling pause between display commands, in microseconds.
pub const SETTLE_US: u32 = 100;

/// Pause between power toggles at start-up, in milliseconds.
pub const POWER_TOGGLE_MS: u32 = 100;

/// One command to the display, or a pause between commands.
#[derive(Clone, Copy, Debug, PartialEq, Eq)]
pub enum DisplayOp<'a> {
    /// Blank both lines and move the cursor home.
    Clear,
    /// Wait this many microseconds.
    DelayUs(u32),
    /// Wait this many milliseconds.
    DelayMs(u32),
    /// Move the cursor to a column and a line.
    SetPosition(u8, u8),
    /// Write text at the cursor and move the cursor past it.
    Print(&'a str),
    /// Switch the display off.
    DisplayOff,
    /// Switch the display on.
    DisplayOn,
}

/// What a two-line display shows: its lines, its cursor (column, line) and its power.
pub struct LcdModel {
    pub lines: (Seq<char>, Seq<char>),
    pub cursor: (nat, nat),
    pub powered: bool,
}

/// `line` with `text` written from column `col` on; a gap before it is filled with blanks.
pub open spec fn put_text(line: Seq<char>, col: nat, text: Seq<char>) -> Seq<char> {
    let len = if line.len() > col + text.len() { line.len() } else { col + text.len() };
    Seq::new(
        len,
        |j: int|
            if col <= j < col + text.len() {
                text[j - col]
            } else if j < line.len() {
                line[j]
            } else {
                ' '
            },
    )
}

/// The display after one command.
pub open spec fn apply_op(s: LcdModel, op: DisplayOp) -> LcdModel {
    match op {
        DisplayOp::Clear => LcdModel { lines: (seq![], seq![]), cursor: (0, 0), powered: s.powered },
        DisplayOp::SetPosition(col, row) => LcdModel {
            lines: s.lines,
            cursor: (col as nat, row as nat),
            powered: s.powered,
        },
        DisplayOp::Print(text) => LcdModel {
            lines: if s.cursor.1 == 0 {
                (put_text(s.lines.0, s.cursor.0, text@), s.lines.1)
            } else {
                (s.lines.0, put_text(s.lines.1, s.cursor.0, text@))
            },
            cursor: (s.cursor.0 + text@.len(), s.cursor.1),
            powered: s.powered,
        },
        DisplayOp::DisplayOff => LcdModel { lines: s.lines, cursor: s.cursor, powered: false },
        DisplayOp::DisplayOn => LcdModel { lines: s.lines, cursor: s.cursor, powered: true },
        DisplayOp::DelayUs(_) => s,
        DisplayOp::DelayMs(_) => s,
    }
}

/// The display after the first `n` commands of `ops`.
pub open spec fn run_prefix(s: LcdModel, ops: Seq<DisplayOp>, n: nat) -> LcdModel
    decreases n,
{
    if n == 0 {
        s
    } else {
        apply_op(run_prefix(s, ops, (n - 1) as nat), ops[n - 1])
    }
}

/// The display after all of `ops`.
pub open spec fn run_ops(s: LcdModel, ops: Seq<DisplayOp>) -> LcdModel {
    run_prefix(s, ops, ops.len())
}

/// The display showing exactly two rows, with the cursor home and its power as before.
pub open spec fn showing(s: LcdModel, first: Seq<char>, second: Seq<char>) -> LcdModel {
    LcdModel { lines: (first, second), cursor: (0, 0), powered: s.powered }
}

/// The commands that clear the display and print two rows: the clear is sent twice with a
/// pause between, since one is sometimes missed, and a pause separates the two rows.
pub open spec fn spec_clear_print_ops<'a>(first_row: &'a str, second_row: &'a str) -> Seq<
    DisplayOp<'a>,
> {
    seq![
        DisplayOp::Clear,
        DisplayOp::DelayUs(SETTLE_US),
        DisplayOp::Clear,
        DisplayOp::SetPosition(0, 0),
        DisplayOp::Print(first_row),
        DisplayOp::DelayUs(SETTLE_US),
        DisplayOp::SetPosition(0, 1),
        DisplayOp::Print(second_row),
        DisplayOp::SetPosition(0, 0),
    ]
}

/// Writing a row into an empty line gives the row.
pub proof fn lemma_put_into_empty(text: Seq<char>)
    ensures
        put_text(seq![], 0, text) == text,
{
    assert(put_text(seq![], 0, text) =~= text);
}

/// After the clear-and-print commands the display shows the two rows, whatever it showed.
pub proof fn lemma_clear_print_shows(s: LcdModel, first_row: &str, second_row: &str)
    ensures
        run_ops(s, spec_clear_print_ops(first_row, second_row)) == showing(
            s,
            first_row@,
            second_row@,
        ),
{
    let ops = spec_clear_print_ops(first_row, second_row);
    reveal_with_fuel(run_prefix, 10);
    lemma_put_into_empty(first_row@);
    lemma_put_into_empty(second_row@);
    assert(run_prefix(s, ops, 9) == showing(s, first_row@, second_row@));
}

/// Clearing and printing the same rows twice leaves the display as doing it once.
pub proof fn lemma_clear_print_idempotent(s: LcdModel, first_row: &str, second_row: &str)
    ensures
        run_ops(
            run_ops(s, spec_clear_print_ops(first_row, second_row)),
            spec_clear_print_ops(first_row, second_row),
        ) == run_ops(s, spec_clear_print_ops(first_row, second_row)),
{
    let once = run_ops(s, spec_clear_print_ops(first_row, second_row));
    lemma_clear_print_shows(s, first_row, second_row);
    lemma_clear_print_shows(once, first_row, second_row);
}

/// The commands that clear the display and show `first_row` on line 0 and `second_row` on
/// line 1, with the cursor left home.
pub fn clear_print_ops<'a>(first_row: &'a str, second_row: &'a str) -> (r: [DisplayOp<'a>; 9])
    ensures
        r@ == spec_clear_print_ops(first_row, second_row),
        forall|s: LcdModel| #[trigger]
            run_ops(s, r@) == showing(s, first_row@, second_row@),
{
    let r = [
        DisplayOp::Clear,
        DisplayOp::DelayUs(SETTLE_US),
        DisplayOp::Clear,
        DisplayOp::SetPosition(0, 0),
        DisplayOp::Print(first_row),
        DisplayOp::DelayUs(SETTLE_US),
        DisplayOp::SetPosition(0, 1),
        DisplayOp::Print(second_row),
        DisplayOp::SetPosition(0, 0),
    ];
    assert(r@ =~= spec_clear_print_ops(first_row, second_row));
    assert forall|s: LcdModel| #[trigger] run_ops(s, r@) == showing(s, first_row@, second_row@) by {
        lemma_clear_print_shows(s, first_row, second_row);
    }
    r
}

/// The start-up commands: the display is switched off and on three times, with pauses,
/// since its first power-up is not always clean.
pub open spec fn spec_ensure_init_ops() -> Seq<DisplayOp<'static>> {
    seq![
        DisplayOp::DelayMs(POWER_TOGGLE_MS),
        DisplayOp::DisplayOff,
        DisplayOp::DelayMs(POWER_TOGGLE_MS),
        DisplayOp::DisplayOn,
        DisplayOp::DelayMs(POWER_TOGGLE_MS),
        DisplayOp::DisplayOff,
        DisplayOp::DelayMs(POWER_TOGGLE_MS),
        DisplayOp::DisplayOn,
        DisplayOp::DelayMs(POWER_TOGGLE_MS),
        DisplayOp::DisplayOff,
        DisplayOp::DelayMs(POWER_TOGGLE_MS),
        DisplayOp::DisplayOn,
    ]
}

/// The commands run once after the display is built: three off/on power toggles with
/// pauses. The display ends powered, its lines and cursor untouched.
pub fn ensure_init_ops() -> (r: [DisplayOp<'static>; 12])
    ensures
        r@ == spec_ensure_init_ops(),
        forall|s: LcdModel| #[trigger]
            run_ops(s, r@) == (LcdModel { lines: s.lines, cursor: s.cursor, powered: true }),
{
    let mut r = [DisplayOp::DisplayOn; 12];
    let mut k: usize = 0;
    while k < 3
        invariant
            k <= 3,
            forall|j: int|
                0 <= j < 4 * k ==> #[trigger] r@[j] == spec_ensure_init_ops()[j],
            forall|j: int| 4 * k <= j < 12 ==> #[trigger] r@[j] == DisplayOp::DisplayOn,
        decreases 3 - k,
    {
        r[4 * k] = DisplayOp::DelayMs(POWER_TOGGLE_MS);
        r[4 * k + 1] = DisplayOp::DisplayOff;
        r[4 * k + 2] = DisplayOp::DelayMs(POWER_TOGGLE_MS);
        k = k + 1;
    }
    assert(r@ =~= spec_ensure_init_ops());
    assert forall|s: LcdModel| #[trigger]
        run_ops(s, r@) == (LcdModel { lines: s.lines, cursor: s.cursor, powered: true }) by {
        reveal_with_fuel(run_prefix, 13);
    }
    r
}

} // verus!
