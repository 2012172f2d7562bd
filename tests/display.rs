use irrigation::display::{clear_print_ops, ensure_init_ops, DisplayOp};

/// A two-line display that records what it shows.
#[derive(Clone, Debug, PartialEq)]
struct FakeLcd {
    lines: [String; 2],
    cursor: (usize, usize),
    powered: bool,
}

impl FakeLcd {
    fn new() -> FakeLcd {
        FakeLcd { lines: [String::from("stale text"), String::from("old")], cursor: (3, 1), powered: true }
    }

    fn run(&mut self, ops: &[DisplayOp]) {
        for op in ops {
            match *op {
                DisplayOp::Clear => {
                    self.lines = [String::new(), String::new()];
                    self.cursor = (0, 0);
                }
                DisplayOp::SetPosition(col, row) => self.cursor = (col as usize, row as usize),
                DisplayOp::Print(text) => {
                    let line = &mut self.lines[self.cursor.1];
                    let mut chars: Vec<char> = line.chars().collect();
                    while chars.len() < self.cursor.0 {
                        chars.push(' ');
                    }
                    for (k, ch) in text.chars().enumerate() {
                        let at = self.cursor.0 + k;
                        if at < chars.len() {
                            chars[at] = ch;
                        } else {
                            chars.push(ch);
                        }
                    }
                    *line = chars.into_iter().collect();
                    self.cursor.0 += text.chars().count();
                }
                DisplayOp::DisplayOff => self.powered = false,
                DisplayOp::DisplayOn => self.powered = true,
                DisplayOp::DelayUs(_) | DisplayOp::DelayMs(_) => {}
            }
        }
    }
}

#[test]
fn clear_print_sends_double_clear_and_settles() {
    let ops = clear_print_ops("Measures in", "07h:23min");
    assert_eq!(
        ops,
        [
            DisplayOp::Clear,
            DisplayOp::DelayUs(100),
            DisplayOp::Clear,
            DisplayOp::SetPosition(0, 0),
            DisplayOp::Print("Measures in"),
            DisplayOp::DelayUs(100),
            DisplayOp::SetPosition(0, 1),
            DisplayOp::Print("07h:23min"),
            DisplayOp::SetPosition(0, 0),
        ]
    );
}

#[test]
fn clear_print_shows_both_rows() {
    let mut lcd = FakeLcd::new();
    lcd.run(&clear_print_ops("Plant is dry:", "pump ON"));
    assert_eq!(lcd.lines, [String::from("Plant is dry:"), String::from("pump ON")]);
    assert_eq!(lcd.cursor, (0, 0));
    assert!(lcd.powered);
}

#[test]
fn clear_print_twice_is_same_as_once() {
    let mut once = FakeLcd::new();
    once.run(&clear_print_ops("Moisture sensor", "not in soil"));
    let mut twice = FakeLcd::new();
    twice.run(&clear_print_ops("Moisture sensor", "not in soil"));
    twice.run(&clear_print_ops("Moisture sensor", "not in soil"));
    assert_eq!(once, twice);
}

#[test]
fn init_toggles_power_three_times() {
    let ops = ensure_init_ops();
    let off_on = [DisplayOp::DelayMs(100), DisplayOp::DisplayOff, DisplayOp::DelayMs(100), DisplayOp::DisplayOn];
    for k in 0..3 {
        assert_eq!(ops[4 * k..4 * k + 4], off_on);
    }
    let mut lcd = FakeLcd::new();
    lcd.powered = false;
    let before = lcd.clone();
    lcd.run(&ops);
    assert!(lcd.powered);
    assert_eq!(lcd.lines, before.lines);
    assert_eq!(lcd.cursor, before.cursor);
}
