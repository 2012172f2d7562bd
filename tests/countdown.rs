use irrigation::countdown::{CountDown, CountdownOverflow};

fn format(count_down: CountDown) -> Result<[u8; 9], CountdownOverflow> {
    let mut buffer = [0u8; 9];
    count_down.to_str(&mut buffer).map(|()| buffer)
}

#[test]
fn new_splits_minutes_into_hours_and_minutes() {
    let c = CountDown::new(7 * 60 + 23);
    assert_eq!(c.hours_left, 7);
    assert_eq!(c.mins_left, 23);
    let c = CountDown::new(1439);
    assert_eq!((c.hours_left, c.mins_left), (23, 59));
    let c = CountDown::new(0);
    assert_eq!((c.hours_left, c.mins_left), (0, 0));
}

#[test]
fn formats_seven_hours_twenty_three_minutes() {
    let c = CountDown { hours_left: 7, mins_left: 23 };
    assert_eq!(&format(c).unwrap(), b"07h:23min");
    assert_eq!(&format(CountDown::new(7 * 60 + 23)).unwrap(), b"07h:23min");
}

#[test]
fn formats_zero_as_template() {
    let c = CountDown { hours_left: 0, mins_left: 0 };
    assert_eq!(&format(c).unwrap(), b"00h:00min");
}

#[test]
fn formats_largest_two_digit_hours() {
    let c = CountDown { hours_left: 99, mins_left: 5 };
    assert_eq!(&format(c).unwrap(), b"99h:05min");
    let c = CountDown { hours_left: 99, mins_left: 99 };
    assert_eq!(&format(c).unwrap(), b"99h:99min");
}

#[test]
fn overwrites_a_dirty_buffer() {
    let mut buffer = [b'x'; 9];
    let c = CountDown { hours_left: 10, mins_left: 0 };
    assert_eq!(c.to_str(&mut buffer), Ok(()));
    assert_eq!(&buffer, b"10h:00min");
}

#[test]
fn hundred_hours_overflows() {
    let c = CountDown { hours_left: 100, mins_left: 0 };
    assert_eq!(format(c), Err(CountdownOverflow));
}

#[test]
fn hundred_minutes_overflows_and_leaves_buffer() {
    let mut buffer = [b'x'; 9];
    let c = CountDown { hours_left: 1, mins_left: 100 };
    assert_eq!(c.to_str(&mut buffer), Err(CountdownOverflow));
    assert_eq!(buffer, [b'x'; 9]);
}

#[test]
fn digits_written_right_to_left() {
    let mut buffer = *b"00h:00min";
    CountDown::num_to_utf8slice(7, &mut buffer, 6);
    assert_eq!(&buffer, b"00h:07min");
    CountDown::num_to_utf8slice(42, &mut buffer, 2);
    assert_eq!(&buffer, b"42h:07min");
    CountDown::num_to_utf8slice(0, &mut buffer, 2);
    assert_eq!(&buffer, b"42h:07min");
    let mut wide = [b'-'; 9];
    CountDown::num_to_utf8slice(123456789, &mut wide, 9);
    assert_eq!(&wide, b"123456789");
}
