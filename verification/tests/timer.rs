use heinzelmann::timer::{
    parse_clock, timer_command, Date, FireDay, FireTime, LocalClock, TimedEvent, REPEAT_SECONDS,
};

fn clock(hour: u32, minute: u32, second: u32) -> LocalClock {
    LocalClock {
        date: Date { year: 2024, month: 2, day: 29 },
        second_of_day: hour * 3600 + minute * 60 + second,
    }
}

#[test]
fn next_fire_before_target_is_today() {
    let ev = TimedEvent::new((7, 30), "wake".to_string());
    let next = ev.next_time_after(clock(6, 0, 0));
    assert_eq!(
        next,
        FireTime {
            today: Date { year: 2024, month: 2, day: 29 },
            day: FireDay::Today,
            hour: 7,
            minute: 30
        }
    );
}

#[test]
fn next_fire_after_target_is_tomorrow() {
    let ev = TimedEvent::new((7, 30), "wake".to_string());
    let next = ev.next_time_after(clock(8, 0, 0));
    assert_eq!(next.day, FireDay::Tomorrow);
    assert_eq!((next.hour, next.minute), (7, 30));
    assert_eq!(next.today, Date { year: 2024, month: 2, day: 29 });
}

#[test]
fn next_fire_at_the_very_second_is_tomorrow() {
    let ev = TimedEvent::new((7, 30), "wake".to_string());
    assert_eq!(ev.next_time_after(clock(7, 29, 59)).day, FireDay::Today);
    assert_eq!(ev.next_time_after(clock(7, 30, 0)).day, FireDay::Tomorrow);
    assert_eq!(ev.next_time_after(clock(7, 30, 1)).day, FireDay::Tomorrow);
}

#[test]
fn midnight_trigger_always_fires_tomorrow() {
    let ev = TimedEvent::new((0, 0), "midnight".to_string());
    assert_eq!(ev.next_time_after(clock(0, 0, 0)).day, FireDay::Tomorrow);
    assert_eq!(ev.next_time_after(clock(23, 59, 59)).day, FireDay::Tomorrow);
    let late = TimedEvent::new((23, 59), "late".to_string());
    assert_eq!(late.next_time_after(clock(23, 58, 59)).day, FireDay::Today);
}

#[test]
fn get_next_time_keeps_hour_and_minute() {
    let ev = TimedEvent::new((12, 34), "noon".to_string());
    let next = ev.get_next_time();
    assert_eq!((next.hour, next.minute), (12, 34));
    assert!((1..=12).contains(&next.today.month));
    assert!((1..=31).contains(&next.today.day));
}

#[test]
fn register_reads_hours_and_minutes() {
    let ev = TimedEvent::register("07:30".to_string(), "wake".to_string());
    assert_eq!(ev.time, (7, 30));
    assert_eq!(ev.id, "wake");
    let ev = TimedEvent::register("23:59".to_string(), "late".to_string());
    assert_eq!(ev.time, (23, 59));
}

#[test]
fn parse_clock_accepts_what_the_number_parser_accepts() {
    assert_eq!(parse_clock("07:30"), Some((7, 30)));
    assert_eq!(parse_clock("7:5"), Some((7, 5)));
    assert_eq!(parse_clock("+7:+30"), Some((7, 30)));
    assert_eq!(parse_clock("0007:0030"), Some((7, 30)));
    assert_eq!(parse_clock("07:30:15"), Some((7, 30)));
    assert_eq!(parse_clock("0:0"), Some((0, 0)));
}

#[test]
fn parse_clock_rejects_everything_else() {
    assert_eq!(parse_clock(""), None);
    assert_eq!(parse_clock("0730"), None);
    assert_eq!(parse_clock(":"), None);
    assert_eq!(parse_clock("07:"), None);
    assert_eq!(parse_clock(":30"), None);
    assert_eq!(parse_clock(" 7:30"), None);
    assert_eq!(parse_clock("7 :30"), None);
    assert_eq!(parse_clock("-7:30"), None);
    assert_eq!(parse_clock("+:30"), None);
    assert_eq!(parse_clock("++7:30"), None);
    assert_eq!(parse_clock("7a:30"), None);
    assert_eq!(parse_clock("24:00"), None);
    assert_eq!(parse_clock("23:60"), None);
    assert_eq!(parse_clock("4294967296:00"), None);
    assert_eq!(parse_clock("99999999999999999999999:00"), None);
}

#[test]
fn timer_command_calls_handle_timer() {
    assert_eq!(timer_command("wake"), "(handle-timer \"wake\")");
    assert_eq!(timer_command(""), "(handle-timer \"\")");
    let ev = TimedEvent::new((7, 30), "lights-on".to_string());
    assert_eq!(ev.command(), "(handle-timer \"lights-on\")");
}

#[test]
fn timed_event_clone_is_equal() {
    let ev = TimedEvent::new((7, 30), "wake".to_string());
    let copy = ev.clone();
    assert_eq!(copy.time, ev.time);
    assert_eq!(copy.id, ev.id);
}

#[test]
fn triggers_repeat_daily() {
    assert_eq!(REPEAT_SECONDS, 24 * 60 * 60);
}
