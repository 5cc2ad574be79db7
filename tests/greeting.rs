use hello_plugin::{
    add_people, greet_people, greeting_line, GreetTimer, HelloPlugin, Name, GREET_INTERVAL_NS,
};

const SECOND_NS: u64 = 1_000_000_000;

fn roster() -> Vec<Name> {
    add_people().into_iter().map(|(_, n)| n).collect()
}

fn sorted(mut lines: Vec<String>) -> Vec<String> {
    lines.sort();
    lines
}

fn batch() -> Vec<String> {
    vec![
        "hello Elaina Poctor!".to_string(),
        "hello Renzo Hume!".to_string(),
        "hello Zayna Nieves!".to_string(),
    ]
}

#[test]
fn start_up_makes_three_distinct_people() {
    let people = add_people();
    assert_eq!(people.len(), 3);
    let names: Vec<&str> = people.iter().map(|(_, n)| n.0.as_str()).collect();
    assert_eq!(names, vec!["Elaina Poctor", "Renzo Hume", "Zayna Nieves"]);
    assert_ne!(names[0], names[1]);
    assert_ne!(names[0], names[2]);
    assert_ne!(names[1], names[2]);
}

#[test]
fn greeting_line_wraps_the_name() {
    let line = greeting_line(&Name("Renzo Hume".to_string()));
    assert_eq!(line, "hello Renzo Hume!");
    assert_eq!(greeting_line(&Name(String::new())), "hello !");
}

#[test]
fn plugin_timer_is_fresh_and_two_seconds_long() {
    let t = HelloPlugin.greet_timer();
    assert_eq!(t.duration_ns, 2 * SECOND_NS);
    assert_eq!(GREET_INTERVAL_NS, 2 * SECOND_NS);
    assert_eq!(t.elapsed_ns, 0);
    assert!(!t.just_finished());
}

#[test]
fn one_second_frames_greet_after_second_and_fourth() {
    let names = roster();
    let mut timer = GreetTimer::new();
    let mut greeted = Vec::new();
    for _ in 0..5 {
        let lines = greet_people(&mut timer, SECOND_NS, &names);
        greeted.push(!lines.is_empty());
        if !lines.is_empty() {
            assert_eq!(sorted(lines), batch());
        }
    }
    assert_eq!(greeted, vec![false, true, false, true, false]);
    assert_eq!(timer.elapsed_ns, SECOND_NS);
}

#[test]
fn nothing_before_the_threshold() {
    let names = roster();
    let mut timer = GreetTimer::new();
    for _ in 0..3 {
        assert!(greet_people(&mut timer, SECOND_NS / 2, &names).is_empty());
    }
    assert!(greet_people(&mut timer, SECOND_NS / 2 - 1, &names).is_empty());
    assert_eq!(timer.elapsed_ns, 2 * SECOND_NS - 1);
    assert_eq!(sorted(greet_people(&mut timer, 1, &names)), batch());
    assert_eq!(timer.elapsed_ns, 0);
}

#[test]
fn timer_rearms_after_every_crossing() {
    let names = roster();
    let mut timer = GreetTimer::new();
    let mut total_lines = 0;
    for _ in 0..20 {
        let lines = greet_people(&mut timer, 2 * SECOND_NS, &names);
        assert_eq!(lines.len(), 3);
        total_lines += lines.len();
    }
    assert_eq!(total_lines, 60);
}

#[test]
fn one_batch_per_crossing_over_uneven_frames() {
    let names = roster();
    let mut timer = GreetTimer::new();
    let deltas = [700, 900, 600, 1_300, 100, 1_900, 500]
        .map(|ms: u64| ms * 1_000_000);
    let mut total_lines = 0;
    for d in deltas {
        total_lines += greet_people(&mut timer, d, &names).len();
    }
    // 6.0 s in all: three crossings of the two-second interval.
    assert_eq!(total_lines, 9);
    assert_eq!(timer.elapsed_ns, 0);
}

#[test]
fn a_long_frame_counts_every_interval_but_greets_once() {
    let names = roster();
    let mut timer = GreetTimer::new();
    let lines = greet_people(&mut timer, 4 * SECOND_NS + SECOND_NS / 2, &names);
    assert_eq!(lines.len(), 3);
    assert_eq!(timer.times_finished_this_tick, 2);
    assert_eq!(timer.elapsed_ns, SECOND_NS / 2);
}

#[test]
fn tick_keeps_the_remainder() {
    let mut timer = GreetTimer::from_nanos(3);
    timer.tick(2);
    assert_eq!((timer.elapsed_ns, timer.times_finished_this_tick), (2, 0));
    assert!(!timer.just_finished());
    timer.tick(8);
    assert_eq!((timer.elapsed_ns, timer.times_finished_this_tick), (1, 3));
    assert!(timer.just_finished());
    timer.tick(0);
    assert_eq!((timer.elapsed_ns, timer.times_finished_this_tick), (1, 0));
    assert_eq!(timer.duration_ns, 3);
}

#[test]
fn no_people_no_lines() {
    let mut timer = GreetTimer::new();
    assert!(greet_people(&mut timer, 2 * SECOND_NS, &Vec::new()).is_empty());
    assert!(timer.just_finished());
}
