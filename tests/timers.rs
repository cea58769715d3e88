use vaccel_torch::prof::ProfRegion;
use vaccel_torch::profile::{Timer, Timers};
use vaccel_torch::Error;

#[test]
fn two_shots_and_average() {
    let mut t = Timers::new();
    t.start_at("x", 100);
    t.stop_at("x", 130);
    t.start_at("x", 200);
    t.stop_at("x", 250);
    let shots = t.get("x").unwrap();
    assert_eq!(shots.len(), 2);
    assert_eq!(shots[0], Timer { start: 100, time: Some(30) });
    assert_eq!(shots[1], Timer { start: 200, time: Some(50) });
    assert_eq!(t.total("x"), Some(80));
    assert_eq!(t.average("x"), Some(40));
}

#[test]
fn stop_without_start() {
    let mut t = Timers::new();
    t.stop_at("y", 10);
    assert!(t.get("y").is_none());
    t.stop("y");
    assert!(t.get("y").is_none());
    assert_eq!(t.average("y"), None);
}

#[test]
fn nested_shots_close_latest_first() {
    let mut t = Timers::new();
    t.start_at("n", 1);
    t.start_at("n", 5);
    t.stop_at("n", 7);
    assert_eq!(t.get("n").unwrap()[1].time, Some(2));
    assert_eq!(t.get("n").unwrap()[0].time, None);
    assert_eq!(t.average("n"), Some(2));
    t.stop_at("n", 11);
    assert_eq!(t.get("n").unwrap()[0].time, Some(10));
}

#[test]
fn clock_driven_shots() {
    let mut t = Timers::new();
    t.start("c");
    t.stop("c");
    let shots = t.get("c").unwrap();
    assert_eq!(shots.len(), 1);
    assert!(shots[0].time.is_some());
    t.clear();
    assert!(t.get("c").is_none());
}

#[test]
fn report_lines() {
    assert_eq!(Timers::format("", "", "load", 42, 3), "load: total_time: 42 nsec nr_entries: 3");
    assert_eq!(Timers::format("vaccel", "_s", "run", 0, 1), "[vaccel] run_s: total_time: 0 nsec nr_entries: 1");
    let mut t = Timers::new();
    t.start_at("a", 0);
    t.stop_at("a", 10);
    t.start_at("b", 0);
    t.start_at("a", 20);
    t.stop_at("a", 25);
    assert_eq!(
        t.print_all_total_to_buf("m"),
        "[m] a: total_time: 15 nsec nr_entries: 2\n[m] b: total_time: 0 nsec nr_entries: 1"
    );
    assert_eq!(
        t.print_all_to_buf(""),
        "a: total_time: 5 nsec nr_entries: 1\nb: total_time: 0 nsec nr_entries: 1"
    );
    assert_eq!(Timers::new().print_all_to_buf("x"), "");
    let all = t.get_all();
    assert_eq!(all.len(), 2);
    assert_eq!(all[0].0, "a");
    assert_eq!(all[1].1, vec![Timer { start: 0, time: None }]);
}

#[test]
fn profile_region() {
    assert!(matches!(ProfRegion::new("bad\0"), Err(Error::InvalidArgument)));
    let mut r = ProfRegion::new("infer").ok().unwrap();
    assert_eq!(r.name(), "infer");
    assert_eq!(r.exit(5), Err(Error::InvalidArgument));
    assert_eq!(r.enter(10), Ok(()));
    assert_eq!(r.exit(14), Ok(()));
    assert_eq!(r.samples(), &[Timer { start: 10, time: Some(4) }]);
}

#[test]
fn one_report_line_per_name() {
    let mut t = Timers::new();
    t.start_at("x", 0);
    t.stop_at("x", 4);
    t.start_at("x", 10);
    t.stop_at("x", 16);
    assert_eq!(t.print_all_total_to_buf(""), "x: total_time: 10 nsec nr_entries: 2");
    assert_eq!(t.print_all_to_buf(""), "x: total_time: 6 nsec nr_entries: 1");
    assert_eq!(t.get_all().len(), 1);
}

#[test]
fn region_total_and_clock() {
    let mut r = ProfRegion::new("r").ok().unwrap();
    assert_eq!(r.enter(0), Ok(()));
    assert_eq!(r.exit(3), Ok(()));
    assert_eq!(r.enter(5), Ok(()));
    assert_eq!(r.exit(9), Ok(()));
    assert_eq!(r.total(), 7);
    assert_eq!(r.enter_now(), Ok(()));
    assert_eq!(r.exit_now(), Ok(()));
    assert_eq!(r.exit_now(), Err(Error::InvalidArgument));
    assert_eq!(r.samples().len(), 3);
}
