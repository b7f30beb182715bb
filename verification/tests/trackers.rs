use progress_monitor::prelude::CallbackProgressMonitor;
use progress_monitor::prelude::NumericWork;
use progress_monitor::prelude::ProgressMonitor;
use progress_monitor::prelude::ProgressMonitorDivision;
use progress_monitor::prelude::ProgressSink;

struct PrintSink;

impl ProgressSink<NumericWork> for PrintSink {
    fn notify(&self, total: &NumericWork, completed: &NumericWork) {
        println!("{}/{}", completed.value(), total.value());
    }
}

#[test]
fn lib_test() {
    let subscriber = tracing_subscriber::FmtSubscriber::builder()
        .with_max_level(tracing::Level::TRACE)
        .finish();
    tracing::subscriber::set_global_default(subscriber)
        .expect("setting default subscriber failed");

    let mut mon =
        CallbackProgressMonitor::new("root".to_string(), NumericWork::new(300), PrintSink);
    mon.worked(NumericWork::new(100));

    let mut sub = mon.new_child("a".to_string(), NumericWork::new(100), NumericWork::new(5000));
    sub.worked(NumericWork::new(1000));
    sub.worked(NumericWork::new(1000));
    sub.worked(NumericWork::new(1000));
    sub.worked(NumericWork::new(1000));

    println!("drop sub");
    // The child has 1000 of its 5000 units left, so closing it must fail.
    assert!(sub.close().is_err());
    let mut mon = sub.into_parent();
    println!("dropped sub");

    mon.worked(NumericWork::new(120));
    assert_eq!(mon.completed().value(), 300);
}

#[test]
fn main_test() {
    let mut mon =
        CallbackProgressMonitor::new("root".to_string(), NumericWork::new(300), PrintSink);
    mon.worked(NumericWork::new(100));

    let mut sub = mon.new_child("a".to_string(), NumericWork::new(100), NumericWork::new(5000));
    sub.worked(NumericWork::new(1000));
    sub.worked(NumericWork::new(1000));
    sub.worked(NumericWork::new(1000));
    sub.worked(NumericWork::new(1000));

    // Disposing of the unfinished child tries an implicit close, whose
    // failure is non-fatal for a child: the parent comes back regardless.
    let mut mon = sub.into_parent();

    mon.worked(NumericWork::new(120));
    assert_eq!(mon.completed().value(), 300);
}

#[test]
fn overshoot_clamps_to_total() {
    let mut mon = CallbackProgressMonitor::new("o".to_string(), NumericWork::new(300), PrintSink);
    mon.worked(NumericWork::new(301));
    assert_eq!(mon.completed().value(), 300);
    assert_eq!(mon.remaining().value(), 0);
    assert!(mon.close().is_ok());
}

#[test]
fn close_requires_zero_remaining() {
    let mut mon = CallbackProgressMonitor::new("c".to_string(), NumericWork::new(10), PrintSink);
    mon.worked(NumericWork::new(4));
    let err = mon.close();
    assert!(err.is_err());
    assert_eq!(
        err.unwrap_err().msg,
        "work is still remaining at close for progress monitor c"
    );
    // A failed close leaves the tracker open: submit the rest and retry.
    assert!(!mon.is_closed());
    mon.worked(NumericWork::new(6));
    assert!(mon.close().is_ok());
    assert!(mon.is_closed());
    // A second close is idempotent.
    assert!(mon.close().is_ok());
}

#[test]
fn worked_after_close_is_rejected() {
    let mut mon = CallbackProgressMonitor::new("w".to_string(), NumericWork::new(5), PrintSink);
    mon.worked(NumericWork::new(5));
    assert!(mon.close().is_ok());
    mon.worked(NumericWork::new(3));
    assert_eq!(mon.completed().value(), 5);
    assert_eq!(mon.total().value(), 5);
}

#[test]
fn exact_delegation() {
    // Delegate 100 parent units to a child counting 3 of its own; three
    // increments of 1 must credit the parent with exactly 100, although the
    // per-call proportional share rounds down to 33.
    let mon = CallbackProgressMonitor::new("p".to_string(), NumericWork::new(100), PrintSink);
    let mut sub = mon.new_child("c".to_string(), NumericWork::new(100), NumericWork::new(3));
    sub.worked(NumericWork::new(1));
    assert_eq!(sub.parent.completed().value(), 33);
    sub.worked(NumericWork::new(1));
    assert_eq!(sub.parent.completed().value(), 66);
    sub.worked(NumericWork::new(1));
    assert_eq!(sub.parent.completed().value(), 100);
    assert!(sub.close().is_ok());
    let mut mon = sub.into_parent();
    assert_eq!(mon.completed().value(), 100);
    assert!(mon.close().is_ok());
}

#[test]
fn single_active_child_releases_parent() {
    // Spawning moves the parent into the child, so no other handle can touch
    // the parent while the child lives; the parent handle only comes back
    // from into_parent.
    let mon = CallbackProgressMonitor::new("s".to_string(), NumericWork::new(10), PrintSink);
    let mut sub = mon.new_child("c".to_string(), NumericWork::new(10), NumericWork::new(2));
    sub.worked(NumericWork::new(2));
    assert!(sub.close().is_ok());
    let mut mon = sub.into_parent();
    assert_eq!(mon.completed().value(), 10);
    assert!(mon.close().is_ok());
}

#[test]
fn child_name_and_close_error() {
    let mon = CallbackProgressMonitor::new("p".to_string(), NumericWork::new(10), PrintSink);
    let mut sub = mon.new_child("child a".to_string(), NumericWork::new(5), NumericWork::new(2));
    assert_eq!(sub.name(), "child a");
    sub.worked(NumericWork::new(1));
    let err = sub.close().unwrap_err();
    assert_eq!(
        err.msg,
        "work is still remaining at close for progress monitor child a"
    );
    // The first increment pushed 1 / 2 * 5 rounded down, so 2.
    assert_eq!(sub.parent.completed().value(), 2);
    // The finishing increment pushes the exact remainder 3.
    sub.worked(NumericWork::new(1));
    assert!(sub.close().is_ok());
    let mon = sub.into_parent();
    assert_eq!(mon.completed().value(), 5);
}

#[test]
fn nested_scenario() {
    // Root total 300.
    let mut root = CallbackProgressMonitor::new("root".to_string(), NumericWork::new(300), PrintSink);
    root.worked(NumericWork::new(1));
    assert_eq!(root.completed().value(), 1);
    root.worked(NumericWork::new(99));
    assert_eq!(root.completed().value(), 100);

    // Child A: 100 parent units on a scale of 5000.
    let mut a = root.new_child("a".to_string(), NumericWork::new(100), NumericWork::new(5000));
    for _ in 0..4 {
        a.worked(NumericWork::new(1000));
    }
    assert_eq!(a.completed().value(), 4000);
    // Each call pushed 1000 / 5000 * 100 = 20 into the root.
    assert_eq!(a.parent.completed().value(), 180);

    // Child B from A: 1000 of A's units on a scale of 11.
    let mut b = a.new_child("b".to_string(), NumericWork::new(1000), NumericWork::new(11));
    b.worked(NumericWork::new(3));
    b.worked(NumericWork::new(3));
    b.worked(NumericWork::new(2));
    b.worked(NumericWork::new(2));
    // The final increment reaches B's total, so B pushes its exact remainder
    // into A, which thereby reaches its own total and pushes its exact
    // remainder into the root.
    b.worked(NumericWork::new(1));
    assert!(b.close().is_ok());
    let mut a = b.into_parent();
    assert_eq!(a.completed().value(), 5000);
    assert!(a.close().is_ok());
    let mut root = a.into_parent();
    assert_eq!(root.completed().value(), 200);

    root.worked(NumericWork::new(100));
    assert_eq!(root.completed().value(), 300);
    assert!(root.close().is_ok());
}
