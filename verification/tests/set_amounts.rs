use progress_monitor::prelude::CallbackProgressMonitor;
use progress_monitor::prelude::ProgressMonitor;
use progress_monitor::prelude::ProgressSink;
use progress_monitor::prelude::SetWork;
use progress_monitor::prelude::Work;
use progress_monitor::MyWork;

struct QuietSink;

impl ProgressSink<SetWork<MyWork>> for QuietSink {
    fn notify(&self, total: &SetWork<MyWork>, completed: &SetWork<MyWork>) {
        println!("{}/{}", completed.size(), total.size());
    }
}

#[test]
fn set_tracker_counts_declared_milestones_only() {
    // Total: two declared milestones.  Submitting a milestone outside the
    // total, or the same milestone twice, is tolerated at the tracker level
    // and never counts toward completion.
    let total = SetWork::from_items(&vec![MyWork::ResourcesLoaded, MyWork::SystemInitialized]);
    let mut mon = CallbackProgressMonitor::new("set root".to_string(), total, QuietSink);

    mon.worked(SetWork::singleton(MyWork::ResourcesLoaded));
    assert_eq!(mon.completed().size(), 1);
    mon.worked(SetWork::singleton(MyWork::ConnectionEstablished));
    assert_eq!(mon.completed().size(), 1);
    mon.worked(SetWork::singleton(MyWork::ConnectionEstablished));
    assert_eq!(mon.completed().size(), 1);
    mon.worked(SetWork::singleton(MyWork::SystemInitialized));
    assert_eq!(mon.completed().size(), 2);
    assert_eq!(mon.remaining().size(), 0);
    assert!(mon.close().is_ok());
}

#[test]
fn set_close_fails_before_all_milestones() {
    let total = SetWork::from_items(&vec![MyWork::ResourcesLoaded, MyWork::SystemInitialized]);
    let mut mon = CallbackProgressMonitor::new("set root".to_string(), total, QuietSink);
    mon.worked(SetWork::singleton(MyWork::ResourcesLoaded));
    assert!(mon.close().is_err());
    mon.worked(SetWork::singleton(MyWork::SystemInitialized));
    assert!(mon.close().is_ok());
}

#[test]
fn set_addition_rejects_overlap() {
    let a = SetWork::from_items(&vec![MyWork::ResourcesLoaded, MyWork::ConnectionEstablished]);
    let b = SetWork::singleton(MyWork::ConnectionEstablished);
    let err = a.add(b);
    assert!(err.is_err());
    assert_eq!(
        err.unwrap_err().msg,
        "an element of the combined amount is already present"
    );
}

#[test]
fn set_addition_unions_disjoint_sets() {
    let a = SetWork::singleton(MyWork::ResourcesLoaded);
    let b = SetWork::singleton(MyWork::SystemInitialized);
    let sum = a.add(b).unwrap();
    assert_eq!(sum.size(), 2);
}

#[test]
fn set_subtraction_is_difference() {
    let a = SetWork::from_items(&vec![MyWork::ResourcesLoaded, MyWork::SystemInitialized]);
    let b = SetWork::singleton(MyWork::ResourcesLoaded);
    let diff = a.sub(&b);
    assert_eq!(diff.size(), 1);
    let none: SetWork<MyWork> = SetWork::zero();
    assert!(!diff.is_zero());
    assert!(none.is_zero());
}

#[test]
fn set_from_items_removes_duplicates() {
    let set = SetWork::from_items(&vec![
        MyWork::ResourcesLoaded,
        MyWork::ResourcesLoaded,
        MyWork::SystemInitialized,
    ]);
    assert_eq!(set.size(), 2);
}

#[test]
fn set_min_picks_fewer_elements() {
    let a = SetWork::singleton(MyWork::ResourcesLoaded);
    let b = SetWork::from_items(&vec![MyWork::ResourcesLoaded, MyWork::SystemInitialized]);
    assert_eq!(SetWork::min(&a, &b).size(), 1);
}
