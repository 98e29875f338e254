use flashmon::monitor::{Monitor, PollStep, TaskDisplay};
use flashmon::report::WriteFailure;
use flashmon::session::SessionPhase;
use flashmon::task::{Fraction, TaskReading};

fn reading(bytes_written: u64, finished: bool) -> TaskReading {
    TaskReading { bytes_written, finished }
}

fn ready_monitor(image: Vec<u8>) -> Monitor {
    let mut m = Monitor::new();
    assert!(m.buffer.begin_load(String::from("/tmp/image.iso")));
    m.buffer.complete_load(image);
    m
}

fn targets() -> Vec<String> {
    vec![
        String::from("/dev/sda"),
        String::from("/dev/sdb"),
        String::from("/dev/sdc"),
    ]
}

fn fractions(displays: &[TaskDisplay]) -> Vec<f64> {
    displays
        .iter()
        .map(|d| d.fraction.num as f64 / d.fraction.den as f64)
        .collect()
}

#[test]
fn empty_buffer_poll_is_quiet() {
    let mut m = Monitor::new();
    let step = m.poll(&vec![]);
    assert!(matches!(step, PollStep::Quiet));
    assert!(step.should_reschedule());
}

#[test]
fn loading_poll_shows_busy() {
    let mut m = Monitor::new();
    assert!(m.buffer.begin_load(String::from("/tmp/image.iso")));
    let step = m.poll(&vec![]);
    match step {
        PollStep::Observe(v) => {
            assert!(v.busy);
            assert!(!v.proceed_enabled);
        }
        _ => panic!("expected an image-view update"),
    }
}

#[test]
fn ready_poll_surfaces_path_and_size() {
    let mut m = ready_monitor(vec![0u8; 2000]);
    let step = m.poll(&vec![]);
    match &step {
        PollStep::Observe(v) => {
            assert!(!v.busy);
            assert!(v.proceed_enabled);
            assert_eq!(v.image_path, "/tmp/image.iso");
            assert_eq!(v.image_size, 2000);
        }
        _ => panic!("expected an image-view update"),
    }
    assert!(step.should_reschedule());
}

#[test]
fn invalidated_poll_disables_proceed() {
    let mut m = Monitor::new();
    assert!(m.buffer.begin_load(String::from("/tmp/image.iso")));
    m.buffer.fail_load();
    let step = m.poll(&vec![]);
    match step {
        PollStep::Observe(v) => {
            assert!(!v.busy);
            assert!(!v.proceed_enabled);
        }
        _ => panic!("expected an image-view update"),
    }
}

#[test]
fn start_flash_hands_back_the_image_and_dispatches_tasks() {
    let mut m = ready_monitor(vec![5u8; 2000]);
    m.poll(&vec![]);
    let image = m.start_flash(&targets());
    assert_eq!(image.len(), 2000);
    assert!(matches!(m.session.phase, SessionPhase::Running));
    assert_eq!(m.session.tasks.len(), 3);
    for (task, target) in m.session.tasks.iter().zip(targets().iter()) {
        assert_eq!(&task.device_id, target);
        assert_eq!(task.bytes_written, 0);
        assert!(!task.finished);
    }
    assert!(m.buffer.bytes.is_empty());
}

#[test]
fn fresh_session_cannot_be_drained() {
    // Draining right after dispatch is contractually unreachable: the
    // session is still running and no task has finished.
    let mut m = ready_monitor(vec![5u8; 2000]);
    m.poll(&vec![]);
    m.start_flash(&targets());
    assert!(matches!(m.session.phase, SessionPhase::Running));
    assert!(m.session.tasks.iter().all(|t| !t.finished));
    // Even a poll pass keeps the session running while a task is unfinished.
    let step = m.poll(&vec![reading(0, false), reading(0, false), reading(0, false)]);
    assert!(matches!(step, PollStep::Progress(_)));
    assert!(matches!(m.session.phase, SessionPhase::Running));
}

#[test]
fn progress_poll_reports_exact_fractions() {
    let mut m = ready_monitor(vec![5u8; 2000]);
    m.poll(&vec![]);
    m.start_flash(&targets());
    let step = m.poll(&vec![reading(500, false), reading(2000, true), reading(0, false)]);
    match step {
        PollStep::Progress(ds) => {
            assert_eq!(fractions(&ds), vec![0.25, 1.0, 0.0]);
        }
        _ => panic!("expected a progress update"),
    }
}

#[test]
fn completion_scenario_all_succeed() {
    // Three tasks; the writers report 1000, 2000 and 500 bytes, all
    // finished: one poll yields whole fractions and stops rescheduling,
    // and the drain reports full success with an empty error report.
    let mut m = ready_monitor(vec![5u8; 2000]);
    m.poll(&vec![]);
    m.start_flash(&targets());
    let step = m.poll(&vec![reading(1000, true), reading(2000, true), reading(500, true)]);
    let displays = match step {
        PollStep::AllFinished(ds) => ds,
        _ => panic!("expected completion"),
    };
    assert_eq!(fractions(&displays), vec![1.0, 1.0, 1.0]);
    assert!(!PollStep::AllFinished(displays).should_reschedule());
    let done = m.drain(&vec![Ok(()), Ok(()), Ok(())]);
    assert_eq!(done.summary, "3 devices successfully flashed");
    assert!(done.errors.is_empty());
    assert!(matches!(m.session.phase, SessionPhase::Idle));
    assert!(m.session.tasks.is_empty());
}

#[test]
fn completion_scenario_one_failure() {
    // The second task fails with a short write: the summary counts two of
    // three, and the report holds exactly that device and reason.
    let mut m = ready_monitor(vec![5u8; 2000]);
    m.poll(&vec![]);
    m.start_flash(&targets());
    let step = m.poll(&vec![reading(2000, true), reading(700, true), reading(2000, true)]);
    assert!(matches!(step, PollStep::AllFinished(_)));
    let done = m.drain(&vec![Ok(()), Err(WriteFailure::ShortWrite), Ok(())]);
    assert_eq!(done.summary, "2 of 3 devices successfully flashed");
    assert_eq!(done.errors.len(), 1);
    assert_eq!(done.errors.entries[0].device_id, "/dev/sdb");
    assert!(matches!(done.errors.entries[0].reason, WriteFailure::ShortWrite));
}

#[test]
fn error_report_keeps_submission_order() {
    // Targets A, B, C where B and C fail: the report is exactly
    // [(B, reason), (C, reason)], in that order.
    let mut m = ready_monitor(vec![5u8; 100]);
    m.poll(&vec![]);
    m.start_flash(&vec![String::from("A"), String::from("B"), String::from("C")]);
    m.poll(&vec![reading(100, true), reading(100, true), reading(100, true)]);
    let done = m.drain(&vec![
        Ok(()),
        Err(WriteFailure::OpenFailure),
        Err(WriteFailure::VerificationMismatch),
    ]);
    assert_eq!(done.summary, "1 of 3 devices successfully flashed");
    assert_eq!(done.errors.len(), 2);
    assert_eq!(done.errors.entries[0].device_id, "B");
    assert!(matches!(done.errors.entries[0].reason, WriteFailure::OpenFailure));
    assert_eq!(done.errors.entries[1].device_id, "C");
    assert!(matches!(
        done.errors.entries[1].reason,
        WriteFailure::VerificationMismatch
    ));
}

#[test]
fn completion_is_monotone() {
    // Once a poll observes every task finished, it stops rescheduling and
    // no later poll re-enters the per-task work.
    let mut m = ready_monitor(vec![5u8; 100]);
    m.poll(&vec![]);
    m.start_flash(&vec![String::from("/dev/sda")]);
    let step = m.poll(&vec![reading(100, true)]);
    assert!(!step.should_reschedule());
    assert!(matches!(m.session.phase, SessionPhase::Draining));
    // A further poll before the drain leaves the session untouched.
    let step = m.poll(&vec![]);
    assert!(matches!(step, PollStep::Quiet));
    assert!(matches!(m.session.phase, SessionPhase::Draining));
    assert_eq!(m.session.tasks.len(), 1);
    let done = m.drain(&vec![Ok(())]);
    assert_eq!(done.summary, "1 devices successfully flashed");
}

#[test]
fn session_with_no_tasks_keeps_polling() {
    let mut m = ready_monitor(vec![5u8; 100]);
    m.poll(&vec![]);
    m.start_flash(&vec![]);
    let step = m.poll(&vec![]);
    match step {
        PollStep::Progress(ds) => assert!(ds.is_empty()),
        _ => panic!("an empty running session still reschedules"),
    }
    assert!(matches!(m.session.phase, SessionPhase::Running));
}

#[test]
fn zero_sized_image_tasks_complete() {
    // A zero-sized image: the guard keeps fractions defined, and a
    // finished task is whole.
    let mut m = ready_monitor(Vec::new());
    m.poll(&vec![]);
    m.start_flash(&vec![String::from("/dev/sda")]);
    let step = m.poll(&vec![reading(0, false)]);
    match step {
        PollStep::Progress(ds) => {
            assert_eq!(ds[0].fraction, Fraction { num: 0, den: 1 });
        }
        _ => panic!("expected a progress update"),
    }
    let step = m.poll(&vec![reading(0, true)]);
    match step {
        PollStep::AllFinished(ds) => {
            assert_eq!(ds[0].fraction, Fraction { num: 1, den: 1 });
        }
        _ => panic!("expected completion"),
    }
}

#[test]
fn drained_monitor_is_ready_for_a_new_run() {
    let mut m = ready_monitor(vec![5u8; 100]);
    m.poll(&vec![]);
    m.start_flash(&vec![String::from("/dev/sda")]);
    m.poll(&vec![reading(100, true)]);
    m.drain(&vec![Ok(())]);
    assert!(matches!(m.session.phase, SessionPhase::Idle));
    // A fresh load and a fresh session go through unchanged.
    assert!(m.buffer.begin_load(String::from("/tmp/next.iso")));
    m.buffer.complete_load(vec![9u8; 50]);
    m.poll(&vec![]);
    m.start_flash(&vec![String::from("/dev/sdb")]);
    let step = m.poll(&vec![reading(50, true)]);
    assert!(matches!(step, PollStep::AllFinished(_)));
    let done = m.drain(&vec![Ok(())]);
    assert_eq!(done.summary, "1 devices successfully flashed");
}

#[test]
fn rate_labels_flow_through_polls() {
    let mut m = ready_monitor(vec![5u8; 100_000_000]);
    m.poll(&vec![]);
    m.start_flash(&vec![String::from("/dev/sda")]);
    // Three polls advancing by 3 MiB each: the smoothed rate is 3 MiB per
    // interval once three deltas are in.
    let step_bytes = 3 * 1048576u64;
    m.poll(&vec![reading(step_bytes, false)]);
    m.poll(&vec![reading(2 * step_bytes, false)]);
    let step = m.poll(&vec![reading(3 * step_bytes, false)]);
    match step {
        PollStep::Progress(ds) => assert_eq!(ds[0].rate_text, "3 MiB/s"),
        _ => panic!("expected a progress update"),
    }
}
