use visionkit::wait::{next_wait_step, WaitStep};

#[test]
fn a_woken_executor_polls_again() {
    assert_eq!(next_wait_step(true, true), WaitStep::Poll);
    assert_eq!(next_wait_step(true, false), WaitStep::Poll);
}

#[test]
fn the_main_thread_pumps_its_run_loop_while_waiting() {
    assert_eq!(next_wait_step(false, true), WaitStep::PumpMainRunLoop);
}

#[test]
fn other_threads_park_instead_of_spinning() {
    assert_eq!(next_wait_step(false, false), WaitStep::Park);
}
