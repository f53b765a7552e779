use channel_runner::events::Job;
use channel_runner::runner::Runner;

#[test]
fn new_runner_has_no_job() {
    let r = Runner::new();
    assert!(r.0.current_job.is_none());
}

#[test]
fn set_current_job_records_the_job() {
    let mut r = Runner::new();
    r.set_current_job(Job { id: 3 });
    assert_eq!(r.0.current_job, Some(Job { id: 3 }));
    r.set_current_job(Job { id: 4 });
    assert_eq!(r.0.current_job, Some(Job { id: 4 }));
}
