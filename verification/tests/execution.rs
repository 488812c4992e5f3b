use precession::execution::{advance, Progress, Step};
use precession::{Error, Session};

fn run(length: usize, outcomes: &[bool]) -> (Vec<usize>, Step) {
    let mut issued = Vec::new();
    let mut progress = Progress::Ready;
    let mut succeeded = true;
    let mut reports = outcomes.iter();
    loop {
        let (next, step) = advance(progress, succeeded, length);
        progress = next;
        match step {
            Step::Issue(position) => {
                issued.push(position);
                succeeded = *reports.next().unwrap();
            }
            last => return (issued, last),
        }
    }
}

#[test]
fn every_operation_is_issued_once_and_in_order() {
    assert_eq!(run(4, &[true, true, true, true]), (vec![0, 1, 2, 3], Step::Finish));
}

#[test]
fn nothing_to_do_finishes_at_once() {
    assert_eq!(advance(Progress::Ready, true, 0), (Progress::Finished, Step::Finish));
    assert_eq!(advance(Progress::Ready, false, 0), (Progress::Finished, Step::Finish));
}

#[test]
fn first_step_issues_the_first_operation() {
    assert_eq!(advance(Progress::Ready, true, 3), (Progress::Awaiting(0), Step::Issue(0)));
    assert_eq!(advance(Progress::Ready, false, 3), (Progress::Awaiting(0), Step::Issue(0)));
}

#[test]
fn success_issues_the_next_operation() {
    assert_eq!(advance(Progress::Awaiting(0), true, 3), (Progress::Awaiting(1), Step::Issue(1)));
    assert_eq!(advance(Progress::Awaiting(1), true, 3), (Progress::Awaiting(2), Step::Issue(2)));
    assert_eq!(advance(Progress::Awaiting(2), true, 3), (Progress::Finished, Step::Finish));
}

#[test]
fn failure_aborts_at_once() {
    assert_eq!(
        advance(Progress::Awaiting(1), false, 3),
        (Progress::Aborted(1), Step::Abort(Error::ControlOperationFailed(1)))
    );
    assert_eq!(
        run(5, &[true, true, false]),
        (vec![0, 1, 2], Step::Abort(Error::ControlOperationFailed(2)))
    );
    assert_eq!(run(5, &[false]), (vec![0], Step::Abort(Error::ControlOperationFailed(0))));
}

#[test]
fn nothing_follows_the_end() {
    for succeeded in [true, false] {
        assert_eq!(advance(Progress::Finished, succeeded, 3), (Progress::Finished, Step::Finish));
        assert_eq!(
            advance(Progress::Aborted(2), succeeded, 3),
            (Progress::Aborted(2), Step::Abort(Error::ControlOperationFailed(2)))
        );
    }
}

#[test]
fn last_position_does_not_overflow() {
    assert_eq!(
        advance(Progress::Awaiting(usize::MAX), true, usize::MAX),
        (Progress::Finished, Step::Finish)
    );
}

#[test]
fn refused_attach_on_an_empty_session_is_a_failure() {
    let definition = Session { name: "empty".to_string(), root: None, windows: vec![] };
    let plan = definition.render().unwrap();
    assert_eq!(
        run(plan.len(), &[true, true, true, false]),
        (vec![0, 1, 2, 3], Step::Abort(Error::ControlOperationFailed(3)))
    );
    assert_eq!(run(plan.len(), &[true, true, true, true]), (vec![0, 1, 2, 3], Step::Finish));
}
