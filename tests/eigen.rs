use linear::decomposition::{advance, eigen_shape, Action, EigenShape, Phase};
use linear::{check_status, Error};

#[test]
fn five_by_five_protocol_run() {
    assert_eq!(eigen_shape(25, 5), Some(EigenShape { n: 5, lda: 5 }));
    assert_eq!(advance(Phase::Query, 0, 170), Action::Execute { size: 170, lwork: 170 });
    assert_eq!(advance(Phase::Execute, 0, 0), Action::Finish(Ok(())));
}

#[test]
fn empty_matrix_is_accepted() {
    assert_eq!(eigen_shape(0, 0), Some(EigenShape { n: 0, lda: 1 }));
}

#[test]
fn non_square_buffer_is_refused() {
    assert_eq!(eigen_shape(24, 5), None);
    assert_eq!(eigen_shape(5, 25), None);
    assert_eq!(eigen_shape(0, 1), None);
}

#[test]
fn failed_query_stops_before_execution() {
    assert_eq!(advance(Phase::Query, -4, 170), Action::Finish(Err(Error::InvalidArguments)));
    assert_eq!(advance(Phase::Query, 2, 170), Action::Finish(Err(Error::FailedToConverge)));
    assert_eq!(advance(Phase::Query, 0, -1), Action::Finish(Err(Error::InvalidArguments)));
}

#[test]
fn execution_status_is_the_outcome() {
    assert_eq!(advance(Phase::Execute, 3, 170), Action::Finish(Err(Error::FailedToConverge)));
    assert_eq!(advance(Phase::Execute, -5, 170), Action::Finish(Err(Error::InvalidArguments)));
}

#[test]
fn status_codes_map_by_sign() {
    assert_eq!(check_status(0), Ok(()));
    assert_eq!(check_status(-1), Err(Error::InvalidArguments));
    assert_eq!(check_status(i32::MIN), Err(Error::InvalidArguments));
    assert_eq!(check_status(1), Err(Error::FailedToConverge));
    assert_eq!(check_status(i32::MAX), Err(Error::FailedToConverge));
}

#[test]
fn error_descriptions() {
    assert_eq!(Error::InvalidArguments.description(), "one or more arguments have illegal values");
    assert_eq!(Error::FailedToConverge.description(), "the algorithm failed to converge");
}
