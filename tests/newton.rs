use closest_parameter_newton::domain::constrain_to_domain;
use closest_parameter_newton::error::Error;
use closest_parameter_newton::newton::ClosestParameterNewton;

#[test]
fn inside_candidate_is_unchanged() {
    for closed in [false, true] {
        assert_eq!(constrain_to_domain(0, 10, closed, 5), 5);
        assert_eq!(constrain_to_domain(0, 10, closed, 0), 0);
        assert_eq!(constrain_to_domain(0, 10, closed, 10), 10);
        assert_eq!(constrain_to_domain(-7, 3, closed, -6), -6);
    }
}

#[test]
fn open_domain_clamps() {
    assert_eq!(constrain_to_domain(0, 10, false, -3), 0);
    assert_eq!(constrain_to_domain(0, 10, false, 15), 10);
    assert_eq!(constrain_to_domain(0, 10, false, i128::MIN), 0);
    assert_eq!(constrain_to_domain(0, 10, false, i128::MAX), 10);
    let once = constrain_to_domain(0, 10, false, 42);
    assert_eq!(constrain_to_domain(0, 10, false, once), once);
}

#[test]
fn closed_domain_wraps_once() {
    assert_eq!(constrain_to_domain(0, 10, true, -2), 8);
    assert_eq!(constrain_to_domain(0, 10, true, -10), 0);
    assert_eq!(constrain_to_domain(0, 10, true, 12), 2);
    assert_eq!(constrain_to_domain(0, 10, true, 20), 10);
    assert_eq!(constrain_to_domain(5, 9, true, 4), 8);
}

#[test]
fn closed_domain_wraps_only_one_span() {
    assert_eq!(constrain_to_domain(0, 10, true, -25), -15);
    assert_eq!(constrain_to_domain(0, 10, true, 31), 21);
}

#[test]
fn wrap_round_trip() {
    let (low, high) = (2i64, 12i64);
    for delta in 1..10i128 {
        assert_eq!(constrain_to_domain(low, high, true, low as i128 - delta), high as i128 - delta);
        assert_eq!(constrain_to_domain(low, high, true, high as i128 + delta), low as i128 + delta);
    }
}

#[test]
fn with_gamma_rejects_out_of_range() {
    let n = ClosestParameterNewton::new((0, 10), true);
    assert_eq!(n.with_gamma(0, 1).unwrap_err(), Error::InvalidParameter);
    assert_eq!(n.with_gamma(3, 2).unwrap_err(), Error::InvalidParameter);
    assert_eq!(n.with_gamma(-1, 2).unwrap_err(), Error::InvalidParameter);
    assert_eq!(n.with_gamma(1, -2).unwrap_err(), Error::InvalidParameter);
    assert_eq!(n.with_gamma(1, 0).unwrap_err(), Error::InvalidParameter);
    assert_eq!(
        Error::InvalidParameter.description(),
        "gamma must be in (0, 1]"
    );
}

#[test]
fn with_gamma_accepts_unit_interval() {
    let n = ClosestParameterNewton::new((0, 10), true);
    assert_eq!(n.gamma_num, 1);
    assert_eq!(n.gamma_den, 1);
    let full = n.with_gamma(1, 1).unwrap();
    assert_eq!((full.gamma_num, full.gamma_den), (1, 1));
    let half = n.with_gamma(1, 2).unwrap();
    assert_eq!((half.gamma_num, half.gamma_den), (1, 2));
    assert_eq!(half.knot_domain, (0, 10));
    assert!(half.closed);
    assert!(n.with_gamma(-1, -2).is_ok());
    assert_eq!(full.next_iter(1, 3, 1), Ok(8));
    assert_eq!(half.next_iter(1, 3, 1), Ok(0));
}

#[test]
fn closed_scenario_wraps_to_eight() {
    let n = ClosestParameterNewton::new((0, 10), true).with_gamma(1, 1).unwrap();
    assert_eq!(n.next_iter(1, 3, 1), Ok(8));
}

#[test]
fn open_scenario_clamps_to_zero() {
    let n = ClosestParameterNewton::new((0, 10), false).with_gamma(1, 1).unwrap();
    assert_eq!(n.next_iter(1, 3, 1), Ok(0));
}

#[test]
fn singular_hessian_fails() {
    for closed in [false, true] {
        let n = ClosestParameterNewton::new((0, 10), closed);
        for param in [-5i64, 0, 3, 10, i64::MAX] {
            assert_eq!(n.next_iter(param, 7, 0), Err(Error::SingularMatrix));
        }
    }
}

#[test]
fn step_inverts_hessian_and_rounds_down() {
    let n = ClosestParameterNewton::new((-100, 100), false);
    assert_eq!(n.next_iter(1, 6, -2), Ok(4));
    assert_eq!(n.next_iter(10, 7, 2), Ok(7));
    assert_eq!(n.next_iter(10, -7, 2), Ok(14));
    let half = n.with_gamma(1, 2).unwrap();
    assert_eq!(half.next_iter(1, -3, 1), Ok(3));
    assert_eq!(half.next_iter(0, 8, 2), Ok(-2));
}

#[test]
fn wrapped_parameter_out_of_range_fails() {
    let closed = ClosestParameterNewton::new((0, 10), true);
    assert_eq!(closed.next_iter(i64::MIN, i64::MAX, 1), Err(Error::ParameterOverflow));
    let open = ClosestParameterNewton::new((0, 10), false);
    assert_eq!(open.next_iter(i64::MIN, i64::MAX, 1), Ok(0));
    let wide = ClosestParameterNewton::new((i64::MIN, i64::MAX), true);
    assert_eq!(wide.next_iter(i64::MIN, 1, 1), Ok(i64::MAX - 1));
}

#[test]
fn error_descriptions() {
    assert_eq!(Error::NotInitialized.description(), "an initial parameter is required");
    assert_eq!(Error::SingularMatrix.description(), "the Hessian is not invertible");
    assert_eq!(Error::ParameterOverflow.description(), "the new parameter is out of range");
}
