use echo_state_network::error::EsnError;
use echo_state_network::matrix::Matrix;
use echo_state_network::rls::RLS;
use echo_state_network::scalar::Scalar;

fn wrap(x: f64) -> Scalar {
    Scalar::from_bits(x.to_bits())
}

fn wrap_all(xs: &[f64]) -> Vec<Scalar> {
    xs.iter().map(|x| wrap(*x)).collect()
}

fn unwrap_all(xs: &[Scalar]) -> Vec<f64> {
    xs.iter().map(|s| f64::from_bits(s.to_bits())).collect()
}

fn as_dense(m: &Matrix) -> nalgebra::DMatrix<f64> {
    nalgebra::DMatrix::from_vec(m.nrows(), m.ncols(), unwrap_all(m.as_vec()))
}

fn as_matrix(m: &nalgebra::DMatrix<f64>) -> Matrix {
    Matrix::from_vec(m.nrows(), m.ncols(), wrap_all(m.as_slice())).unwrap()
}

/// One update of the filter, with the arithmetic done outside the model.
fn update(rls: &mut RLS, x: &[f64], d: &[f64]) -> Result<(), EsnError> {
    rls.check_sample(&wrap_all(x), &wrap_all(d))?;
    let lambda = f64::from_bits(rls.lambda().to_bits());
    let p = as_dense(rls.p());
    let w = as_dense(rls.weight());
    let xv = nalgebra::DVector::from_column_slice(x);
    let dv = nalgebra::DVector::from_column_slice(d);
    let px = &p * &xv;
    let k = &px / (lambda + xv.dot(&px));
    let p_next = (&p - &k * (xv.transpose() * &p)) / lambda;
    let w_next = &w + (dv - &w * &xv) * k.transpose();
    rls.set_estimate(as_matrix(&p_next), as_matrix(&w_next))
}

fn error_of(rls: &RLS, x: &[f64], d: &[f64]) -> f64 {
    let y = as_dense(&rls.fit()) * nalgebra::DVector::from_column_slice(x);
    (y - nalgebra::DVector::from_column_slice(d)).norm()
}

#[test]
fn new_filter_starts_from_a_scaled_identity_and_zero_weights() {
    let rls = RLS::new(3, 2, wrap(0.99), wrap(4.0)).unwrap();
    assert_eq!(rls.n_x(), 3);
    assert_eq!(rls.n_y(), 2);
    assert_eq!(rls.lambda(), wrap(0.99));
    assert_eq!(rls.p().as_vec(), &wrap_all(&[4.0, 0.0, 0.0, 0.0, 4.0, 0.0, 0.0, 0.0, 4.0]));
    assert_eq!(rls.weight().nrows(), 2);
    assert_eq!(rls.weight().ncols(), 3);
    assert_eq!(rls.weight().as_vec(), &wrap_all(&[0.0; 6]));
}

#[test]
fn new_filter_refuses_parameters_outside_their_domain() {
    let bad = Some(EsnError::InvalidParameter);
    assert_eq!(RLS::new(3, 2, wrap(0.0), wrap(1.0)).err(), bad);
    assert_eq!(RLS::new(3, 2, wrap(-1.0), wrap(1.0)).err(), bad);
    assert_eq!(RLS::new(3, 2, wrap(f64::NAN), wrap(1.0)).err(), bad);
    assert_eq!(RLS::new(3, 2, wrap(1.0), wrap(0.0)).err(), bad);
    assert_eq!(RLS::new(3, 2, wrap(1.0), wrap(f64::INFINITY)).err(), bad);
    assert_eq!(RLS::new(0, 2, wrap(1.0), wrap(1.0)).err(), bad);
    assert_eq!(RLS::new(3, 0, wrap(1.0), wrap(1.0)).err(), bad);
    assert_eq!(RLS::new(usize::MAX, 1, wrap(1.0), wrap(1.0)).err(), bad);
}

#[test]
fn fit_gives_the_live_weights() {
    let mut rls = RLS::new(2, 1, wrap(1.0), wrap(1.0)).unwrap();
    assert_eq!(rls.fit().as_vec(), &wrap_all(&[0.0, 0.0]));
    let p = Matrix::diagonal(2, wrap(0.5)).unwrap();
    let w = Matrix::from_vec(1, 2, wrap_all(&[1.5, -2.5])).unwrap();
    rls.set_estimate(p, w).unwrap();
    let fitted = rls.fit();
    assert_eq!(fitted.nrows(), 1);
    assert_eq!(fitted.ncols(), 2);
    assert_eq!(fitted.as_vec(), &wrap_all(&[1.5, -2.5]));
    assert_eq!(rls.weight().as_vec(), fitted.as_vec());
}

#[test]
fn filter_sample_check_looks_at_the_state_before_the_target() {
    let rls = RLS::new(4, 2, wrap(1.0), wrap(1.0)).unwrap();
    assert_eq!(rls.check_sample(&wrap_all(&[1.0; 4]), &wrap_all(&[1.0; 2])), Ok(()));
    assert_eq!(
        rls.check_sample(&wrap_all(&[1.0; 3]), &wrap_all(&[1.0; 1])),
        Err(EsnError::DimensionMismatch { expected: 4, found: 3 })
    );
    assert_eq!(
        rls.check_sample(&wrap_all(&[1.0; 4]), &wrap_all(&[1.0; 3])),
        Err(EsnError::DimensionMismatch { expected: 2, found: 3 })
    );
}

#[test]
fn set_estimate_refuses_wrong_shapes_and_keeps_the_estimate() {
    let mut rls = RLS::new(2, 1, wrap(1.0), wrap(3.0)).unwrap();
    let bad_p = Matrix::filled(3, 3, wrap(1.0)).unwrap();
    let w = Matrix::filled(1, 2, wrap(1.0)).unwrap();
    assert_eq!(rls.set_estimate(bad_p, w), Err(EsnError::DimensionMismatch { expected: 2, found: 3 }));
    let p = Matrix::filled(2, 2, wrap(1.0)).unwrap();
    let bad_w = Matrix::filled(1, 3, wrap(1.0)).unwrap();
    assert_eq!(rls.set_estimate(p, bad_w), Err(EsnError::DimensionMismatch { expected: 2, found: 3 }));
    assert_eq!(rls.p().as_vec(), &wrap_all(&[3.0, 0.0, 0.0, 3.0]));
    assert_eq!(rls.weight().as_vec(), &wrap_all(&[0.0, 0.0]));
}

#[test]
fn a_mismatched_update_leaves_the_filter_untouched() {
    let mut rls = RLS::new(4, 2, wrap(1.0), wrap(1.0)).unwrap();
    update(&mut rls, &[1.0, 2.0, 3.0, 4.0], &[5.0, 6.0]).unwrap();
    let p = rls.p().clone();
    let w = rls.fit();
    assert_eq!(update(&mut rls, &[1.0, 2.0, 3.0], &[5.0, 6.0]), Err(EsnError::DimensionMismatch { expected: 4, found: 3 }));
    assert_eq!(update(&mut rls, &[1.0, 2.0, 3.0, 4.0], &[5.0]), Err(EsnError::DimensionMismatch { expected: 2, found: 1 }));
    assert_eq!(rls.p().as_vec(), p.as_vec());
    assert_eq!(rls.weight().as_vec(), w.as_vec());
}

#[test]
fn one_update_follows_the_recursion() {
    let mut rls = RLS::new(2, 1, wrap(1.0), wrap(1.0)).unwrap();
    update(&mut rls, &[1.0, 1.0], &[3.0]).unwrap();
    let p = unwrap_all(rls.p().as_vec());
    let w = unwrap_all(rls.weight().as_vec());
    let third = 1.0 / 3.0;
    for (got, want) in p.iter().zip([2.0 * third, -third, -third, 2.0 * third].iter()) {
        assert!((got - want).abs() < 1e-15);
    }
    for (got, want) in w.iter().zip([1.0, 1.0].iter()) {
        assert!((got - want).abs() < 1e-15);
    }
}

#[test]
fn repeating_one_sample_shrinks_the_error_at_every_step() {
    let x = [1.0, 2.0, 3.0, 4.0];
    let d = [5.0, 6.0];
    let mut rls = RLS::new(4, 2, wrap(1.0), wrap(1.0e6)).unwrap();
    let mut last = error_of(&rls, &x, &d);
    let mut below = false;
    for _ in 0..100 {
        update(&mut rls, &x, &d).unwrap();
        let now = error_of(&rls, &x, &d);
        if now < 1e-6 {
            below = true;
        } else {
            assert!(now < last, "{now} after {last}");
        }
        last = now;
    }
    assert!(below);
    assert!(last < 1e-6);
}

#[test]
fn a_forgetting_filter_follows_a_changed_target() {
    let x1 = [1.0, 2.0, 3.0, 4.0];
    let d1 = [5.0, 6.0];
    let x2 = [2.0, 4.0, 6.0, 8.0];
    let d2 = [10.0, 11.0];
    let mut rls = RLS::new(4, 2, wrap(0.9), wrap(1.0)).unwrap();
    for _ in 0..100 {
        update(&mut rls, &x1, &d1).unwrap();
    }
    assert!(error_of(&rls, &x1, &d1) < 1e-3);
    for _ in 0..100 {
        update(&mut rls, &x2, &d2).unwrap();
    }
    assert!(error_of(&rls, &x2, &d2) < 1e-3);
}

#[test]
fn the_order_of_the_updates_matters() {
    let a = ([1.0, 0.0], [1.0]);
    let b = ([1.0, 1.0], [-1.0]);
    let mut first = RLS::new(2, 1, wrap(0.5), wrap(1.0)).unwrap();
    update(&mut first, &a.0, &a.1).unwrap();
    update(&mut first, &b.0, &b.1).unwrap();
    let mut second = RLS::new(2, 1, wrap(0.5), wrap(1.0)).unwrap();
    update(&mut second, &b.0, &b.1).unwrap();
    update(&mut second, &a.0, &a.1).unwrap();
    assert_ne!(first.weight().as_vec(), second.weight().as_vec());
}
