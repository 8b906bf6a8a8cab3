use echo_state_network::error::EsnError;
use echo_state_network::matrix::Matrix;
use echo_state_network::network::EchoStateNetwork;
use echo_state_network::network::OutputFunction;
use echo_state_network::network::Plan;
use echo_state_network::projection::Projection;
use echo_state_network::reservoir::Activation;
use echo_state_network::reservoir::Reservoir;
use echo_state_network::ridge::Ridge;
use echo_state_network::scalar::Scalar;

fn enc(x: f64) -> Scalar {
    Scalar::from_bits(x.to_bits())
}

fn enc_all(xs: &[f64]) -> Vec<Scalar> {
    xs.iter().map(|x| enc(*x)).collect()
}

fn dec_all(xs: &[Scalar]) -> Vec<f64> {
    xs.iter().map(|s| f64::from_bits(s.to_bits())).collect()
}

fn na_matrix(m: &Matrix) -> nalgebra::DMatrix<f64> {
    nalgebra::DMatrix::from_vec(m.nrows(), m.ncols(), dec_all(m.as_vec()))
}

fn own_matrix(m: &nalgebra::DMatrix<f64>) -> Matrix {
    Matrix::from_vec(m.nrows(), m.ncols(), enc_all(m.as_slice())).unwrap()
}

/// Weights that depend on nothing but the position and a salt.
fn weights(rows: usize, cols: usize, salt: usize) -> Vec<Scalar> {
    (0..rows * cols).map(|k| enc((((k * 31 + salt * 17) % 23) as f64 - 11.0) / 12.0)).collect()
}

fn reservoir_of(n_x: usize) -> Reservoir {
    let w = nalgebra::DMatrix::from_vec(n_x, n_x, dec_all(&weights(n_x, n_x, 5))) * (0.9 / n_x as f64);
    Reservoir::new(own_matrix(&w), enc(0.8), Activation::Tanh).unwrap()
}

fn network_of(n_u: usize, n_y: usize, n_x: usize, feedback: Option<Projection>) -> EchoStateNetwork {
    let input = Projection::new(n_x, n_u, weights(n_x, n_u, 1)).unwrap();
    let output = Projection::new(n_y, n_x, weights(n_y, n_x, 2)).unwrap();
    EchoStateNetwork::new(input, reservoir_of(n_x), output, feedback, OutputFunction::Identity).unwrap()
}

/// The reservoir state after one more input, with the arithmetic done outside the model.
fn next_state(esn: &EchoStateNetwork, u: &[f64]) -> Vec<f64> {
    let mut drive = na_matrix(esn.input().weight()) * nalgebra::DVector::from_column_slice(u);
    if let Some(f) = esn.feedback() {
        drive += na_matrix(f.weight()) * nalgebra::DVector::from_vec(dec_all(esn.previous_output()));
    }
    let r = esn.reservoir();
    let alpha = f64::from_bits(r.leaking_rate().to_bits());
    let x = nalgebra::DVector::from_vec(dec_all(r.state()));
    let activated = (na_matrix(r.weight()) * &x + drive).map(|v| v.tanh());
    (x * (1.0 - alpha) + activated * alpha).as_slice().to_vec()
}

fn predict(esn: &mut EchoStateNetwork, inputs: &[Vec<f64>]) -> Result<Vec<Vec<f64>>, EsnError> {
    let encoded: Vec<Vec<Scalar>> = inputs.iter().map(|u| enc_all(u)).collect();
    esn.check_inputs(&encoded)?;
    let mut outputs = Vec::new();
    for u in inputs {
        let state = next_state(esn, u);
        let y = (na_matrix(esn.output().weight()) * nalgebra::DVector::from_column_slice(&state)).as_slice().to_vec();
        esn.advance(enc_all(&state), enc_all(&y))?;
        outputs.push(y);
    }
    Ok(outputs)
}

fn train(esn: &mut EchoStateNetwork, ridge: &mut Ridge, inputs: &[Vec<f64>], targets: &[Vec<f64>]) -> Result<(), EsnError> {
    let us: Vec<Vec<Scalar>> = inputs.iter().map(|u| enc_all(u)).collect();
    let ds: Vec<Vec<Scalar>> = targets.iter().map(|d| enc_all(d)).collect();
    esn.check_teaching(&us, &ds)?;
    for (u, d) in inputs.iter().zip(targets.iter()) {
        let state = next_state(esn, u);
        ridge.check_sample(&enc_all(&state), &enc_all(d))?;
        let xv = nalgebra::DVector::from_column_slice(&state);
        let dv = nalgebra::DVector::from_column_slice(d);
        let x_xt = na_matrix(ridge.x_xt()) + &xv * xv.transpose();
        let d_xt = na_matrix(ridge.d_xt()) + &dv * xv.transpose();
        ridge.set_accumulators(own_matrix(&x_xt), own_matrix(&d_xt))?;
        esn.advance(enc_all(&state), enc_all(d))?;
    }
    let n = ridge.n_x();
    let beta = f64::from_bits(ridge.beta().to_bits());
    let system = na_matrix(ridge.x_xt()) + nalgebra::DMatrix::<f64>::identity(n, n) * beta;
    let solution = system.try_inverse().map(|inverse| own_matrix(&(na_matrix(ridge.d_xt()) * inverse)));
    esn.set_output_weight(ridge.accept_solution(solution)?)
}

fn wave(len: usize, width: usize, phase: f64) -> Vec<Vec<f64>> {
    (0..len).map(|t| (0..width).map(|i| ((t * width + i) as f64 * 0.3 + phase).sin()).collect()).collect()
}

#[test]
fn the_default_output_function_is_the_identity() {
    assert_eq!(OutputFunction::default(), OutputFunction::Identity);
}

#[test]
fn validate_says_how_much_is_to_be_drawn() {
    assert_eq!(
        EchoStateNetwork::validate(3, 2, 20, enc(0.1), enc(1.0), enc(0.9), None, enc(1.0)),
        Ok(Plan { pairs: 190, input_weights: 60, output_weights: 40, feedback_weights: None })
    );
    assert_eq!(
        EchoStateNetwork::validate(1, 4, 5, enc(1.0), enc(0.5), enc(1.5), Some(enc(2.0)), enc(0.0)),
        Ok(Plan { pairs: 10, input_weights: 5, output_weights: 20, feedback_weights: Some(20) })
    );
}

#[test]
fn validate_refuses_each_parameter_outside_its_domain_on_its_own() {
    let check = |n_u: usize, n_y: usize, n_x: usize, density: f64, scale: f64, rho: f64, fb: Option<f64>, alpha: f64| {
        EchoStateNetwork::validate(n_u, n_y, n_x, enc(density), enc(scale), enc(rho), fb.map(enc), enc(alpha))
    };
    let bad = Err(EsnError::InvalidParameter);
    assert!(check(3, 2, 20, 0.1, 1.0, 0.9, Some(1.0), 1.0).is_ok());
    assert_eq!(check(0, 2, 20, 0.1, 1.0, 0.9, Some(1.0), 1.0), bad);
    assert_eq!(check(3, 0, 20, 0.1, 1.0, 0.9, Some(1.0), 1.0), bad);
    assert_eq!(check(3, 2, 1, 0.1, 1.0, 0.9, Some(1.0), 1.0), bad);
    assert_eq!(check(3, 2, 20, 1.1, 1.0, 0.9, Some(1.0), 1.0), bad);
    assert_eq!(check(3, 2, 20, -0.1, 1.0, 0.9, Some(1.0), 1.0), bad);
    assert_eq!(check(3, 2, 20, 0.1, 0.0, 0.9, Some(1.0), 1.0), bad);
    assert_eq!(check(3, 2, 20, 0.1, 1.0, 0.0, Some(1.0), 1.0), bad);
    assert_eq!(check(3, 2, 20, 0.1, 1.0, -0.9, Some(1.0), 1.0), bad);
    assert_eq!(check(3, 2, 20, 0.1, 1.0, 0.9, Some(0.0), 1.0), bad);
    assert_eq!(check(3, 2, 20, 0.1, 1.0, 0.9, Some(f64::NAN), 1.0), bad);
    assert_eq!(check(3, 2, 20, 0.1, 1.0, 0.9, Some(1.0), 1.5), bad);
    assert_eq!(check(3, 2, 20, 0.1, 1.0, 0.9, Some(1.0), f64::NAN), bad);
    assert_eq!(check(usize::MAX, 2, 20, 0.1, 1.0, 0.9, None, 1.0), bad);
    assert_eq!(check(3, usize::MAX, 20, 0.1, 1.0, 0.9, None, 1.0), bad);
}

#[test]
fn new_network_takes_its_dimensions_from_its_parts() {
    let esn = network_of(3, 2, 6, None);
    assert_eq!(esn.n_u(), 3);
    assert_eq!(esn.n_y(), 2);
    assert_eq!(esn.n_x(), 6);
    assert!(esn.feedback().is_none());
    assert_eq!(esn.previous_output(), &enc_all(&[0.0, 0.0]));
    assert_eq!(esn.reservoir().state(), &enc_all(&[0.0; 6]));
    assert_eq!(esn.output_function(), OutputFunction::Identity);
    assert_eq!(esn.input().weight().as_vec(), &weights(6, 3, 1));
    assert_eq!(esn.output().weight().as_vec(), &weights(2, 6, 2));
}

#[test]
fn new_network_starts_at_rest_whatever_state_the_reservoir_was_in() {
    let mut reservoir = reservoir_of(4);
    reservoir.set_state(enc_all(&[1.0, 2.0, 3.0, 4.0])).unwrap();
    let input = Projection::new(4, 1, weights(4, 1, 1)).unwrap();
    let output = Projection::new(1, 4, weights(1, 4, 2)).unwrap();
    let esn = EchoStateNetwork::new(input, reservoir, output, None, OutputFunction::Tanh).unwrap();
    assert_eq!(esn.reservoir().state(), &enc_all(&[0.0; 4]));
    assert_eq!(esn.output_function(), OutputFunction::Tanh);
}

#[test]
fn new_network_refuses_parts_that_do_not_fit() {
    let input = Projection::new(5, 3, weights(5, 3, 1)).unwrap();
    let output = Projection::new(2, 6, weights(2, 6, 2)).unwrap();
    assert_eq!(
        EchoStateNetwork::new(input, reservoir_of(6), output, None, OutputFunction::Identity).err(),
        Some(EsnError::DimensionMismatch { expected: 6, found: 5 })
    );
    let input = Projection::new(6, 3, weights(6, 3, 1)).unwrap();
    let output = Projection::new(2, 7, weights(2, 7, 2)).unwrap();
    assert_eq!(
        EchoStateNetwork::new(input, reservoir_of(6), output, None, OutputFunction::Identity).err(),
        Some(EsnError::DimensionMismatch { expected: 6, found: 7 })
    );
    let input = Projection::new(6, 3, weights(6, 3, 1)).unwrap();
    let output = Projection::new(2, 6, weights(2, 6, 2)).unwrap();
    let feedback = Projection::new(5, 2, weights(5, 2, 3)).unwrap();
    assert_eq!(
        EchoStateNetwork::new(input, reservoir_of(6), output, Some(feedback), OutputFunction::Identity).err(),
        Some(EsnError::DimensionMismatch { expected: 6, found: 5 })
    );
    let input = Projection::new(6, 3, weights(6, 3, 1)).unwrap();
    let output = Projection::new(2, 6, weights(2, 6, 2)).unwrap();
    let feedback = Projection::new(6, 3, weights(6, 3, 3)).unwrap();
    assert_eq!(
        EchoStateNetwork::new(input, reservoir_of(6), output, Some(feedback), OutputFunction::Identity).err(),
        Some(EsnError::DimensionMismatch { expected: 2, found: 3 })
    );
}

#[test]
fn a_network_with_feedback_hands_it_out() {
    let feedback = Projection::new(6, 2, weights(6, 2, 3)).unwrap();
    let esn = network_of(3, 2, 6, Some(feedback));
    let f = esn.feedback().unwrap();
    assert_eq!(f.out_dim(), 6);
    assert_eq!(f.in_dim(), 2);
    assert_eq!(f.weight().as_vec(), &weights(6, 2, 3));
}

#[test]
fn check_input_and_target_accept_only_their_lengths() {
    let esn = network_of(3, 2, 6, None);
    assert_eq!(esn.check_input(&enc_all(&[1.0, 2.0, 3.0])), Ok(()));
    assert_eq!(esn.check_input(&enc_all(&[1.0, 2.0])), Err(EsnError::DimensionMismatch { expected: 3, found: 2 }));
    assert_eq!(esn.check_input(&enc_all(&[1.0; 4])), Err(EsnError::DimensionMismatch { expected: 3, found: 4 }));
    assert_eq!(esn.check_target(&enc_all(&[1.0, 2.0])), Ok(()));
    assert_eq!(esn.check_target(&enc_all(&[1.0])), Err(EsnError::DimensionMismatch { expected: 2, found: 1 }));
    assert_eq!(esn.check_target(&enc_all(&[1.0; 3])), Err(EsnError::DimensionMismatch { expected: 2, found: 3 }));
}

#[test]
fn check_inputs_reports_the_first_bad_input() {
    let esn = network_of(2, 1, 4, None);
    let good = vec![enc_all(&[1.0, 2.0]), enc_all(&[3.0, 4.0]), enc_all(&[5.0, 6.0])];
    assert_eq!(esn.check_inputs(&good), Ok(3));
    assert_eq!(esn.check_inputs(&Vec::new()), Ok(0));
    let bad = vec![enc_all(&[1.0, 2.0]), enc_all(&[3.0]), enc_all(&[5.0, 6.0, 7.0])];
    assert_eq!(esn.check_inputs(&bad), Err(EsnError::DimensionMismatch { expected: 2, found: 1 }));
    let late = vec![enc_all(&[1.0, 2.0]), enc_all(&[3.0, 4.0]), enc_all(&[5.0, 6.0, 7.0])];
    assert_eq!(esn.check_inputs(&late), Err(EsnError::DimensionMismatch { expected: 2, found: 3 }));
}

#[test]
fn check_teaching_compares_the_lengths_then_each_sample() {
    let esn = network_of(2, 1, 4, None);
    let inputs = vec![enc_all(&[1.0, 2.0]), enc_all(&[3.0, 4.0])];
    let targets = vec![enc_all(&[1.0]), enc_all(&[2.0])];
    assert_eq!(esn.check_teaching(&inputs, &targets), Ok(2));
    assert_eq!(esn.check_teaching(&Vec::new(), &Vec::new()), Ok(0));
    let fewer = vec![enc_all(&[1.0])];
    assert_eq!(esn.check_teaching(&inputs, &fewer), Err(EsnError::DimensionMismatch { expected: 2, found: 1 }));
    let bad_target = vec![enc_all(&[1.0]), enc_all(&[2.0, 3.0, 4.0])];
    assert_eq!(esn.check_teaching(&inputs, &bad_target), Err(EsnError::DimensionMismatch { expected: 1, found: 3 }));
    let bad_input = vec![enc_all(&[1.0, 2.0]), enc_all(&[3.0, 4.0, 5.0, 6.0])];
    assert_eq!(esn.check_teaching(&bad_input, &bad_target), Err(EsnError::DimensionMismatch { expected: 2, found: 4 }));
    let both_bad_at_once = vec![enc_all(&[1.0, 2.0, 3.0]), enc_all(&[3.0, 4.0])];
    let first_target_bad = vec![enc_all(&[]), enc_all(&[2.0])];
    assert_eq!(
        esn.check_teaching(&both_bad_at_once, &first_target_bad),
        Err(EsnError::DimensionMismatch { expected: 2, found: 3 })
    );
    let only_target_bad = vec![enc_all(&[]), enc_all(&[2.0])];
    assert_eq!(esn.check_teaching(&inputs, &only_target_bad), Err(EsnError::DimensionMismatch { expected: 1, found: 0 }));
}

#[test]
fn check_generate_wants_outputs_as_long_as_inputs() {
    assert_eq!(network_of(2, 2, 4, None).check_generate(), Ok(()));
    assert_eq!(network_of(3, 2, 4, None).check_generate(), Err(EsnError::DimensionMismatch { expected: 3, found: 2 }));
    assert_eq!(network_of(1, 2, 4, None).check_generate(), Err(EsnError::DimensionMismatch { expected: 1, found: 2 }));
}

#[test]
fn advance_takes_the_state_and_carries_the_output() {
    let mut esn = network_of(2, 1, 4, None);
    assert_eq!(esn.advance(enc_all(&[0.1, 0.2, 0.3, 0.4]), enc_all(&[0.5])), Ok(()));
    assert_eq!(esn.reservoir().state(), &enc_all(&[0.1, 0.2, 0.3, 0.4]));
    assert_eq!(esn.previous_output(), &enc_all(&[0.5]));
}

#[test]
fn advance_refuses_wrong_lengths_and_changes_nothing() {
    let mut esn = network_of(2, 1, 4, None);
    esn.advance(enc_all(&[0.1, 0.2, 0.3, 0.4]), enc_all(&[0.5])).unwrap();
    assert_eq!(
        esn.advance(enc_all(&[9.0, 9.0, 9.0]), enc_all(&[9.0])),
        Err(EsnError::DimensionMismatch { expected: 4, found: 3 })
    );
    assert_eq!(
        esn.advance(enc_all(&[9.0, 9.0, 9.0, 9.0]), enc_all(&[9.0, 9.0])),
        Err(EsnError::DimensionMismatch { expected: 1, found: 2 })
    );
    assert_eq!(
        esn.advance(enc_all(&[9.0; 5]), enc_all(&[])),
        Err(EsnError::DimensionMismatch { expected: 4, found: 5 })
    );
    assert_eq!(esn.reservoir().state(), &enc_all(&[0.1, 0.2, 0.3, 0.4]));
    assert_eq!(esn.previous_output(), &enc_all(&[0.5]));
}

#[test]
fn set_output_weight_takes_only_the_readout_shape() {
    let mut esn = network_of(2, 1, 4, None);
    let w = Matrix::from_vec(1, 4, enc_all(&[1.0, 2.0, 3.0, 4.0])).unwrap();
    assert_eq!(esn.set_output_weight(w), Ok(()));
    assert_eq!(esn.output().weight().as_vec(), &enc_all(&[1.0, 2.0, 3.0, 4.0]));
    let tall = Matrix::filled(4, 1, enc(0.0)).unwrap();
    assert_eq!(esn.set_output_weight(tall), Err(EsnError::DimensionMismatch { expected: 1, found: 4 }));
    let wide = Matrix::filled(1, 5, enc(0.0)).unwrap();
    assert_eq!(esn.set_output_weight(wide), Err(EsnError::DimensionMismatch { expected: 4, found: 5 }));
    assert_eq!(esn.output().weight().as_vec(), &enc_all(&[1.0, 2.0, 3.0, 4.0]));
    assert_eq!(esn.n_y(), 1);
    assert_eq!(esn.n_x(), 4);
}

#[test]
fn reset_state_forgets_the_sequence_and_keeps_the_weights() {
    let mut esn = network_of(2, 1, 4, None);
    let w = Matrix::from_vec(1, 4, enc_all(&[1.0, 2.0, 3.0, 4.0])).unwrap();
    esn.set_output_weight(w).unwrap();
    esn.advance(enc_all(&[0.1, 0.2, 0.3, 0.4]), enc_all(&[0.5])).unwrap();
    esn.reset_state();
    assert_eq!(esn.reservoir().state(), &enc_all(&[0.0; 4]));
    assert_eq!(esn.previous_output(), &enc_all(&[0.0]));
    assert_eq!(esn.output().weight().as_vec(), &enc_all(&[1.0, 2.0, 3.0, 4.0]));
    assert_eq!(esn.input().weight().as_vec(), &weights(4, 2, 1));
}

#[test]
fn a_bad_sequence_is_refused_before_any_step() {
    let mut esn = network_of(2, 1, 4, None);
    let inputs = vec![vec![0.1, 0.2], vec![0.3, 0.4], vec![0.5]];
    assert_eq!(predict(&mut esn, &inputs), Err(EsnError::DimensionMismatch { expected: 2, found: 1 }));
    assert_eq!(esn.reservoir().state(), &enc_all(&[0.0; 4]));
    assert_eq!(esn.previous_output(), &enc_all(&[0.0]));
    let mut ridge = Ridge::new(4, 1, enc(0.1)).unwrap();
    let targets = vec![vec![1.0], vec![2.0]];
    assert_eq!(
        train(&mut esn, &mut ridge, &inputs, &targets),
        Err(EsnError::DimensionMismatch { expected: 3, found: 2 })
    );
    assert!(ridge.x_xt().as_vec().iter().all(|v| v.to_bits() == 0));
    assert_eq!(esn.reservoir().state(), &enc_all(&[0.0; 4]));
}

#[test]
fn training_installs_finite_weights_that_fit_the_teaching_data() {
    let mut esn = network_of(1, 1, 8, None);
    let mut ridge = Ridge::new(8, 1, enc(1e-6)).unwrap();
    let inputs = wave(60, 1, 0.0);
    let targets: Vec<Vec<f64>> = inputs.iter().map(|u| vec![0.5 * u[0]]).collect();
    train(&mut esn, &mut ridge, &inputs, &targets).unwrap();
    assert!(esn.output().weight().is_finite());
    assert_eq!(esn.previous_output(), &enc_all(targets.last().unwrap()));
    esn.reset_state();
    let outputs = predict(&mut esn, &inputs).unwrap();
    let worst = outputs.iter().zip(targets.iter()).map(|(y, d)| (y[0] - d[0]).abs()).fold(0.0, f64::max);
    assert!(worst < 1e-2, "{worst}");
    assert_eq!(esn.previous_output(), &enc_all(outputs.last().unwrap()));
}

#[test]
fn no_feedback_predicts_like_feedback_of_zero_weights() {
    let mut without = network_of(2, 2, 6, None);
    let zero = Projection::new(6, 2, enc_all(&[0.0; 12])).unwrap();
    let mut with_zero = network_of(2, 2, 6, Some(zero));
    let inputs = wave(25, 2, 0.4);
    let a = predict(&mut without, &inputs).unwrap();
    let b = predict(&mut with_zero, &inputs).unwrap();
    assert_eq!(a, b);
}

#[test]
fn feedback_changes_the_prediction() {
    let mut without = network_of(2, 2, 6, None);
    let feedback = Projection::new(6, 2, weights(6, 2, 3)).unwrap();
    let mut with = network_of(2, 2, 6, Some(feedback));
    let inputs = wave(5, 2, 0.4);
    assert_ne!(predict(&mut without, &inputs).unwrap(), predict(&mut with, &inputs).unwrap());
}
