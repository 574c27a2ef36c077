//! Predictor behaviour: echo identity, zero-initialized LMS state, the
//! sliding history window, and the LMS update rule driven over the
//! library's filter state with double arithmetic at the boundary.

use realtime::filters::{EchoFilter, FilterAuto, FilterAutoEcho, FilterAutoLMS, FilterLMS};

#[test]
fn echo_returns_input_unchanged() {
    let mut e = FilterAutoEcho {};
    let x = vec![1.0f64.to_bits(), 0.0f64.to_bits(), 2.5f64.to_bits()];
    assert_eq!(e.predict_next(&x), x);
}

#[test]
fn echo_is_stateless_across_calls() {
    let mut e = FilterAutoEcho {};
    let a = vec![9.25f64.to_bits()];
    let b = vec![(-3.0f64).to_bits()];
    assert_eq!(e.predict_next(&a), a);
    assert_eq!(e.predict_next(&b), b, "an earlier call never affects a later one");
    assert_eq!(e.predict_next(&a), a);
}

#[test]
fn legacy_echo_filter_matches() {
    let e = EchoFilter {};
    let x = vec![7.0f64.to_bits(), 0u64];
    assert_eq!(e.predict_next(&x), x);
}

#[test]
fn lms_new_is_zero_initialized() {
    let f = FilterLMS::new(3, 5, 0.0001f64.to_bits());
    assert_eq!(f.dim, 3);
    assert_eq!(f.order, 5);
    assert_eq!(f64::from_bits(f.mu), 0.0001);
    assert_eq!(f.wts.len(), 3 * 5 * 3);
    assert!(f.wts.iter().all(|&w| f64::from_bits(w) == 0.0));

    let a = FilterAutoLMS::new(3, 5, 0.0001f64.to_bits());
    assert_eq!(a.x_hist.len(), 5 * 3);
    assert!(a.x_hist.iter().all(|&h| f64::from_bits(h) == 0.0));
}

#[test]
fn lms_history_keeps_order_and_evicts_oldest() {
    let mut f = FilterAutoLMS::new(2, 2, 0.1f64.to_bits());
    let v1 = vec![1.0f64.to_bits(), 2.0f64.to_bits()];
    let v2 = vec![3.0f64.to_bits(), 4.0f64.to_bits()];
    let v3 = vec![5.0f64.to_bits(), 6.0f64.to_bits()];

    f.push_history(&v1);
    assert_eq!(f.x_hist, vec![v1[0], v1[1], 0, 0], "newest stands in front");
    f.push_history(&v2);
    assert_eq!(f.x_hist, vec![v2[0], v2[1], v1[0], v1[1]]);
    f.push_history(&v3);
    assert_eq!(
        f.x_hist,
        vec![v3[0], v3[1], v2[0], v2[1]],
        "the window keeps exactly `order` vectors and drops the oldest"
    );
}

/// One LMS step over the library's filter state, with the weight arithmetic
/// done here in doubles: adapt against the current input using the previous
/// history as regressor, slide the window, then forecast from the new one.
fn lms_predict_next(f: &mut FilterAutoLMS, x: &[f64]) -> Vec<f64> {
    let dim = f.flt_lms.dim as usize;
    let cols = f.x_hist.len();
    let mu = f64::from_bits(f.flt_lms.mu);

    let hist: Vec<f64> = f.x_hist.iter().map(|&b| f64::from_bits(b)).collect();
    let mut w: Vec<f64> = f.flt_lms.wts.iter().map(|&b| f64::from_bits(b)).collect();
    for i in 0..dim {
        let mut y = 0.0f64;
        for j in 0..cols {
            y += w[i * cols + j] * hist[j];
        }
        let e = x[i] - y;
        for j in 0..cols {
            w[i * cols + j] += mu * (e * hist[j]);
        }
    }
    f.flt_lms.wts = w.iter().map(|v| v.to_bits()).collect();

    let xb: Vec<u64> = x.iter().map(|v| v.to_bits()).collect();
    f.push_history(&xb);

    let hist2: Vec<f64> = f.x_hist.iter().map(|&b| f64::from_bits(b)).collect();
    let w2: Vec<f64> = f.flt_lms.wts.iter().map(|&b| f64::from_bits(b)).collect();
    let mut out = vec![0.0f64; dim];
    for i in 0..dim {
        let mut y = 0.0f64;
        for j in 0..cols {
            y += w2[i * cols + j] * hist2[j];
        }
        out[i] = y;
    }
    out
}

#[test]
fn lms_first_prediction_is_zero() {
    let mut f = FilterAutoLMS::new(3, 2, 0.001f64.to_bits());
    let first = lms_predict_next(&mut f, &[4.0, 7.0, 1.0]);
    assert_eq!(
        first,
        vec![0.0, 0.0, 0.0],
        "with zero weights and zero history nothing has been learned yet"
    );
}

#[test]
fn lms_error_shrinks_on_constant_input() {
    let mut f = FilterAutoLMS::new(1, 1, 0.01f64.to_bits());
    let x = 5.0f64;
    let mut last_err = f64::INFINITY;
    let mut final_err = f64::INFINITY;
    for _step in 0..200 {
        let y = lms_predict_next(&mut f, &[x])[0];
        let err = (x - y).abs();
        assert!(err <= last_err, "error magnitude must not grow");
        last_err = err;
        final_err = err;
    }
    assert!(final_err < 0.001, "the forecast converges toward the constant");
}
