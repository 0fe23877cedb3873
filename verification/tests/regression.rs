use linreg::LinearRegression;

fn series_bits(xs: &[f64]) -> Vec<u64> {
    let mut v: Vec<u64> = Vec::new();
    for x in xs {
        v.push(x.to_bits());
    }
    v
}

fn val(b: u64) -> f64 {
    f64::from_bits(b)
}

#[test]
fn test_fit_and_predict() {
    let series = series_bits(&[1.0, 2.0, 3.0, 4.0, 5.0]);
    let model = LinearRegression::fit(&series).unwrap();
    assert!((val(model.slope) - 1.0).abs() < 1e-6);
    assert!((val(model.intercept) - 1.0).abs() < 1e-6);

    let predictions = model.predict(series.len() - 1, 2);
    assert_eq!(predictions.len(), 2);
}

#[test]
fn test_mse_and_r_squared() {
    let series = series_bits(&[2.0, 4.0, 6.0, 8.0, 10.0]);
    let model = LinearRegression::fit(&series).unwrap();
    let mse = val(model.mse(&series));
    let r2 = val(model.r_squared(&series));
    assert!(mse < 1e-6);
    assert!((r2 - 1.0).abs() < 1e-6);
}

#[test]
fn test_empty_input() {
    let series: Vec<u64> = Vec::new();
    assert!(LinearRegression::fit(&series).is_none());
}

#[test]
fn perfect_line_recovers_coefficients() {
    // y_i = -3.5 * i + 7.25: an exactly representable line.
    let series = series_bits(&[7.25, 3.75, 0.25, -3.25, -6.75, -10.25]);
    let model = LinearRegression::fit(&series).unwrap();
    assert!((val(model.slope) - (-3.5)).abs() < 1e-6);
    assert!((val(model.intercept) - 7.25).abs() < 1e-6);
    assert!(val(model.mse(&series)) < 1e-6);
    assert!((val(model.r_squared(&series)) - 1.0).abs() < 1e-6);
}

#[test]
fn fit_single_sample_returns_no_model() {
    let series = series_bits(&[42.0]);
    assert!(LinearRegression::fit(&series).is_none());
}

#[test]
fn predict_zero_steps_is_empty() {
    let series = series_bits(&[1.0, 2.0, 3.0]);
    let model = LinearRegression::fit(&series).unwrap();
    assert_eq!(model.predict(2, 0).len(), 0);
}

#[test]
fn predict_increases_with_positive_slope() {
    let series = series_bits(&[1.0, 2.0, 3.0, 4.0, 5.0]);
    let model = LinearRegression::fit(&series).unwrap();
    let preds = model.predict(4, 5);
    assert_eq!(preds.len(), 5);
    for w in preds.windows(2) {
        assert!(val(w[0]) < val(w[1]));
    }
}

#[test]
fn predict_decreases_with_negative_slope() {
    let series = series_bits(&[5.0, 3.0, 1.0]);
    let model = LinearRegression::fit(&series).unwrap();
    assert!(val(model.slope) < 0.0);
    let preds = model.predict(2, 5);
    assert_eq!(preds.len(), 5);
    for w in preds.windows(2) {
        assert!(val(w[0]) > val(w[1]));
    }
}

#[test]
fn predict_constant_with_zero_slope() {
    let series = series_bits(&[7.0, 7.0, 7.0]);
    let model = LinearRegression::fit(&series).unwrap();
    assert_eq!(val(model.slope), 0.0);
    let preds = model.predict(2, 4);
    assert_eq!(preds.len(), 4);
    for p in &preds {
        assert_eq!(val(*p), 7.0);
    }
}

#[test]
fn round_trip_two_step_forecast() {
    let series = series_bits(&[1.0, 2.0, 3.0, 4.0, 5.0]);
    let model = LinearRegression::fit(&series).unwrap();
    assert!((val(model.slope) - 1.0).abs() < 1e-6);
    assert!((val(model.intercept) - 1.0).abs() < 1e-6);
    let preds = model.predict(4, 2);
    assert_eq!(preds.len(), 2);
    assert!((val(preds[0]) - 6.0).abs() < 1e-6);
    assert!((val(preds[1]) - 7.0).abs() < 1e-6);
}

#[test]
fn fit_even_series_exact_metrics() {
    let series = series_bits(&[2.0, 4.0, 6.0, 8.0, 10.0]);
    let model = LinearRegression::fit(&series).unwrap();
    assert!((val(model.slope) - 2.0).abs() < 1e-6);
    assert!((val(model.intercept) - 2.0).abs() < 1e-6);
    assert!(val(model.mse(&series)).abs() < 1e-6);
    assert!((val(model.r_squared(&series)) - 1.0).abs() < 1e-6);
}

#[test]
fn r_squared_constant_series_is_nan() {
    let series = series_bits(&[5.0, 5.0, 5.0]);
    let model = LinearRegression::fit(&series).unwrap();
    assert!(val(model.r_squared(&series)).is_nan());
}

#[test]
fn mse_empty_series_is_nan() {
    let series = series_bits(&[1.0, 2.0, 3.0]);
    let model = LinearRegression::fit(&series).unwrap();
    let empty: Vec<u64> = Vec::new();
    assert!(val(model.mse(&empty)).is_nan());
}

#[test]
fn r_squared_empty_series_is_nan() {
    let series = series_bits(&[1.0, 2.0, 3.0]);
    let model = LinearRegression::fit(&series).unwrap();
    let empty: Vec<u64> = Vec::new();
    assert!(val(model.r_squared(&empty)).is_nan());
}

#[test]
fn imperfect_fit_matches_closed_form() {
    // For [0, 0, 1]: mean_x = 1, mean_y = 1/3, numerator = 1,
    // denominator = 2, so slope = 1/2, intercept = 1/3 - 1/2 = -1/6,
    // mse = 1/18 and r_squared = 1 - (1/6)/(2/3) = 3/4.
    let series = series_bits(&[0.0, 0.0, 1.0]);
    let model = LinearRegression::fit(&series).unwrap();
    assert!((val(model.slope) - 0.5).abs() < 1e-9);
    assert!((val(model.intercept) - (-1.0 / 6.0)).abs() < 1e-9);
    assert!((val(model.mse(&series)) - 1.0 / 18.0).abs() < 1e-9);
    assert!((val(model.r_squared(&series)) - 0.75).abs() < 1e-9);
}

#[test]
fn mse_on_held_out_series() {
    // Model y = x + 1 fitted on one series, evaluated on another: the
    // in-sample predictions 1, 2, 3 each miss [2, 3, 4] by exactly 1.
    let series = series_bits(&[1.0, 2.0, 3.0, 4.0, 5.0]);
    let model = LinearRegression::fit(&series).unwrap();
    let held_out = series_bits(&[2.0, 3.0, 4.0]);
    assert_eq!(val(model.mse(&held_out)), 1.0);
}
