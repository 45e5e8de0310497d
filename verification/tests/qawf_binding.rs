use qawf::error::{GSLError, GSLIntegrationError, GSL_SUCCESS};
use qawf::qawf::{integrate_finish, NativeOutcome, QawoTable, WeightKind, Workspace, QAWF};
use qawf::scalar::{Real, REAL_ONE_BITS, REAL_ZERO_BITS};

#[test]
fn real_carries_bits_verbatim() {
    let bits = 1.5f64.to_bits();
    let r = Real::from_bits(bits);
    assert_eq!(r.to_bits(), bits);
    assert_eq!(f64::from_bits(r.to_bits()), 1.5);
    assert_eq!(Real::zero().to_bits(), 0.0f64.to_bits());
    assert_eq!(Real::one().to_bits(), 1.0f64.to_bits());
    assert_eq!(REAL_ZERO_BITS, 0.0f64.to_bits());
    assert_eq!(REAL_ONE_BITS, 1.0f64.to_bits());
}

#[test]
fn new_starts_at_zero_with_sine_weight() {
    let q = QAWF::new(50);
    assert_eq!(q.lower_bound, Real::zero());
    assert_eq!(q.wkspc, Workspace { nintervals: 50 });
    assert_eq!(q.cycle_wkspc, Workspace { nintervals: 50 });
    assert_eq!(
        q.table,
        QawoTable {
            nintervals: 50,
            omega: Real::one(),
            length: Real::one(),
            kind: WeightKind::Sine,
        }
    );
}

#[test]
fn with_nintervals_replaces_all_three_capacities() {
    let q = QAWF::new(10).with_cos(Real::from_bits(2.0f64.to_bits())).with_nintervals(25);
    assert_eq!(q.wkspc.nintervals, 25);
    assert_eq!(q.cycle_wkspc.nintervals, 25);
    assert_eq!(q.table.nintervals, 25);
    // The weight function survives the reallocation.
    assert_eq!(q.table.kind, WeightKind::Cosine);
    assert_eq!(q.table.omega.to_bits(), 2.0f64.to_bits());
}

#[test]
fn with_bound_moves_only_the_lower_bound() {
    let b = Real::from_bits((-3.5f64).to_bits());
    let q = QAWF::new(10).with_bound(b);
    assert_eq!(q.lower_bound, b);
    assert_eq!(q.wkspc.nintervals, 10);
    assert_eq!(q.table.kind, WeightKind::Sine);
}

#[test]
fn with_sin_and_with_cos_set_the_weight_function() {
    let omega = Real::from_bits(0.25f64.to_bits());
    let q = QAWF::new(10).with_cos(omega);
    assert_eq!(q.table.kind, WeightKind::Cosine);
    assert_eq!(q.table.omega, omega);
    assert_eq!(q.table.nintervals, 10);
    let omega2 = Real::from_bits(4.0f64.to_bits());
    let q = q.with_sin(omega2);
    assert_eq!(q.table.kind, WeightKind::Sine);
    assert_eq!(q.table.omega, omega2);
    assert_eq!(q.table.nintervals, 10);
}

#[test]
fn request_hands_the_configuration_through() {
    let omega = Real::from_bits(3.0f64.to_bits());
    let bound = Real::from_bits(1.0f64.to_bits());
    let epsabs = Real::from_bits(1e-8f64.to_bits());
    let q = QAWF::new(100).with_bound(bound).with_cos(omega);
    let req = q.integrate_request(1, 1, epsabs).unwrap();
    assert_eq!(req.lower_bound, bound);
    assert_eq!(req.epsabs, epsabs);
    assert_eq!(req.limit, 100);
    assert_eq!(req.wkspc_nintervals, 100);
    assert_eq!(req.cycle_nintervals, 100);
    assert_eq!(req.table_nintervals, 100);
    assert_eq!(req.omega, omega);
    assert_eq!(req.kind, WeightKind::Cosine);
}

#[test]
fn request_refuses_a_non_scalar_integrand() {
    let q = QAWF::new(10);
    let eps = Real::from_bits(1e-6f64.to_bits());
    assert_eq!(
        q.integrate_request(2, 1, eps),
        Err(GSLIntegrationError::InvalidIntegrand { input_dim: 2, output_dim: 1 })
    );
    assert_eq!(
        q.integrate_request(1, 3, eps),
        Err(GSLIntegrationError::InvalidIntegrand { input_dim: 1, output_dim: 3 })
    );
    assert_eq!(
        q.integrate_request(0, 0, eps),
        Err(GSLIntegrationError::InvalidIntegrand { input_dim: 0, output_dim: 0 })
    );
    assert!(q.integrate_request(1, 1, eps).is_ok());
}

#[test]
fn finish_passes_a_success_through_verbatim() {
    let outcome = NativeOutcome {
        retcode: GSL_SUCCESS,
        value: Real::from_bits(0.625f64.to_bits()),
        error: Real::from_bits(1e-10f64.to_bits()),
    };
    let res = integrate_finish(outcome).unwrap();
    assert_eq!(f64::from_bits(res.value.to_bits()), 0.625);
    assert_eq!(f64::from_bits(res.error.to_bits()), 1e-10);
}

#[test]
fn finish_surfaces_a_failing_return_code() {
    let outcome = NativeOutcome {
        retcode: 22,
        value: Real::zero(),
        error: Real::zero(),
    };
    assert_eq!(
        integrate_finish(outcome),
        Err(GSLIntegrationError::GSLError(GSLError::Divergent))
    );
    let outcome = NativeOutcome { retcode: 18, value: Real::zero(), error: Real::zero() };
    assert_eq!(
        integrate_finish(outcome),
        Err(GSLIntegrationError::GSLError(GSLError::Roundoff))
    );
    let outcome = NativeOutcome { retcode: 999, value: Real::zero(), error: Real::zero() };
    assert_eq!(
        integrate_finish(outcome),
        Err(GSLIntegrationError::GSLError(GSLError::Unknown(999)))
    );
}

#[test]
fn every_table_code_round_trips() {
    let codes: Vec<i32> = (-2..=32).collect();
    for c in codes {
        assert_eq!(GSLError::from_code(c).code(), c);
    }
    // Codes outside the table are carried verbatim too.
    assert_eq!(GSLError::from_code(999), GSLError::Unknown(999));
    assert_eq!(GSLError::from_code(999).code(), 999);
    assert_eq!(GSLError::from_code(-7).code(), -7);
}

#[test]
fn named_codes_map_to_their_variants() {
    assert_eq!(GSLError::from_code(-1), GSLError::Failure);
    assert_eq!(GSLError::from_code(-2), GSLError::Continue);
    assert_eq!(GSLError::from_code(1), GSLError::Domain);
    assert_eq!(GSLError::from_code(4), GSLError::Invalid);
    assert_eq!(GSLError::from_code(8), GSLError::NoMemory);
    assert_eq!(GSLError::from_code(11), GSLError::MaxIteration);
    assert_eq!(GSLError::from_code(13), GSLError::BadTolerance);
    assert_eq!(GSLError::from_code(14), GSLError::Tolerance);
    assert_eq!(GSLError::from_code(18), GSLError::Roundoff);
    assert_eq!(GSLError::from_code(21), GSLError::Singularity);
    assert_eq!(GSLError::from_code(22), GSLError::Divergent);
    assert_eq!(GSLError::from_code(26), GSLError::TableLimit);
    assert_eq!(GSLError::from_code(32), GSLError::EndOfFile);
    // 0 is the success code; as an error it is only ever out-of-table.
    assert_eq!(GSLError::from_code(0), GSLError::Unknown(0));
}
