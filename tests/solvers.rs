use math_modelling::{ConstantRate, ODESolver1, ODESolver2, Rhs1, Rhs2, Scalar, SolveError, SolverMethod};

#[derive(Clone, Copy, Debug, PartialEq)]
struct F64(f64);

impl Scalar for F64 {
    fn spec_plus(self, o: Self) -> Self {
        F64(self.0 + o.0)
    }

    fn spec_times(self, o: Self) -> Self {
        F64(self.0 * o.0)
    }

    fn spec_scale(self, n: i64) -> Self {
        F64(n as f64 * self.0)
    }

    fn spec_divide(self, d: u64) -> Self {
        F64(self.0 / d as f64)
    }

    fn plus(self, o: Self) -> Self {
        self.spec_plus(o)
    }

    fn times(self, o: Self) -> Self {
        self.spec_times(o)
    }

    fn scale(self, n: i64) -> Self {
        self.spec_scale(n)
    }

    fn divide(self, d: u64) -> Self {
        self.spec_divide(d)
    }
}

struct Field1<Fun>(Fun);

impl<Fun: Fn(f64, f64) -> f64> Rhs1<F64> for Field1<Fun> {
    fn rate(&self, t: F64, y: F64) -> F64 {
        F64((self.0)(t.0, y.0))
    }

    fn eval(&self, t: F64, y: F64) -> F64 {
        self.rate(t, y)
    }
}

struct Field2<Fun>(Fun);

impl<Fun: Fn(f64, f64, f64) -> f64> Rhs2<F64> for Field2<Fun> {
    fn rate(&self, t: F64, y1: F64, y2: F64) -> F64 {
        F64((self.0)(t.0, y1.0, y2.0))
    }

    fn eval(&self, t: F64, y1: F64, y2: F64) -> F64 {
        self.rate(t, y1, y2)
    }
}

const ALL: [SolverMethod; 10] = [
    SolverMethod::ForwardEuler,
    SolverMethod::ExplicitMidpoint,
    SolverMethod::Heun2,
    SolverMethod::Ralston2,
    SolverMethod::Kutta3,
    SolverMethod::Wray3,
    SolverMethod::Ralston3,
    SolverMethod::SSPRK3,
    SolverMethod::Classic4,
    SolverMethod::Three8th,
];

/// `n + 1` equally spaced points from 0 with spacing `h`.
fn grid(h: f64, n: usize) -> Vec<F64> {
    (0..=n).map(|i| F64(i as f64 * h)).collect()
}

fn values(ys: &[F64]) -> Vec<f64> {
    ys.iter().map(|y| y.0).collect()
}

#[test]
fn zero_field_one_step_keeps_value() {
    for m in ALL {
        let ys = ODESolver1::new(m).solve(ConstantRate { value: F64(0.0) }, F64(0.1), 1, &grid(0.1, 1), F64(3.5)).unwrap();
        assert_eq!(ys.len(), 2);
        assert_eq!(ys[1], ys[0], "{:?}", m);
        assert_eq!(ys[0], F64(3.5));
    }
}

#[test]
fn constant_derivative_is_exact() {
    let (a, h, n, y0) = (2.0, 0.5, 8, 1.25);
    for m in ALL {
        let t = grid(h, n);
        let ys = ODESolver1::new(m).solve(ConstantRate { value: F64(a) }, F64(h), n, &t, F64(y0)).unwrap();
        for i in 0..=n {
            assert_eq!(ys[i].0, y0 + a * t[i].0, "{:?} at {}", m, i);
        }
    }
}

#[test]
fn classic4_reaches_e() {
    let n = 1000;
    let h = 1.0 / n as f64;
    let ys = ODESolver1::classic4(Field1(|_t: f64, y: f64| y), F64(h), n, &grid(h, n), F64(1.0)).unwrap();
    assert!((ys[n].0 - std::f64::consts::E).abs() < 1e-6);
}

#[test]
fn classic4_beats_forward_euler() {
    let n = 20;
    let h = 0.05;
    let t = grid(h, n);
    let exact = (-(n as f64) * h).exp();
    let euler = ODESolver1::forward_euler(Field1(|_t: f64, y: f64| -y), F64(h), n, &t, F64(1.0)).unwrap();
    let rk4 = ODESolver1::classic4(Field1(|_t: f64, y: f64| -y), F64(h), n, &t, F64(1.0)).unwrap();
    let err_euler = (euler[n].0 - exact).abs();
    let err_rk4 = (rk4[n].0 - exact).abs();
    assert!(err_rk4 < err_euler);
    assert!(err_rk4 < 1e-6);
    assert!(err_euler > 1e-3);
}

#[test]
fn one_step_on_growth_matches_taylor_polynomial() {
    // One step of size 1 from y = 1 on dy/dt = y gives the Taylor polynomial
    // of e of the method's order.
    let expected = [
        (SolverMethod::ForwardEuler, 2.0),
        (SolverMethod::ExplicitMidpoint, 2.5),
        (SolverMethod::Heun2, 2.5),
        (SolverMethod::Ralston2, 2.5),
        (SolverMethod::Kutta3, 8.0 / 3.0),
        (SolverMethod::Wray3, 8.0 / 3.0),
        (SolverMethod::Ralston3, 8.0 / 3.0),
        (SolverMethod::SSPRK3, 8.0 / 3.0),
        (SolverMethod::Classic4, 65.0 / 24.0),
        (SolverMethod::Three8th, 65.0 / 24.0),
    ];
    for (m, want) in expected {
        let ys = ODESolver1::new(m).solve(Field1(|_t: f64, y: f64| y), F64(1.0), 1, &grid(1.0, 1), F64(1.0)).unwrap();
        assert!((ys[1].0 - want).abs() < 1e-12, "{:?}: {}", m, ys[1].0);
    }
}

#[test]
fn one_step_on_time_field_uses_nodes() {
    // dy/dt = t^2 over [0, 1]: third-order methods and above integrate it
    // exactly; Euler gives 0 and the midpoint rule 1/4.
    let f = |t: f64, _y: f64| t * t;
    let ys = ODESolver1::forward_euler(Field1(f), F64(1.0), 1, &grid(1.0, 1), F64(0.0)).unwrap();
    assert_eq!(ys[1].0, 0.0);
    let ys = ODESolver1::explicit_midpoint(Field1(f), F64(1.0), 1, &grid(1.0, 1), F64(0.0)).unwrap();
    assert_eq!(ys[1].0, 0.25);
    let ys = ODESolver1::heun_s2(Field1(f), F64(1.0), 1, &grid(1.0, 1), F64(0.0)).unwrap();
    assert_eq!(ys[1].0, 0.5);
    let ys = ODESolver1::ralston_s2(Field1(f), F64(1.0), 1, &grid(1.0, 1), F64(0.0)).unwrap();
    assert!((ys[1].0 - 1.0 / 3.0).abs() < 1e-12);
    for ys in [
        ODESolver1::kutta_s3(Field1(f), F64(1.0), 1, &grid(1.0, 1), F64(0.0)).unwrap(),
        ODESolver1::wray_s3(Field1(f), F64(1.0), 1, &grid(1.0, 1), F64(0.0)).unwrap(),
        ODESolver1::ralston_s3(Field1(f), F64(1.0), 1, &grid(1.0, 1), F64(0.0)).unwrap(),
        ODESolver1::ssprk3(Field1(f), F64(1.0), 1, &grid(1.0, 1), F64(0.0)).unwrap(),
        ODESolver1::classic4(Field1(f), F64(1.0), 1, &grid(1.0, 1), F64(0.0)).unwrap(),
        ODESolver1::three_8th(Field1(f), F64(1.0), 1, &grid(1.0, 1), F64(0.0)).unwrap(),
    ] {
        assert!((ys[1].0 - 1.0 / 3.0).abs() < 1e-12, "{}", ys[1].0);
    }
}

#[test]
fn two_variable_zero_fields_stay_constant() {
    for m in ALL {
        for n in [0, 1, 5] {
            let z = ConstantRate { value: F64(0.0) };
            let (ys1, ys2) = ODESolver2::new(m).solve(z, z, F64(0.25), n, &grid(0.25, n), F64(7.0), F64(-2.0)).unwrap();
            assert_eq!(values(&ys1), vec![7.0; n + 1]);
            assert_eq!(values(&ys2), vec![-2.0; n + 1]);
        }
    }
}

#[test]
fn second_state_reads_updated_first_state() {
    let (h, n) = (0.5, 6);
    let (ys1, ys2) = ODESolver2::forward_euler(
        Field2(|_t: f64, _y1: f64, _y2: f64| 1.0),
        Field2(|_t: f64, y1: f64, _y2: f64| y1),
        F64(h),
        n,
        &grid(h, n),
        F64(0.0),
        F64(0.0),
    )
    .unwrap();
    for i in 0..n {
        assert_eq!(ys1[i + 1].0, ys1[i].0 + h);
        assert_eq!(ys2[i + 1].0, ys2[i].0 + h * ys1[i + 1].0);
    }
    assert_eq!(values(&ys2), vec![0.0, 0.25, 0.75, 1.5, 2.5, 3.75, 5.25]);
}

#[test]
fn second_state_reads_updated_first_state_in_every_method() {
    let (h, n) = (0.5, 4);
    for m in ALL {
        let (ys1, ys2) = ODESolver2::new(m)
            .solve(
                Field2(|_t: f64, _y1: f64, _y2: f64| 1.0),
                Field2(|_t: f64, y1: f64, _y2: f64| y1),
                F64(h),
                n,
                &grid(h, n),
                F64(1.0),
                F64(0.0),
            )
            .unwrap();
        for i in 0..n {
            assert_eq!(ys1[i + 1].0, ys1[i].0 + h, "{:?}", m);
            assert_eq!(ys2[i + 1].0, ys2[i].0 + h * ys1[i + 1].0, "{:?}", m);
        }
    }
}

#[test]
fn first_state_sees_second_state_frozen() {
    // dy1/dt = y2, dy2/dt = 1 with Heun: the first state's two stages both see
    // y2 at the start of the step.
    let (ys1, ys2) = ODESolver2::heun_s2(
        Field2(|_t: f64, _y1: f64, y2: f64| y2),
        Field2(|_t: f64, _y1: f64, _y2: f64| 1.0),
        F64(1.0),
        1,
        &grid(1.0, 1),
        F64(0.0),
        F64(2.0),
    )
    .unwrap();
    assert_eq!(ys1[1].0, 2.0);
    assert_eq!(ys2[1].0, 3.0);
}

#[test]
fn coupled_predator_prey_step() {
    // Lotka-Volterra, one classic RK4 step, each state checked by hand.
    let f1 = |_t: f64, n: f64, p: f64| 1.5 * n - 0.5 * n * p;
    let f2 = |_t: f64, n: f64, p: f64| -p + 0.25 * n * p;
    let h = 0.1;
    let (ys1, ys2) = ODESolver2::classic4(Field2(f1), Field2(f2), F64(h), 1, &grid(h, 1), F64(2.0), F64(1.0)).unwrap();
    let rk4 = |g: &dyn Fn(f64) -> f64, y: f64| {
        let k1 = h * g(y);
        let k2 = h * g(y + k1 / 2.0);
        let k3 = h * g(y + k2 / 2.0);
        let k4 = h * g(y + k3);
        y + (k1 + 2.0 * k2 + 2.0 * k3 + k4) / 6.0
    };
    let n1 = rk4(&|n| f1(0.0, n, 1.0), 2.0);
    let p1 = rk4(&|p| f2(0.0, n1, p), 1.0);
    assert_eq!(ys1[1].0, n1);
    assert_eq!(ys2[1].0, p1);
}

#[test]
fn solving_twice_gives_identical_trajectories() {
    let f = |t: f64, y: f64| (t * y).sin() - 0.3 * y;
    let t = grid(0.01, 200);
    for m in ALL {
        let a = ODESolver1::new(m).solve(Field1(f), F64(0.01), 200, &t, F64(0.7)).unwrap();
        let b = ODESolver1::new(m).solve(Field1(f), F64(0.01), 200, &t, F64(0.7)).unwrap();
        let bits_a: Vec<u64> = a.iter().map(|y| y.0.to_bits()).collect();
        let bits_b: Vec<u64> = b.iter().map(|y| y.0.to_bits()).collect();
        assert_eq!(bits_a, bits_b);
    }
    let g1 = |_t: f64, x: f64, y: f64| x - x * y;
    let g2 = |_t: f64, x: f64, y: f64| x * y - y;
    let s = ODESolver2::new(SolverMethod::Three8th);
    let a = s.solve(Field2(g1), Field2(g2), F64(0.01), 200, &t, F64(1.5), F64(0.5)).unwrap();
    let b = s.solve(Field2(g1), Field2(g2), F64(0.01), 200, &t, F64(1.5), F64(0.5)).unwrap();
    assert_eq!(a, b);
}

#[test]
fn trajectory_length_is_steps_plus_one() {
    for m in ALL {
        for n in [0, 1, 2, 17] {
            let ys = ODESolver1::new(m).solve(Field1(|_t: f64, y: f64| y), F64(0.1), n, &grid(0.1, n), F64(1.0)).unwrap();
            assert_eq!(ys.len(), n + 1);
            assert_eq!(ys[0].0, 1.0);
            let z = ConstantRate { value: F64(1.0) };
            let (a, b) = ODESolver2::new(m).solve(z, z, F64(0.1), n, &grid(0.1, n), F64(1.0), F64(2.0)).unwrap();
            assert_eq!((a.len(), b.len()), (n + 1, n + 1));
        }
    }
}

#[test]
fn zero_steps_returns_initial_value_only() {
    let ys = ODESolver1::new(SolverMethod::Classic4).solve(Field1(|_t: f64, y: f64| y), F64(0.1), 0, &grid(0.1, 0), F64(4.0)).unwrap();
    assert_eq!(values(&ys), vec![4.0]);
}

#[test]
fn grid_of_wrong_length_is_refused() {
    let f = ConstantRate { value: F64(1.0) };
    let s1 = ODESolver1::new(SolverMethod::Heun2);
    assert_eq!(s1.solve(f, F64(0.1), 3, &grid(0.1, 2), F64(0.0)), Err(SolveError::GridLength));
    assert_eq!(s1.solve(f, F64(0.1), 3, &grid(0.1, 4), F64(0.0)), Err(SolveError::GridLength));
    assert_eq!(s1.solve(f, F64(0.1), 0, &Vec::new(), F64(0.0)), Err(SolveError::GridLength));
    assert_eq!(s1.solve(f, F64(0.1), usize::MAX, &grid(0.1, 1), F64(0.0)), Err(SolveError::GridLength));
    let s2 = ODESolver2::new(SolverMethod::Heun2);
    assert_eq!(s2.solve(f, f, F64(0.1), 3, &grid(0.1, 2), F64(0.0), F64(0.0)), Err(SolveError::GridLength));
}

#[test]
fn solver_keeps_its_method() {
    for m in ALL {
        assert_eq!(ODESolver1::new(m).method(), m);
        assert_eq!(ODESolver2::new(m).method(), m);
    }
}

#[test]
fn tableaus_have_published_shape() {
    let stages = [1, 2, 2, 2, 3, 3, 3, 3, 4, 4];
    for (m, s) in ALL.into_iter().zip(stages) {
        let tab = m.tableau();
        assert_eq!(tab.stages.len() + 1, s, "{:?}", m);
        let sum: i64 = tab.weights.iter().map(|w| w.coef).sum();
        assert_eq!(sum, tab.weight_den as i64, "{:?}", m);
        for (j, st) in tab.stages.iter().enumerate() {
            let row: i64 = st.terms.iter().map(|w| w.coef).sum();
            // Each stage's offsets in y sum to its node offset in t.
            assert_eq!(row as i128 * st.node_den as i128, st.node_num as i128 * st.den as i128, "{:?} stage {}", m, j + 1);
            assert!(st.terms.iter().all(|w| w.stage <= j));
        }
    }
    let rk4 = SolverMethod::Classic4.tableau();
    let w: Vec<(usize, i64)> = rk4.weights.iter().map(|w| (w.stage, w.coef)).collect();
    assert_eq!(w, vec![(0, 1), (1, 2), (2, 2), (3, 1)]);
    assert_eq!(rk4.weight_den, 6);
    let ralston = SolverMethod::Ralston2.tableau();
    assert_eq!((ralston.stages[0].node_num, ralston.stages[0].node_den), (2, 3));
    let w: Vec<(usize, i64)> = ralston.weights.iter().map(|w| (w.stage, w.coef)).collect();
    assert_eq!(w, vec![(0, 1), (1, 3)]);
    assert_eq!(ralston.weight_den, 4);
}
