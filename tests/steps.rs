use meander::steps::TimeSteps;

#[test]
fn fresh_cursor_starts_at_step_zero() {
    let c = TimeSteps::new(3u8);
    assert_eq!(c.position(), 0);
    assert_eq!(*c.source(), 3u8);
}

#[test]
fn advance_hands_out_step_numbers_in_order() {
    let mut c = TimeSteps::new("curve");
    let got: Vec<u64> = (0..10).map(|_| c.advance()).collect();
    assert_eq!(got, vec![0, 1, 2, 3, 4, 5, 6, 7, 8, 9]);
    assert_eq!(c.position(), 10);
}

#[test]
fn advance_keeps_the_curve() {
    let mut c = TimeSteps::new(vec![1u32, 2, 3]);
    c.advance();
    c.advance();
    assert_eq!(*c.source(), vec![1u32, 2, 3]);
    assert_eq!(c.into_source(), vec![1u32, 2, 3]);
}

#[test]
fn borrowed_curve_outlives_the_cursor() {
    let curve = vec![5i64, 6];
    let mut c = TimeSteps::new(&curve);
    assert_eq!(c.advance(), 0);
    assert_eq!(c.advance(), 1);
    let back: &Vec<i64> = c.into_source();
    assert!(std::ptr::eq(back, &curve));
    assert_eq!(curve.len(), 2);
}

#[test]
fn two_cursors_on_one_curve_start_independently() {
    let curve = 9u16;
    let mut a = TimeSteps::new(&curve);
    a.advance();
    a.advance();
    let mut b = TimeSteps::new(&curve);
    assert_eq!(b.advance(), 0);
    assert_eq!(a.advance(), 2);
}

#[test]
fn nth_step_time_is_n_times_dt() {
    let dt = 0.1f64;
    let mut c = TimeSteps::new(());
    for n in 0..20u64 {
        let i = c.advance();
        assert_eq!(i, n);
        assert_eq!(i as f64 * dt, dt * n as f64);
    }
}

#[test]
fn zero_dt_gives_time_zero_at_every_step() {
    let dt = 0.0f64;
    let mut c = TimeSteps::new(());
    for _ in 0..5 {
        assert_eq!(c.advance() as f64 * dt, 0.0);
    }
}
