use deepzoom::decimal::{add_num, div_num, int_num, mul_num, pow_num, ratio_num, sub_num, Decimal};
use deepzoom::frame::TickInput;
use deepzoom::input::{zoom_factor, ScrollEvent, ScrollUnit, ZoomKeys};
use deepzoom::orbit::reference_orbit;
use deepzoom::view::ViewState;
use num_bigfloat::BigFloat;

fn val(d: &Decimal) -> f64 {
    let (m, n, s, e) = d.to_parts();
    BigFloat::from_raw_parts(m, n, s, e).to_f64()
}

fn num(i: i64) -> Decimal {
    int_num(i).unwrap()
}

fn frac(n: i64, d: i64) -> Decimal {
    ratio_num(n, d).unwrap()
}

fn close(a: f64, b: f64, tol: f64) -> bool {
    (a - b).abs() <= tol
}

fn no_keys() -> ZoomKeys {
    ZoomKeys { zoom_in: false, zoom_out: false, accelerate: false }
}

fn line(y: i64) -> ScrollEvent {
    ScrollEvent { unit: ScrollUnit::Line, amount: num(y) }
}

fn same(a: &ViewState, b: &ViewState) -> bool {
    a.center_re.to_parts() == b.center_re.to_parts()
        && a.center_im.to_parts() == b.center_im.to_parts()
        && a.range.to_parts() == b.range.to_parts()
        && a.width.to_parts() == b.width.to_parts()
        && a.height.to_parts() == b.height.to_parts()
        && a.num_iterations == b.num_iterations
}

#[test]
fn number_operations_compute() {
    assert_eq!(val(&add_num(&Some(num(2)), &Some(num(3))).unwrap()), 5.0);
    assert_eq!(val(&sub_num(&Some(num(2)), &Some(num(3))).unwrap()), -1.0);
    assert_eq!(val(&mul_num(&Some(num(4)), &Some(num(3))).unwrap()), 12.0);
    assert_eq!(val(&div_num(&Some(num(3)), &Some(num(4))).unwrap()), 0.75);
    assert!(close(val(&pow_num(&Some(num(9)), &Some(frac(1, 2))).unwrap()), 3.0, 1e-12));
    assert_eq!(val(&num(-7)), -7.0);
    assert!(add_num(&None, &Some(num(1))).is_none());
    assert!(div_num(&Some(num(1)), &Some(Decimal::zero())).is_none());
}

#[test]
fn positivity() {
    assert!(num(3).is_positive());
    assert!(!num(-3).is_positive());
    assert!(!Decimal::zero().is_positive());
    assert!(frac(1, 1000).is_positive());
}

#[test]
fn initial_view_values() {
    let v = ViewState::initial().unwrap();
    assert_eq!(val(&v.center_re), -0.5);
    assert_eq!(val(&v.center_im), 0.0);
    assert_eq!(val(&v.range), 2.5);
    assert_eq!(val(&v.width), 800.0);
    assert_eq!(val(&v.height), 600.0);
    assert_eq!(v.num_iterations, 1000);
}

#[test]
fn new_refuses_bad_values() {
    assert!(ViewState::new(num(0), num(0), Decimal::zero(), num(800), num(600), 10).is_none());
    assert!(ViewState::new(num(0), num(0), num(1), num(-800), num(600), 10).is_none());
    assert!(ViewState::new(num(0), num(0), num(1), num(800), num(600), 0).is_none());
    assert!(ViewState::new(num(0), num(0), num(1), num(800), num(600), 1).is_some());
}

#[test]
fn resize_updates_aspect_and_pixel_size() {
    let mut v = ViewState::initial().unwrap();
    assert!(close(val(&v.aspect_ratio().unwrap()), 4.0 / 3.0, 1e-12));
    assert!(close(val(&v.pixel_size().unwrap()), 2.5 / 600.0, 1e-12));
    assert!(v.resize(&num(1600), &num(900)));
    assert!(close(val(&v.aspect_ratio().unwrap()), 16.0 / 9.0, 1e-12));
    assert!(close(val(&v.pixel_size().unwrap()), 2.5 / 900.0, 1e-12));
    let p = v.publish();
    assert!(close(val(&p.pixel_size.unwrap()), 0.002778, 1e-6));
    assert!(close(val(&p.aspect_ratio.unwrap()), 1.777778, 1e-6));
    assert_eq!(val(&p.range), 2.5);
    assert_eq!(p.num_iterations, 1000);
}

#[test]
fn resize_refuses_empty_window() {
    let mut v = ViewState::initial().unwrap();
    let before = v;
    assert!(!v.resize(&Decimal::zero(), &num(900)));
    assert!(!v.resize(&num(900), &num(-1)));
    assert!(same(&v, &before));
}

#[test]
fn set_iterations_refuses_zero() {
    let mut v = ViewState::initial().unwrap();
    assert!(!v.set_iterations(0));
    assert_eq!(v.num_iterations, 1000);
    assert!(v.set_iterations(5));
    assert_eq!(v.num_iterations, 5);
    assert_eq!(v.orbit().len(), 6);
}

#[test]
fn pixel_to_plane_corners() {
    let v = ViewState::initial().unwrap();
    let (re, im) = v.pixel_to_plane(&num(400), &num(300));
    assert!(close(val(&re.unwrap()), -0.5, 1e-12));
    assert!(close(val(&im.unwrap()), 0.0, 1e-12));
    let (re, im) = v.pixel_to_plane(&num(0), &num(0));
    assert!(close(val(&re.unwrap()), -0.5 - 2.5 * 4.0 / 3.0 / 2.0, 1e-12));
    assert!(close(val(&im.unwrap()), 1.25, 1e-12));
    let (re, _) = v.pixel_to_plane(&num(1600), &num(0));
    assert!(close(val(&re.unwrap()), -0.5 + 1.5 * 2.5 * 4.0 / 3.0, 1e-12));
}

#[test]
fn line_scroll_factor() {
    let f = zoom_factor(&vec![line(1)], no_keys()).unwrap();
    assert!(close(val(&f), 0.9, 1e-12));
}

#[test]
fn accelerated_line_scroll_factor() {
    let keys = ZoomKeys { zoom_in: false, zoom_out: false, accelerate: true };
    let f = zoom_factor(&vec![line(1)], keys).unwrap();
    assert!(close(val(&f), 0.9f64.powf(2.5), 1e-9));
    assert!(close(val(&f), 0.769, 1e-3));
}

#[test]
fn pixel_scroll_and_keys_factor() {
    let px = ScrollEvent { unit: ScrollUnit::Pixel, amount: num(100) };
    let f = zoom_factor(&vec![px], no_keys()).unwrap();
    assert!(close(val(&f), 0.9, 1e-12));
    let keys = ZoomKeys { zoom_in: true, zoom_out: false, accelerate: false };
    assert!(close(val(&zoom_factor(&vec![], keys).unwrap()), 0.98, 1e-12));
    let keys = ZoomKeys { zoom_in: false, zoom_out: true, accelerate: false };
    assert!(close(val(&zoom_factor(&vec![], keys).unwrap()), 1.02, 1e-12));
    let keys = ZoomKeys { zoom_in: true, zoom_out: true, accelerate: false };
    let f = zoom_factor(&vec![line(1), line(-1)], keys).unwrap();
    assert!(close(val(&f), 0.9 * 1.1 * 0.98 * 1.02, 1e-12));
    assert_eq!(val(&zoom_factor(&vec![], no_keys()).unwrap()), 1.0);
}

#[test]
fn zoom_keeps_cursor_point() {
    let mut v = ViewState::initial().unwrap();
    let (px, py) = (num(200), num(150));
    let (a_re, a_im) = v.pixel_to_plane(&px, &py);
    assert!(v.zoom(Some((px, py)), &frac(1, 2)));
    let (b_re, b_im) = v.pixel_to_plane(&px, &py);
    assert!(close(val(&a_re.unwrap()), val(&b_re.unwrap()), 1e-15));
    assert!(close(val(&a_im.unwrap()), val(&b_im.unwrap()), 1e-15));
    assert!(close(val(&v.range), 1.25, 1e-15));
}

#[test]
fn zoom_at_centre_keeps_centre() {
    let mut v = ViewState::initial().unwrap();
    assert!(v.zoom(Some((num(400), num(300))), &frac(1, 2)));
    assert!(close(val(&v.center_re), -0.5, 1e-15));
    assert!(close(val(&v.center_im), 0.0, 1e-15));
    assert!(close(val(&v.range), 1.25, 1e-15));
}

#[test]
fn zoom_composition() {
    let p = (num(100), num(500));
    let mut a = ViewState::initial().unwrap();
    assert!(a.zoom(Some(p), &frac(1, 2)));
    assert!(a.zoom(Some(p), &frac(1, 4)));
    let mut b = ViewState::initial().unwrap();
    assert!(b.zoom(Some(p), &frac(1, 8)));
    assert!(close(val(&a.center_re), val(&b.center_re), 1e-15));
    assert!(close(val(&a.center_im), val(&b.center_im), 1e-15));
    assert!(close(val(&a.range), val(&b.range), 1e-15));
}

#[test]
fn zoom_refuses_non_positive_factor() {
    let mut v = ViewState::initial().unwrap();
    let before = v;
    assert!(!v.zoom(Some((num(10), num(10))), &Decimal::zero()));
    assert!(!v.zoom(Some((num(10), num(10))), &num(-2)));
    assert!(same(&v, &before));
}

#[test]
fn zoom_without_cursor_keeps_view() {
    let mut v = ViewState::initial().unwrap();
    let before = v;
    assert!(!v.zoom_tick(None, &vec![line(3), line(1)], no_keys()));
    assert!(same(&v, &before));
    assert!(!v.zoom(None, &frac(1, 2)));
    assert!(same(&v, &before));
}

#[test]
fn zoom_tick_applies_product_once() {
    let mut v = ViewState::initial().unwrap();
    assert!(v.zoom_tick(Some((num(400), num(300))), &vec![line(1), line(1)], no_keys()));
    assert!(close(val(&v.range), 2.5 * 0.81, 1e-12));
}

#[test]
fn pan_moves_centre() {
    let mut v = ViewState::initial().unwrap();
    assert!(v.pan(&num(80), &num(60)));
    assert!(close(val(&v.center_re), -0.5 - 0.1 * 2.5 * 4.0 / 3.0, 1e-15));
    assert!(close(val(&v.center_im), 0.25, 1e-15));
    assert_eq!(val(&v.range), 2.5);
}

#[test]
fn pan_by_zero_keeps_centre() {
    let mut v = ViewState::initial().unwrap();
    assert!(v.pan(&Decimal::zero(), &Decimal::zero()));
    assert_eq!(val(&v.center_re), -0.5);
    assert_eq!(val(&v.center_im), 0.0);
}

#[test]
fn pan_linearity() {
    let mut a = ViewState::initial().unwrap();
    assert!(a.pan(&num(30), &num(-20)));
    assert!(a.pan(&num(-70), &num(45)));
    let mut b = ViewState::initial().unwrap();
    assert!(b.pan(&num(-40), &num(25)));
    assert!(close(val(&a.center_re), val(&b.center_re), 1e-15));
    assert!(close(val(&a.center_im), val(&b.center_im), 1e-15));
}

#[test]
fn drag_without_button_keeps_view() {
    let mut v = ViewState::initial().unwrap();
    let before = v;
    assert!(!v.drag_tick(false, &vec![(num(10), num(5)), (num(3), num(4))]));
    assert!(same(&v, &before));
}

#[test]
fn drag_with_button_sums_deltas() {
    let mut v = ViewState::initial().unwrap();
    assert!(v.drag_tick(true, &vec![(num(50), num(20)), (num(30), num(40))]));
    assert!(close(val(&v.center_re), -0.5 - 0.1 * 2.5 * 4.0 / 3.0, 1e-15));
    assert!(close(val(&v.center_im), 0.25, 1e-15));
}

#[test]
fn orbit_of_zero_stays_at_zero() {
    let z = Decimal::zero();
    let o = reference_orbit(&z, &z, 50);
    assert_eq!(o.len(), 51);
    for (x, y) in o.iter() {
        assert_eq!(val(&x.unwrap()), 0.0);
        assert_eq!(val(&y.unwrap()), 0.0);
    }
}

#[test]
fn orbit_of_minus_one_alternates() {
    let o = reference_orbit(&num(-1), &Decimal::zero(), 40);
    assert_eq!(o.len(), 41);
    for (k, (x, y)) in o.iter().enumerate() {
        let want = if k % 2 == 0 { 0.0 } else { -1.0 };
        assert_eq!(val(&x.unwrap()), want);
        assert_eq!(val(&y.unwrap()), 0.0);
    }
}

#[test]
fn orbit_is_deterministic() {
    let c_re = frac(-3, 4);
    let c_im = frac(1, 10);
    let a = reference_orbit(&c_re, &c_im, 100);
    let b = reference_orbit(&c_re, &c_im, 100);
    assert_eq!(a.len(), b.len());
    for (p, q) in a.iter().zip(b.iter()) {
        assert_eq!(p.0.map(|d| d.to_parts()), q.0.map(|d| d.to_parts()));
        assert_eq!(p.1.map(|d| d.to_parts()), q.1.map(|d| d.to_parts()));
    }
}

#[test]
fn orbit_first_steps() {
    let o = reference_orbit(&frac(1, 4), &frac(1, 2), 2);
    assert_eq!(val(&o[1].0.unwrap()), 0.25);
    assert_eq!(val(&o[1].1.unwrap()), 0.5);
    assert!(close(val(&o[2].0.unwrap()), 0.0625 - 0.25 + 0.25, 1e-15));
    assert!(close(val(&o[2].1.unwrap()), 2.0 * 0.25 * 0.5 + 0.5, 1e-15));
}

#[test]
fn orbit_escaping_is_not_finite() {
    let o = reference_orbit(&num(2), &Decimal::zero(), 40);
    assert_eq!(o.len(), 41);
    assert!(o[40].0.is_none());
}

#[test]
fn update_regenerates_orbit_on_change() {
    let mut v = ViewState::initial().unwrap();
    assert!(v.set_iterations(20));
    let input = TickInput {
        cursor: Some((num(400), num(300))),
        scroll: vec![line(1)],
        keys: no_keys(),
        drag_held: true,
        drag: vec![(num(80), num(0))],
    };
    let f = v.update(&input);
    assert!(close(val(&v.range), 2.25, 1e-12));
    assert!(close(val(&v.center_re), -0.5 - 0.1 * 2.25 * 4.0 / 3.0, 1e-12));
    assert_eq!(f.orbit.unwrap().len(), 21);
    assert!(close(val(&f.params.pixel_size.unwrap()), 2.25 / 600.0, 1e-12));
}

#[test]
fn update_without_input_keeps_orbit() {
    let mut v = ViewState::initial().unwrap();
    let before = v;
    let input = TickInput {
        cursor: None,
        scroll: vec![line(2)],
        keys: no_keys(),
        drag_held: false,
        drag: vec![(num(5), num(5))],
    };
    let f = v.update(&input);
    assert!(f.orbit.is_none());
    assert!(same(&v, &before));
    assert_eq!(val(&f.params.range), 2.5);
}


#[test]
fn parse_reads_decimal_text() {
    assert_eq!(val(&Decimal::parse("-0.75").unwrap()), -0.75);
    assert!(close(val(&Decimal::parse("1.5e-30").unwrap()), 1.5e-30, 1e-40));
    assert!(Decimal::parse("inf").is_none());
    assert!(Decimal::parse("abc").is_none());
}
