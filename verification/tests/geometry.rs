use piet_native::geometry::{
    Affine, Point, Rect, Scalar, Size, NEG_ONE_BITS, ONE_BITS, SIGN_BIT, ZERO_BITS,
};
use piet_native::path::{PathEl, Shape, PATH_TOLERANCE_BITS};

fn s(x: f64) -> Scalar {
    Scalar::from_bits(x.to_bits())
}

fn f(x: Scalar) -> f64 {
    f64::from_bits(x.to_bits())
}

#[test]
fn constants_are_the_bits_of_their_numbers() {
    assert_eq!(ZERO_BITS, 0.0f64.to_bits());
    assert_eq!(ONE_BITS, 1.0f64.to_bits());
    assert_eq!(NEG_ONE_BITS, (-1.0f64).to_bits());
    assert_eq!(SIGN_BIT, (-0.0f64).to_bits());
    assert_eq!(PATH_TOLERANCE_BITS, 1e-3f64.to_bits());
    assert_eq!(f(Scalar::zero()), 0.0);
    assert_eq!(f(Scalar::one()), 1.0);
    assert_eq!(f(Scalar::neg_one()), -1.0);
}

#[test]
fn negated_is_float_negation() {
    let samples: [f64; 9] =
        [0.0, -0.0, 1.0, -1.0, 3.5, -2.25e10, f64::MAX, f64::MIN_POSITIVE, f64::INFINITY];
    for x in samples {
        assert_eq!(s(x).negated().to_bits(), (-x).to_bits());
        assert_eq!(s(x).negated().negated(), s(x));
    }
    assert!(f(s(f64::NAN).negated()).is_nan());
}

#[test]
fn scalar_round_trips_bits() {
    assert_eq!(Scalar::from_bits(42).to_bits(), 42);
    assert_eq!(f(s(12.75)), 12.75);
}

#[test]
fn affine_constructors_match_kurbo() {
    let t = Affine::translate(s(3.0), s(-4.5));
    let k = piet::kurbo::Affine::translate((3.0, -4.5)).as_coeffs();
    assert_eq!([f(t.a), f(t.b), f(t.c), f(t.d), f(t.e), f(t.f)], k);

    let sc = Affine::scale_non_uniform(s(2.0), s(0.5));
    let k = piet::kurbo::Affine::new([2.0, 0.0, 0.0, 0.5, 0.0, 0.0]).as_coeffs();
    assert_eq!([f(sc.a), f(sc.b), f(sc.c), f(sc.d), f(sc.e), f(sc.f)], k);

    let flip = Affine::flip_y();
    assert_eq!([f(flip.a), f(flip.b), f(flip.c), f(flip.d), f(flip.e), f(flip.f)], [
        1.0, 0.0, 0.0, -1.0, 0.0, 0.0
    ]);
}

#[test]
fn rect_from_origin_size_starts_at_zero() {
    let r = Rect::from_origin_size(Size { width: s(4.0), height: s(3.0) });
    assert_eq!(r, Rect::new(s(0.0), s(0.0), s(4.0), s(3.0)));
    assert_eq!(Point::origin(), Point::new(s(0.0), s(0.0)));
}

#[test]
fn shape_knows_whether_it_is_a_rect() {
    let r = Rect::new(s(1.0), s(2.0), s(3.0), s(4.0));
    assert_eq!(Shape::Rect(r).as_rect(), Some(r));
    let p = Shape::Path(vec![PathEl::MoveTo(Point::origin()), PathEl::ClosePath]);
    assert_eq!(p.as_rect(), None);
}
