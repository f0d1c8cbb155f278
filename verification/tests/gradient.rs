use piet_native::color::Color;
use piet_native::gradient::{
    check_stops, GradientStop, StopPosition, UNIT_NEG_ZERO_BITS, UNIT_ONE_BITS,
};

fn stop(pos: f32, rgba: u32) -> GradientStop {
    GradientStop { pos: StopPosition { bits: pos.to_bits() }, color: Color::from_rgba32_u32(rgba) }
}

fn float_check(positions: &[f32]) -> bool {
    if positions.is_empty() {
        return false;
    }
    let mut i = 0;
    while i < positions.len() {
        let p = positions[i];
        if !(p >= 0.0 && p <= 1.0) {
            return false;
        }
        if i > 0 && positions[i - 1] > p {
            return false;
        }
        i += 1;
    }
    true
}

fn stops_of(positions: &[f32]) -> Vec<GradientStop> {
    let mut out = Vec::new();
    for p in positions {
        out.push(stop(*p, 0xff));
    }
    out
}

#[test]
fn unit_constants_are_the_bits_of_their_numbers() {
    assert_eq!(UNIT_ONE_BITS, 1.0f32.to_bits());
    assert_eq!(UNIT_NEG_ZERO_BITS, (-0.0f32).to_bits());
}

#[test]
fn rank_orders_as_the_numbers_do() {
    let samples: [f32; 9] = [0.0, -0.0, f32::MIN_POSITIVE, 1e-6, 0.25, 0.5, 0.75, 0.999_999_9, 1.0];
    for a in samples {
        for b in samples {
            let ra = StopPosition { bits: a.to_bits() }.rank_value();
            let rb = StopPosition { bits: b.to_bits() }.rank_value();
            assert_eq!(ra <= rb, a <= b, "{} and {}", a, b);
            assert_eq!(ra == rb, a == b, "{} and {}", a, b);
        }
    }
}

#[test]
fn rank_puts_everything_else_above_one() {
    let outside: [f32; 7] =
        [-1.0, -1e-30, 1.000_000_1, 2.0, f32::INFINITY, f32::NEG_INFINITY, f32::NAN];
    for x in outside {
        let r = StopPosition { bits: x.to_bits() }.rank_value();
        assert!(r > UNIT_ONE_BITS, "{}", x);
    }
}

#[test]
fn check_stops_agrees_with_float_comparison() {
    let cases: [&[f32]; 14] = [
        &[],
        &[0.0],
        &[1.0],
        &[0.5],
        &[0.0, 1.0],
        &[1.0, 0.0],
        &[0.0, 0.5, 0.5, 1.0],
        &[0.0, 0.6, 0.5, 1.0],
        &[-0.0, 0.0, 1.0],
        &[0.0, -0.0],
        &[0.0, 1.5],
        &[-0.1, 1.0],
        &[0.0, f32::NAN],
        &[0.2, 0.2, 0.2],
    ];
    for positions in cases {
        assert_eq!(check_stops(&stops_of(positions)), float_check(positions), "{:?}", positions);
    }
}

#[test]
fn check_stops_over_a_grid_of_positions() {
    let grid: [f32; 7] = [-0.5, -0.0, 0.0, 0.3, 1.0, 1.2, f32::INFINITY];
    for a in grid {
        for b in grid {
            for c in grid {
                let positions = [a, b, c];
                assert_eq!(
                    check_stops(&stops_of(&positions)),
                    float_check(&positions),
                    "{:?}",
                    positions
                );
            }
        }
    }
}
