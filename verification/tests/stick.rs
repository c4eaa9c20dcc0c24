use model_viewer::pad::{stick_deflected, DEAD_ZONE_DEN, DEAD_ZONE_NUM, STICK_SCALE};

#[test]
fn dead_zone_constants() {
    assert_eq!(STICK_SCALE, 128);
    assert_eq!(DEAD_ZONE_NUM, 1);
    assert_eq!(DEAD_ZONE_DEN, 100);
}

#[test]
fn centred_stick_is_at_rest() {
    assert!(!stick_deflected(0, 0));
}

#[test]
fn dead_zone_edge_on_one_axis() {
    assert!(!stick_deflected(12, 0));
    assert!(stick_deflected(13, 0));
    assert!(!stick_deflected(0, 12));
    assert!(stick_deflected(0, 13));
    assert!(!stick_deflected(-12, 0));
    assert!(stick_deflected(-13, 0));
    assert!(!stick_deflected(0, -12));
    assert!(stick_deflected(0, -13));
}

#[test]
fn dead_zone_edge_on_the_diagonal() {
    // 9^2 + 9^2 = 162, 10^2 + 8^2 = 164; the threshold lies at 163.84.
    assert!(!stick_deflected(9, 9));
    assert!(stick_deflected(10, 8));
    assert!(stick_deflected(8, 10));
    assert!(!stick_deflected(12, 4));
    assert!(stick_deflected(12, 5));
    assert!(!stick_deflected(-9, 9));
    assert!(stick_deflected(-10, -8));
    assert!(stick_deflected(10, 10));
}

#[test]
fn extreme_stick_positions_are_deflected() {
    assert!(stick_deflected(127, 127));
    assert!(stick_deflected(-128, -128));
    assert!(stick_deflected(-128, 0));
    assert!(stick_deflected(0, 127));
    assert!(stick_deflected(-128, 127));
}

#[test]
fn deflection_is_symmetric_on_samples() {
    for &(x, y) in [(12i8, 5i8), (9, 9), (10, 8), (0, 13), (3, 100), (12, 4)].iter() {
        let d = stick_deflected(x, y);
        assert_eq!(stick_deflected(-x, y), d);
        assert_eq!(stick_deflected(x, -y), d);
        assert_eq!(stick_deflected(-x, -y), d);
        assert_eq!(stick_deflected(y, x), d);
    }
}

#[test]
fn deflection_grows_outward_on_samples() {
    assert!(stick_deflected(10, 8));
    assert!(stick_deflected(11, 8));
    assert!(stick_deflected(10, -9));
    assert!(stick_deflected(-50, 60));
}

#[test]
fn dead_zone_extent_over_the_whole_square() {
    for x in -9i8..=9 {
        for y in -9i8..=9 {
            assert!(!stick_deflected(x, y), "({}, {})", x, y);
        }
    }
    for far in [13i8, 14, 64, 127, -13, -14, -64, -128].iter() {
        for other in i8::MIN..=i8::MAX {
            assert!(stick_deflected(*far, other), "({}, {})", far, other);
            assert!(stick_deflected(other, *far), "({}, {})", other, far);
        }
    }
}

#[test]
fn dead_zone_agrees_with_the_normalised_magnitude() {
    for sx in i8::MIN..=i8::MAX {
        for sy in i8::MIN..=i8::MAX {
            let y = (sy as f32) / 128.0;
            let x = (sx as f32) / 128.0;
            let mag = x * x + y * y;
            assert_eq!(stick_deflected(sx, sy), mag.abs() > 0.01, "({}, {})", sx, sy);
        }
    }
}

#[test]
fn dead_zone_is_the_disc_of_squared_radius_164() {
    for sx in i8::MIN..=i8::MAX {
        for sy in i8::MIN..=i8::MAX {
            let norm2 = (sx as i32) * (sx as i32) + (sy as i32) * (sy as i32);
            assert_eq!(stick_deflected(sx, sy), norm2 >= 164, "({}, {})", sx, sy);
        }
    }
}
