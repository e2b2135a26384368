fn text(x: f64, y: f64, z: f64) -> String {
    vector3::display::format(&x.to_string(), &y.to_string(), &z.to_string())
}

#[test]
fn format_of_three_four_five() {
    assert_eq!(text(3.0, 4.0, 5.0), "Vector(3, 4, 5)");
}

#[test]
fn format_frames_the_component_texts() {
    assert_eq!(vector3::display::format("a", "bc", ""), "Vector(a, bc, )");
    assert_eq!(vector3::display::format("", "", ""), "Vector(, , )");
}

#[test]
fn format_keeps_fractions_and_signs() {
    assert_eq!(text(0.6, -0.8, 0.0), "Vector(0.6, -0.8, 0)");
    assert_eq!(text(-0.0, 1e21, 0.000001), "Vector(-0, 1000000000000000000000, 0.000001)");
}

#[test]
fn format_of_values_that_are_not_finite() {
    assert_eq!(text(f64::NAN, f64::INFINITY, f64::NEG_INFINITY), "Vector(NaN, inf, -inf)");
}

#[test]
fn format_keeps_text_beyond_ascii() {
    assert_eq!(vector3::display::format("\u{221e}", "\u{3c0}", "0"), "Vector(\u{221e}, \u{3c0}, 0)");
}
