use darkscout::palette::{generate_color, get_inbetween_colors, pick_color};
use darkscout::text::{decimal_string, hex_color_string, parse_hex_color};

#[test]
fn gradient_rising_blue() {
    let colors = get_inbetween_colors("#000000", "#0000FF", 5);
    assert_eq!(colors, vec!["#000000", "#000033", "#000066", "#000099", "#0000CC", "#0000FF"]);
}

#[test]
fn gradient_falling_steps_round_toward_zero() {
    let colors = get_inbetween_colors("#FFFFFF", "#000000", 3);
    assert_eq!(colors, vec!["#FFFFFF", "#AAAAAA", "#555555", "#000000"]);
}

#[test]
fn gradient_keeps_endpoints_as_written() {
    let colors = get_inbetween_colors("#ff0000", "#00ff00", 2);
    assert_eq!(colors, vec!["#ff0000", "#7FFF80", "#00ff00"]);
}

#[test]
fn gradient_of_one_step_is_the_endpoints() {
    let colors = get_inbetween_colors("#41445F", "#F9B759", 1);
    assert_eq!(colors, vec!["#41445F", "#F9B759"]);
}

#[test]
fn palette_gradient_of_five_steps() {
    let expected = ["#41445F", "#66282A", "#8B0BF5", "#AFEFC0", "#D4D38B", "#F9B759"];
    for (i, e) in expected.iter().enumerate() {
        assert_eq!(pick_color(1, i), *e);
    }
}

#[test]
fn generated_color_lies_on_a_palette_gradient() {
    for _ in 0..50 {
        let c = generate_color();
        assert_eq!(c.len(), 7);
        assert!(c.starts_with('#'));
        let found = (1..30usize).any(|k| {
            get_inbetween_colors("#41445F", "#F9B759", 5 * k).contains(&c)
        });
        assert!(found, "{} is on no palette gradient", c);
    }
}

#[test]
fn decimal_rendering() {
    assert_eq!(decimal_string(0), "0");
    assert_eq!(decimal_string(7), "7");
    assert_eq!(decimal_string(10), "10");
    assert_eq!(decimal_string(1234567890), "1234567890");
    assert_eq!(decimal_string(u128::MAX), "340282366920938463463374607431768211455");
}

#[test]
fn hex_rendering_and_parsing() {
    assert_eq!(hex_color_string(0x41445F), "#41445F");
    assert_eq!(hex_color_string(0), "#000000");
    assert_eq!(hex_color_string(0xFFFFFF), "#FFFFFF");
    assert_eq!(parse_hex_color("#f9b759"), 0xF9B759);
    assert_eq!(parse_hex_color("#41445F"), 0x41445F);
}
