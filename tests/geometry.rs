use anchor::output::{Mode, Output, Transform};

fn output(transform: Transform, scale: i32) -> Output {
    Output {
        name: String::from("test"),
        mode: Mode { width: 800, height: 600, refresh: 60000 },
        transform,
        scale,
        x: 100,
        y: -50,
    }
}

#[test]
fn normal_output_offsets_by_location() {
    assert_eq!(output(Transform::Normal, 1).to_logical(10, 20), (110, -30));
}

#[test]
fn scale_divides_pixels() {
    assert_eq!(output(Transform::Normal, 2).to_logical(11, 21), (105, -40));
}

#[test]
fn rotations_follow_the_transform() {
    assert_eq!(output(Transform::_90, 1).to_logical(10, 20), (100 + 580, -50 + 10));
    assert_eq!(output(Transform::_180, 1).to_logical(10, 20), (100 + 790, -50 + 580));
    assert_eq!(output(Transform::_270, 1).to_logical(10, 20), (100 + 20, -50 + 790));
    assert_eq!(output(Transform::Flipped, 1).to_logical(10, 20), (100 + 790, -50 + 20));
    assert_eq!(output(Transform::Flipped90, 1).to_logical(10, 20), (100 + 20, -50 + 10));
    assert_eq!(output(Transform::Flipped180, 1).to_logical(10, 20), (100 + 10, -50 + 580));
    assert_eq!(output(Transform::Flipped270, 1).to_logical(10, 20), (100 + 580, -50 + 790));
}
