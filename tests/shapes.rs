use compact_bits::geometry::{times_five, Meters, Millimeters, Point};
use compact_bits::screen::{Button, Draw, Screen, Shape};
use compact_bits::text::{outline, Wrapper};

#[test]
fn screen_draws_components_in_order() {
    let screen = Screen {
        components: vec![
            Box::new(Button { width: 50, height: 10, label: String::from("OK") }),
            Box::new(Button { width: 75, height: 12, label: String::from("Cancel") }),
        ],
    };
    assert_eq!(
        screen.run(),
        vec![
            Shape::Rect { width: 50, height: 10 },
            Shape::Text { text: String::from("OK") },
            Shape::Rect { width: 75, height: 12 },
            Shape::Text { text: String::from("Cancel") },
        ]
    );
}

#[test]
fn empty_screen_draws_nothing() {
    let screen = Screen { components: Vec::new() };
    assert!(screen.run().is_empty());
}

#[test]
fn button_draw_appends_to_canvas() {
    let mut canvas = vec![Shape::Text { text: String::from("title") }];
    Button { width: 1, height: 2, label: String::from("go") }.draw(&mut canvas);
    assert_eq!(
        canvas,
        vec![
            Shape::Text { text: String::from("title") },
            Shape::Rect { width: 1, height: 2 },
            Shape::Text { text: String::from("go") },
        ]
    );
}

#[test]
fn points_add_by_coordinates() {
    assert_eq!(Point { x: 1, y: 0 }.add(Point { x: 2, y: 3 }), Point { x: 3, y: 3 });
    assert_eq!(Point { x: -5, y: 7 }.add(Point { x: 5, y: -8 }), Point { x: 0, y: -1 });
}

#[test]
fn point_text() {
    assert_eq!(Point { x: 3, y: 3 }.to_string(), "(3, 3)");
    assert_eq!(Point { x: -12, y: 0 }.to_string(), "(-12, 0)");
    assert_eq!(
        Point { x: i32::MIN, y: i32::MAX }.to_string(),
        "(-2147483648, 2147483647)"
    );
}

#[test]
fn millimeters_plus_meters() {
    assert_eq!(Millimeters(250).add(Meters(2)), Millimeters(2250));
    assert_eq!(Millimeters(0).add(Meters(0)), Millimeters(0));
}

#[test]
fn five_times() {
    assert_eq!(times_five(1 + 1), 10);
    assert_eq!(times_five(-3), -15);
}

#[test]
fn outline_frames_text() {
    assert_eq!(
        outline("(3, 3)"),
        vec!["**********", "*        *", "* (3, 3) *", "*        *", "**********"]
    );
    assert_eq!(outline(""), vec!["****", "*  *", "*  *", "*  *", "****"]);
}

#[test]
fn wrapper_lists_in_brackets() {
    let w = Wrapper(vec![String::from("hello"), String::from("world")]);
    assert_eq!(w.to_string(), "[hello, world]");
    assert_eq!(Wrapper(Vec::new()).to_string(), "[]");
    assert_eq!(Wrapper(vec![String::from("one")]).to_string(), "[one]");
}
