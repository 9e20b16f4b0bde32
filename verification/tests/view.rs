use ramiel::grid::Grid;
use ramiel::point::Point;
use ramiel::svg::{append_decimal, document_string, points_string};
use ramiel::view::{Colour, Draw, View};

#[test]
fn colours_have_their_parts() {
    assert_eq!(Colour::Black.rgb(), (0, 0, 0));
    assert_eq!(Colour::Blue.rgb(), (0, 0, 255));
    assert_eq!(Colour::Grey.rgb(), (100, 100, 100));
    assert_eq!(Colour::Green.rgb(), (0, 255, 0));
}

#[test]
fn a_new_view_has_recorded_nothing() {
    let v = View::new(640, 480);
    assert_eq!(v.width, 640);
    assert_eq!(v.height, 480);
    assert!(v.commands.is_empty());
}

#[test]
fn circles_differ_in_colour_only() {
    let mut v = View::new(10, 10);
    let p = Point::new(3, -4);
    v.circle(&p);
    v.cursor_circle(&p);
    v.highlighted_circle(&p);
    let expected = vec![
        Draw::Circle { x: 3, y: -4, radius: 20, colour: Colour::Green },
        Draw::Circle { x: 3, y: -4, radius: 20, colour: Colour::Grey },
        Draw::Circle { x: 3, y: -4, radius: 20, colour: Colour::Blue },
    ];
    assert_eq!(v.commands, expected);
}

#[test]
fn coordinates_are_cut_to_what_the_canvas_takes() {
    let mut v = View::new(10, 10);
    v.circle(&Point::new(40000, -40000));
    v.line(&Point::new(65536, 65537), &Point::new(32768, -32769), Colour::Black);
    let expected = vec![
        Draw::Circle { x: -25536, y: 25536, radius: 20, colour: Colour::Green },
        Draw::Line { x1: 0, y1: 1, x2: -32768, y2: 32767, colour: Colour::Black },
    ];
    assert_eq!(v.commands, expected);
}

#[test]
fn the_grid_is_drawn_in_grey() {
    let mut v = View::new(41, 40);
    v.grid(&Grid::new(40).unwrap());
    let grey = Colour::Grey;
    let expected = vec![
        Draw::SetColour(grey),
        Draw::Line { x1: 0, y1: 0, x2: 0, y2: 40, colour: grey },
        Draw::Line { x1: 40, y1: 0, x2: 40, y2: 40, colour: grey },
        Draw::Line { x1: 0, y1: 0, x2: 41, y2: 0, colour: grey },
    ];
    assert_eq!(v.commands, expected);
    assert_eq!((v.width, v.height), (41, 40));
}

#[test]
fn the_shape_is_not_closed() {
    let mut v = View::new(10, 10);
    let points = [Point::new(0, 0), Point::new(40, 0), Point::new(40, 40)];
    v.shape(&points);
    let green = Colour::Green;
    let expected = vec![
        Draw::Line { x1: 0, y1: 0, x2: 40, y2: 0, colour: green },
        Draw::Line { x1: 40, y1: 0, x2: 40, y2: 40, colour: green },
    ];
    assert_eq!(v.commands, expected);
}

#[test]
fn a_shape_of_one_vertex_has_no_edge() {
    let mut v = View::new(10, 10);
    v.shape(&[]);
    v.shape(&[Point::new(1, 1)]);
    assert!(v.commands.is_empty());
}

#[test]
fn reset_starts_over_and_update_presents() {
    let mut v = View::new(10, 10);
    v.circle(&Point::new(0, 0));
    v.reset();
    assert_eq!(v.commands, vec![Draw::SetColour(Colour::Black), Draw::Clear]);
    v.update();
    assert_eq!(v.commands, vec![Draw::SetColour(Colour::Black), Draw::Clear, Draw::Present]);
}

#[test]
fn decimal_of_each_kind_of_number() {
    let mut s = String::from("x=");
    append_decimal(&mut s, 0);
    s.push(' ');
    append_decimal(&mut s, 7);
    s.push(' ');
    append_decimal(&mut s, -7);
    s.push(' ');
    append_decimal(&mut s, 1234567890);
    s.push(' ');
    append_decimal(&mut s, 1000);
    s.push(' ');
    append_decimal(&mut s, i32::MAX);
    s.push(' ');
    append_decimal(&mut s, i32::MIN);
    assert_eq!(s, "x=0 7 -7 1234567890 1000 2147483647 -2147483648");
}

#[test]
fn decimal_agrees_with_the_standard_format() {
    for i in [-100001, -99, -10, -9, -1, 0, 1, 9, 10, 11, 99, 100, 101, 65535, 480, 640] {
        let mut s = String::new();
        append_decimal(&mut s, i);
        assert_eq!(s, format!("{}", i));
    }
}

#[test]
fn points_are_pairs_with_a_space_after_each() {
    assert_eq!(points_string(&vec![]), "");
    assert_eq!(points_string(&vec![Point::new(1, -2)]), "1,-2 ");
    assert_eq!(points_string(&vec![Point::new(1, -2), Point::new(30, 400)]), "1,-2 30,400 ");
}

#[test]
fn document_has_one_polygon() {
    let doc = document_string(200, 100, &vec![Point::new(0, 0), Point::new(40, 40)]);
    assert_eq!(doc.matches("<svg ").count(), 1);
    assert_eq!(doc.matches("<polygon ").count(), 1);
    assert!(doc.starts_with("<svg viewBox=\"0 0 200 100\" xmlns=\"http://www.w3.org/2000/svg\">"));
    assert!(doc.contains("<polygon points=\"0,0 40,40 \" fill=\"none\" stroke=\"black\" />"));
    assert!(doc.ends_with("</svg>"));
}
