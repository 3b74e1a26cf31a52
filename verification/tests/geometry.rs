//! Tests of the geometric value types and the segment decomposition.

use geo_vincenty::{Coordinate, Line, LineString, MultiLineString, Point};

#[test]
fn line_new_keeps_endpoints() {
    let line = Line::new(Coordinate { x: 0., y: 0. }, Coordinate { x: 1., y: 2. });
    assert_eq!(line.start, Coordinate { x: 0., y: 0. });
    assert_eq!(line.end, Coordinate { x: 1., y: 2. });
}

#[test]
fn line_endpoints_as_points() {
    let line = Line::new(Coordinate { x: 4., y: -12. }, Coordinate { x: 0., y: 9. });
    assert_eq!(line.start_point(), Point::new(4., -12.));
    assert_eq!(line.end_point(), Point::new(0., 9.));
    let (s, e) = line.points();
    assert_eq!(s, Point::new(4., -12.));
    assert_eq!(e, Point::new(0., 9.));
}

#[test]
fn point_components() {
    let p: Point<f64> = Point::new(10.5, -3.25);
    assert_eq!(p.x(), 10.5);
    assert_eq!(p.y(), -3.25);
    assert_eq!(p.lng(), 10.5);
    assert_eq!(p.lat(), -3.25);
}

#[test]
fn line_dx_dy() {
    let line = Line::new(Coordinate { x: 4., y: -12. }, Coordinate { x: 0., y: 9. });
    assert_eq!(line.dx(), 0. - 4.);
    assert_eq!(line.dy(), 9. - (-12.));
}

#[test]
fn line_slope_and_determinant() {
    let line = Line::new(Coordinate { x: 4., y: -12. }, Coordinate { x: 0., y: 9. });
    assert_eq!(line.slope(), 21. / -4.);
    assert_eq!(line.determinant(), 4. * 9. - (-12.) * 0.);
}

#[test]
fn slope_is_kept_and_determinant_is_negated_under_reversal() {
    let a = Coordinate { x: 4., y: -12. };
    let b = Coordinate { x: 0., y: 9. };
    assert_eq!(Line::new(a, b).slope(), Line::new(b, a).slope());
    assert_eq!(Line::new(a, b).determinant(), -Line::new(b, a).determinant());
}

#[test]
fn lines_yields_one_segment_per_adjacent_pair() {
    let line_string: LineString<f32> = LineString(vec![
        Coordinate { x: 0., y: 0. },
        Coordinate { x: 5., y: 0. },
        Coordinate { x: 7., y: 9. },
    ]);
    let lines = line_string.lines();
    assert_eq!(lines.len(), 2);
    assert_eq!(
        lines[0],
        Line::new(Coordinate { x: 0., y: 0. }, Coordinate { x: 5., y: 0. })
    );
    assert_eq!(
        lines[1],
        Line::new(Coordinate { x: 5., y: 0. }, Coordinate { x: 7., y: 9. })
    );
}

#[test]
fn lines_of_short_paths_are_empty() {
    let empty: LineString<f64> = LineString(vec![]);
    assert_eq!(empty.lines().len(), 0);
    let single: LineString<f64> = LineString(vec![Coordinate { x: 3., y: 4. }]);
    assert_eq!(single.lines().len(), 0);
}

#[test]
fn lines_is_restartable() {
    let path: LineString<f64> = LineString(vec![
        Coordinate { x: 0., y: 0. },
        Coordinate { x: 1., y: 1. },
    ]);
    let first = path.lines();
    let second = path.lines();
    assert_eq!(first, second);
    assert_eq!(first.len(), 1);
}

#[test]
fn coordinate_from_pair() {
    let c: Coordinate<f64> = Coordinate::from((1.5, -2.5));
    assert_eq!(c, Coordinate { x: 1.5, y: -2.5 });
}

#[test]
fn line_from_array_of_pairs() {
    let line: Line<f64> = Line::from([(0., 0.), (1., 2.)]);
    assert_eq!(line.start, Coordinate { x: 0., y: 0. });
    assert_eq!(line.end, Coordinate { x: 1., y: 2. });
}

#[test]
fn line_string_from_vec_of_coordinates() {
    let coords = vec![Coordinate { x: 0., y: 0. }, Coordinate { x: 10., y: 0. }];
    let line_string: LineString<f64> = LineString::from(coords.clone());
    assert_eq!(line_string.0, coords);
    assert_eq!(line_string.num_coords(), 2);
}

#[test]
fn multi_line_string_counts_paths() {
    let multi: MultiLineString<f64> = MultiLineString(vec![
        LineString(vec![]),
        LineString(vec![Coordinate { x: 1., y: 1. }]),
    ]);
    assert_eq!(multi.num_line_strings(), 2);
}
