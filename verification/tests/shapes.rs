use serde_json::{Number, Value};
use tiled_json::{ObjectShape, ObjectShapeData, Point, Text};

fn json(text: &str) -> Value {
    serde_json::from_str(text).unwrap()
}

fn number(text: &str) -> Number {
    serde_json::from_str(text).unwrap()
}

fn shape(text: &str) -> ObjectShape {
    ObjectShape::decode(&json(text))
}

#[test]
fn a_point_flag_is_a_point() {
    assert_eq!(shape("{\"point\": true}"), ObjectShape::Point);
    assert_eq!(shape("{\"point\": false}"), ObjectShape::Point);
    assert_eq!(
        ObjectShapeData::resolve(&json("{\"point\": false}")),
        Some(ObjectShapeData::Point { point: false })
    );
}

#[test]
fn a_point_flag_comes_before_every_other_shape() {
    let record = "{\"point\": true, \"ellipse\": true, \"width\": 1, \"height\": 2,
        \"polyline\": [], \"polygon\": [], \"text\": {\"text\": \"a\", \"wrap\": true}}";
    assert_eq!(shape(record), ObjectShape::Point);
}

#[test]
fn unrecognized_members_are_an_unknown_shape() {
    assert_eq!(shape("{}"), ObjectShape::Unknown);
    assert_eq!(shape("{\"star\": true, \"radius\": 4}"), ObjectShape::Unknown);
    assert_eq!(shape("{\"width\": 4}"), ObjectShape::Unknown);
    assert_eq!(shape("{\"height\": 4}"), ObjectShape::Unknown);
    assert_eq!(shape("{\"id\": 1, \"name\": \"x\", \"visible\": true}"), ObjectShape::Unknown);
    assert_eq!(ObjectShapeData::resolve(&json("{\"star\": true}")), None);
}

#[test]
fn a_value_that_is_no_record_is_an_unknown_shape() {
    for text in ["null", "12", "\"point\"", "[1, 2]", "true"] {
        assert_eq!(shape(text), ObjectShape::Unknown);
    }
}

#[test]
fn members_of_the_wrong_kind_spell_no_shape() {
    assert_eq!(shape("{\"point\": \"yes\"}"), ObjectShape::Unknown);
    assert_eq!(shape("{\"point\": 1}"), ObjectShape::Unknown);
    assert_eq!(shape("{\"width\": \"4\", \"height\": 4}"), ObjectShape::Unknown);
    assert_eq!(shape("{\"polyline\": {\"x\": 1, \"y\": 2}}"), ObjectShape::Unknown);
    assert_eq!(shape("{\"polygon\": [{\"x\": 1}]}"), ObjectShape::Unknown);
    assert_eq!(shape("{\"polygon\": [{\"x\": 1, \"y\": 2}, 3]}"), ObjectShape::Unknown);
}

#[test]
fn an_extent_alone_is_a_rectangle() {
    assert_eq!(
        shape("{\"width\": 4, \"height\": 2.5}"),
        ObjectShape::Rect { width: number("4"), height: number("2.5") }
    );
    assert_eq!(
        shape("{\"width\": -1, \"height\": 0, \"name\": \"box\"}"),
        ObjectShape::Rect { width: number("-1"), height: number("0") }
    );
}

#[test]
fn an_ellipse_flag_with_an_extent_is_an_ellipse() {
    assert_eq!(
        shape("{\"ellipse\": true, \"width\": 4, \"height\": 2}"),
        ObjectShape::Ellipse { width: number("4"), height: number("2") }
    );
    assert_eq!(
        ObjectShapeData::resolve(&json("{\"ellipse\": false, \"width\": 4, \"height\": 2}")),
        Some(ObjectShapeData::Ellipse { ellipse: false, width: number("4"), height: number("2") })
    );
}

#[test]
fn an_ellipse_flag_without_an_extent_is_passed_over() {
    assert_eq!(shape("{\"ellipse\": true}"), ObjectShape::Unknown);
    assert_eq!(shape("{\"ellipse\": true, \"width\": 4}"), ObjectShape::Unknown);
    assert_eq!(
        shape("{\"ellipse\": true, \"polygon\": [{\"x\": 0, \"y\": 1}]}"),
        ObjectShape::Polygon { points: vec![Point { x: number("0"), y: number("1") }] }
    );
    assert_eq!(
        shape("{\"ellipse\": 1, \"width\": 4, \"height\": 2}"),
        ObjectShape::Rect { width: number("4"), height: number("2") }
    );
}

#[test]
fn points_spell_a_polyline_or_a_polygon() {
    let points = vec![
        Point { x: number("0"), y: number("0") },
        Point { x: number("1.5"), y: number("-2") },
        Point { x: number("3"), y: number("4") },
    ];
    let list = "[{\"x\": 0, \"y\": 0}, {\"x\": 1.5, \"y\": -2}, {\"y\": 4, \"x\": 3, \"z\": 9}]";
    assert_eq!(
        shape(&format!("{{\"polyline\": {}}}", list)),
        ObjectShape::Polyline { points: points.clone() }
    );
    assert_eq!(
        shape(&format!("{{\"polygon\": {}, \"width\": 0, \"height\": 0}}", list)),
        ObjectShape::Polygon { points: points.clone() }
    );
    assert_eq!(
        shape(&format!("{{\"polygon\": {}, \"polyline\": {}}}", list, list)),
        ObjectShape::Polyline { points }
    );
    assert_eq!(shape("{\"polyline\": []}"), ObjectShape::Polyline { points: Vec::new() });
}

#[test]
fn a_text_record_with_an_extent_is_a_text() {
    let record = "{\"text\": {\"text\": \"Hello\", \"wrap\": true, \"fontfamily\": \"Sans\",
        \"pixelsize\": 12, \"bold\": true}, \"width\": 40, \"height\": 10}";
    match shape(record) {
        ObjectShape::Text { text, width, height } => {
            assert_eq!(text.text(), "Hello");
            assert!(text.wrap());
            assert_eq!(text.font_family(), Some("Sans"));
            assert_eq!(text.pixel_size(), Some(12));
            assert_eq!(width, number("40"));
            assert_eq!(height, number("10"));
        }
        other => panic!("unexpected shape: {:?}", other),
    }
}

#[test]
fn a_text_may_leave_out_font_and_size() {
    let text = Text::decode(&json("{\"text\": \"\", \"wrap\": false}")).unwrap();
    assert_eq!(text.text(), "");
    assert!(!text.wrap());
    assert_eq!(text.font_family(), None);
    assert_eq!(text.pixel_size(), None);
    let text =
        Text::decode(&json("{\"text\": \"a\", \"wrap\": false, \"fontfamily\": null, \"pixelsize\": null}"))
            .unwrap();
    assert_eq!(text.font_family(), None);
    assert_eq!(text.pixel_size(), None);
}

#[test]
fn a_text_record_must_be_whole() {
    assert_eq!(Text::decode(&json("{\"text\": \"a\"}")), None);
    assert_eq!(Text::decode(&json("{\"wrap\": true}")), None);
    assert_eq!(Text::decode(&json("{\"text\": 1, \"wrap\": true}")), None);
    assert_eq!(Text::decode(&json("{\"text\": \"a\", \"wrap\": true, \"fontfamily\": 3}")), None);
    assert_eq!(Text::decode(&json("{\"text\": \"a\", \"wrap\": true, \"pixelsize\": -3}")), None);
    assert_eq!(Text::decode(&json("{\"text\": \"a\", \"wrap\": true, \"pixelsize\": 1.5}")), None);
    assert_eq!(
        Text::decode(&json("{\"text\": \"a\", \"wrap\": true, \"pixelsize\": 4294967296}")),
        None
    );
    assert_eq!(Text::decode(&json("\"a\"")), None);
}

#[test]
fn a_text_that_is_no_record_leaves_a_rectangle() {
    assert_eq!(
        shape("{\"text\": \"Hello\", \"width\": 40, \"height\": 10}"),
        ObjectShape::Rect { width: number("40"), height: number("10") }
    );
    assert_eq!(shape("{\"text\": {\"text\": \"Hello\", \"wrap\": true}}"), ObjectShape::Unknown);
}

#[test]
fn shape_data_lose_their_flags() {
    assert_eq!(ObjectShape::from(ObjectShapeData::Point { point: false }), ObjectShape::Point);
    assert_eq!(
        ObjectShape::from(ObjectShapeData::Ellipse {
            ellipse: false,
            width: number("1"),
            height: number("2")
        }),
        ObjectShape::Ellipse { width: number("1"), height: number("2") }
    );
    assert_eq!(
        ObjectShape::from(ObjectShapeData::Rect { width: number("1"), height: number("2") }),
        ObjectShape::Rect { width: number("1"), height: number("2") }
    );
    let points = vec![Point { x: number("1"), y: number("2") }];
    assert_eq!(
        ObjectShape::from(ObjectShapeData::Polyline { points: points.clone() }),
        ObjectShape::Polyline { points: points.clone() }
    );
    assert_eq!(
        ObjectShape::from(ObjectShapeData::Polygon { points: points.clone() }),
        ObjectShape::Polygon { points }
    );
    assert_eq!(ObjectShape::from_resolved(None), ObjectShape::Unknown);
    assert_eq!(
        ObjectShape::from_resolved(Some(ObjectShapeData::Point { point: true })),
        ObjectShape::Point
    );
}

#[test]
fn points_are_read_from_their_records() {
    assert_eq!(
        Point::decode(&json("{\"x\": 1, \"y\": 2.5}")),
        Some(Point { x: number("1"), y: number("2.5") })
    );
    assert_eq!(Point::decode(&json("{\"x\": 1}")), None);
    assert_eq!(Point::decode(&json("{\"x\": 1, \"y\": \"2\"}")), None);
    assert_eq!(Point::decode(&json("[1, 2]")), None);
    assert_eq!(Point::decode_all(&json("{\"x\": 1, \"y\": 2}")), None);
    assert_eq!(Point::decode_all(&json("[]")), Some(Vec::new()));
}
