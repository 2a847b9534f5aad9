//! The shapes of map objects.
//!
//! An object's record has no member that names its shape. The shape is read
//! from the members that are there, tried in a fixed order; a record that
//! fits none of them has the shape `Unknown`.

use vstd::prelude::*;
use crate::json::{
    bool_member, items_data, json_data, member, number_data, number_member,
    optional_text_member, optional_u32_member, text_member, text_view, JsonData, JsonNumber,
};

verus! {

/// A point of a polyline or polygon.
#[derive(Debug, PartialEq, Clone)]
pub struct Point {
    pub x: serde_json::Number,
    pub y: serde_json::Number,
}

/// The text of a text object.
#[derive(Debug, PartialEq, Clone)]
pub struct Text {
    text: String,
    wrap: bool,
    font_family: Option<String>,
    pixel_size: Option<u32>,
}

/// An object's shape as its record spells it, flags included.
#[derive(Debug, PartialEq, Clone)]
pub enum ObjectShapeData {
    Point { point: bool },
    Ellipse { ellipse: bool, width: serde_json::Number, height: serde_json::Number },
    Polyline { points: Vec<Point> },
    Polygon { points: Vec<Point> },
    Text { text: Text, width: serde_json::Number, height: serde_json::Number },
    Rect { width: serde_json::Number, height: serde_json::Number },
}

/// The shape of an object.
#[derive(Debug, PartialEq, Clone)]
pub enum ObjectShape {
    Point,
    Rect { width: serde_json::Number, height: serde_json::Number },
    Ellipse { width: serde_json::Number, height: serde_json::Number },
    Polyline { points: Vec<Point> },
    Polygon { points: Vec<Point> },
    Text { text: Text, width: serde_json::Number, height: serde_json::Number },
    Unknown,
}

/// What a `Point` holds.
pub struct PointView {
    pub x: JsonNumber,
    pub y: JsonNumber,
}

/// What a `Text` holds.
pub struct TextView {
    pub text: Seq<char>,
    pub wrap: bool,
    pub font_family: Option<Seq<char>>,
    pub pixel_size: Option<u32>,
}

/// What an `ObjectShapeData` holds.
pub enum ShapeDataView {
    Point { point: bool },
    Ellipse { ellipse: bool, width: JsonNumber, height: JsonNumber },
    Polyline { points: Seq<PointView> },
    Polygon { points: Seq<PointView> },
    Text { text: TextView, width: JsonNumber, height: JsonNumber },
    Rect { width: JsonNumber, height: JsonNumber },
}

/// What an `ObjectShape` holds.
pub enum ShapeView {
    Point,
    Rect { width: JsonNumber, height: JsonNumber },
    Ellipse { width: JsonNumber, height: JsonNumber },
    Polyline { points: Seq<PointView> },
    Polygon { points: Seq<PointView> },
    Text { text: TextView, width: JsonNumber, height: JsonNumber },
    Unknown,
}

impl View for Point {
    type V = PointView;

    open spec fn view(&self) -> PointView {
        PointView { x: number_data(self.x), y: number_data(self.y) }
    }
}

impl View for Text {
    type V = TextView;

    closed spec fn view(&self) -> TextView {
        TextView {
            text: self.text@,
            wrap: self.wrap,
            font_family: text_view(self.font_family),
            pixel_size: self.pixel_size,
        }
    }
}

/// What a list of points holds.
pub open spec fn points_view(points: Seq<Point>) -> Seq<PointView> {
    points.map_values(|p: Point| p@)
}

impl View for ObjectShapeData {
    type V = ShapeDataView;

    open spec fn view(&self) -> ShapeDataView {
        match self {
            ObjectShapeData::Point { point } => ShapeDataView::Point { point: *point },
            ObjectShapeData::Ellipse { ellipse, width, height } => ShapeDataView::Ellipse {
                ellipse: *ellipse,
                width: number_data(*width),
                height: number_data(*height),
            },
            ObjectShapeData::Polyline { points } => ShapeDataView::Polyline {
                points: points_view(points@),
            },
            ObjectShapeData::Polygon { points } => ShapeDataView::Polygon {
                points: points_view(points@),
            },
            ObjectShapeData::Text { text, width, height } => ShapeDataView::Text {
                text: text@,
                width: number_data(*width),
                height: number_data(*height),
            },
            ObjectShapeData::Rect { width, height } => ShapeDataView::Rect {
                width: number_data(*width),
                height: number_data(*height),
            },
        }
    }
}

impl View for ObjectShape {
    type V = ShapeView;

    open spec fn view(&self) -> ShapeView {
        match self {
            ObjectShape::Point => ShapeView::Point,
            ObjectShape::Rect { width, height } => ShapeView::Rect {
                width: number_data(*width),
                height: number_data(*height),
            },
            ObjectShape::Ellipse { width, height } => ShapeView::Ellipse {
                width: number_data(*width),
                height: number_data(*height),
            },
            ObjectShape::Polyline { points } => ShapeView::Polyline { points: points_view(points@) },
            ObjectShape::Polygon { points } => ShapeView::Polygon { points: points_view(points@) },
            ObjectShape::Text { text, width, height } => ShapeView::Text {
                text: text@,
                width: number_data(*width),
                height: number_data(*height),
            },
            ObjectShape::Unknown => ShapeView::Unknown,
        }
    }
}

impl ShapeDataView {
    /// The shape that a record's shape data stand for: the same, without
    /// the flags.
    pub open spec fn shape(self) -> ShapeView {
        match self {
            ShapeDataView::Point { point } => ShapeView::Point,
            ShapeDataView::Rect { width, height } => ShapeView::Rect { width, height },
            ShapeDataView::Ellipse { ellipse, width, height } => ShapeView::Ellipse { width, height },
            ShapeDataView::Polyline { points } => ShapeView::Polyline { points },
            ShapeDataView::Polygon { points } => ShapeView::Polygon { points },
            ShapeDataView::Text { text, width, height } => ShapeView::Text { text, width, height },
        }
    }
}

/// The point that a record spells: its members `x` and `y`, both numbers.
pub open spec fn point_of(record: JsonData) -> Option<PointView> {
    match (record.number_field("x"@), record.number_field("y"@)) {
        (Some(x), Some(y)) => Some(PointView { x, y }),
        _ => None,
    }
}

/// The points that an array spells, where every element spells one.
pub open spec fn points_of(data: JsonData) -> Option<Seq<PointView>> {
    match data.as_items() {
        Some(items) => if forall|i: int| 0 <= i < items.len() ==> (#[trigger] point_of(
            items[i],
        )) is Some {
            Some(items.map_values(|item: JsonData| point_of(item).unwrap()))
        } else {
            None
        },
        None => None,
    }
}

/// The points under `key`, where the member is there and spells points.
pub open spec fn points_field(record: JsonData, key: Seq<char>) -> Option<Seq<PointView>> {
    match record.field(key) {
        Some(data) => points_of(data),
        None => None,
    }
}

/// The text that a record spells: a string `text`, a boolean `wrap`, and
/// where they are there a string `fontfamily` and an integer `pixelsize`.
pub open spec fn text_of(record: JsonData) -> Option<TextView> {
    match (
        record.text_field("text"@),
        record.bool_field("wrap"@),
        record.optional_text_field("fontfamily"@),
        record.optional_u32_field("pixelsize"@),
    ) {
        (Some(text), Some(wrap), Some(font_family), Some(pixel_size)) => Some(
            TextView { text, wrap, font_family, pixel_size },
        ),
        _ => None,
    }
}

/// The text under `text`, where the member is there and spells one.
pub open spec fn text_record(record: JsonData) -> Option<TextView> {
    match record.field("text"@) {
        Some(data) => text_of(data),
        None => None,
    }
}

/// The numbers under `width` and `height`, where both are there.
pub open spec fn extent(record: JsonData) -> Option<(JsonNumber, JsonNumber)> {
    match (record.number_field("width"@), record.number_field("height"@)) {
        (Some(width), Some(height)) => Some((width, height)),
        _ => None,
    }
}

/// The shape data that an object's record spells. The forms are tried in
/// this order, and the first that fits is taken: a boolean `point`; a
/// boolean `ellipse` with an extent; points under `polyline`; points under
/// `polygon`; a text record with an extent; an extent alone.
pub open spec fn shape_data_of(record: JsonData) -> Option<ShapeDataView> {
    if let Some(point) = record.bool_field("point"@) {
        Some(ShapeDataView::Point { point })
    } else if record.bool_field("ellipse"@) is Some && extent(record) is Some {
        Some(
            ShapeDataView::Ellipse {
                ellipse: record.bool_field("ellipse"@).unwrap(),
                width: extent(record).unwrap().0,
                height: extent(record).unwrap().1,
            },
        )
    } else if let Some(points) = points_field(record, "polyline"@) {
        Some(ShapeDataView::Polyline { points })
    } else if let Some(points) = points_field(record, "polygon"@) {
        Some(ShapeDataView::Polygon { points })
    } else if text_record(record) is Some && extent(record) is Some {
        Some(
            ShapeDataView::Text {
                text: text_record(record).unwrap(),
                width: extent(record).unwrap().0,
                height: extent(record).unwrap().1,
            },
        )
    } else if let Some((width, height)) = extent(record) {
        Some(ShapeDataView::Rect { width, height })
    } else {
        None
    }
}

/// The shape of shape data that may be missing: `Unknown` where they are.
pub open spec fn shape_or_unknown(data: Option<ShapeDataView>) -> ShapeView {
    match data {
        Some(data) => data.shape(),
        None => ShapeView::Unknown,
    }
}

/// The shape that an object's record spells.
pub open spec fn shape_of(record: JsonData) -> ShapeView {
    shape_or_unknown(shape_data_of(record))
}

/// A record with a boolean `point` spells a point, whatever else it holds.
pub proof fn lemma_point_flag(record: JsonData)
    requires
        record.bool_field("point"@) is Some,
    ensures
        shape_of(record) == ShapeView::Point,
{
}

/// A record without any of the members that spell a shape, that is without
/// `point`, `ellipse`, `polyline`, `polygon` and `text` and without one of
/// `width` and `height`, has the shape `Unknown`.
pub proof fn lemma_unrecognized_shape(record: JsonData)
    requires
        record.field("point"@) is None,
        record.field("ellipse"@) is None,
        record.field("polyline"@) is None,
        record.field("polygon"@) is None,
        record.field("text"@) is None,
        record.field("width"@) is None || record.field("height"@) is None,
    ensures
        shape_of(record) == ShapeView::Unknown,
{
}

/// What optional shape data hold.
pub open spec fn shape_data_view(data: Option<ObjectShapeData>) -> Option<ShapeDataView> {
    match data {
        Some(data) => Some(data@),
        None => None,
    }
}

impl Point {
    /// Reads a point from its record.
    pub fn decode(record: &serde_json::Value) -> (res: Option<Point>)
        ensures
            match point_of(json_data(*record)) {
                Some(point) => res matches Some(p) && p@ == point,
                None => res is None,
            },
    {
        let x = match number_member(record, "x") {
            Some(x) => x,
            None => { return None; },
        };
        let y = match number_member(record, "y") {
            Some(y) => y,
            None => { return None; },
        };
        Some(Point { x, y })
    }

    /// Reads the points of an array.
    pub fn decode_all(data: &serde_json::Value) -> (res: Option<Vec<Point>>)
        ensures
            match points_of(json_data(*data)) {
                Some(points) => res matches Some(out) && points_view(out@) == points,
                None => res is None,
            },
    {
        let items = match data.as_array() {
            Some(items) => items,
            None => { return None; },
        };
        let ghost contents = items_data(items@);
        let mut out: Vec<Point> = Vec::with_capacity(items.len());
        let mut i: usize = 0;
        while i < items.len()
            invariant
                i <= items.len(),
                contents == items_data(items@),
                json_data(*data).as_items() == Some(contents),
                out@.len() == i,
                forall|j: int|
                    0 <= j < i ==> (#[trigger] point_of(contents[j])) == Some(out@[j]@),
            decreases items.len() - i,
        {
            assert(contents[i as int] == json_data(items@[i as int]));
            match Point::decode(&items[i]) {
                Some(point) => {
                    out.push(point);
                },
                None => {
                    assert(point_of(contents[i as int]) is None);
                    return None;
                },
            }
            i = i + 1;
        }
        assert(points_view(out@) =~= contents.map_values(|item: JsonData| point_of(item).unwrap()));
        Some(out)
    }
}

impl Text {
    /// Reads a text from its record.
    pub fn decode(record: &serde_json::Value) -> (res: Option<Text>)
        ensures
            match text_of(json_data(*record)) {
                Some(text) => res matches Some(t) && t@ == text,
                None => res is None,
            },
    {
        let text = match text_member(record, "text") {
            Some(text) => text,
            None => { return None; },
        };
        let wrap = match bool_member(record, "wrap") {
            Some(wrap) => wrap,
            None => { return None; },
        };
        let font_family = match optional_text_member(record, "fontfamily") {
            Some(font_family) => font_family,
            None => { return None; },
        };
        let pixel_size = match optional_u32_member(record, "pixelsize") {
            Some(pixel_size) => pixel_size,
            None => { return None; },
        };
        Some(Text { text, wrap, font_family, pixel_size })
    }

    /// The text itself.
    pub fn text(&self) -> (res: &str)
        ensures
            res@ == self@.text,
    {
        self.text.as_str()
    }

    /// Whether the text is wrapped within the object's extent.
    pub fn wrap(&self) -> (res: bool)
        ensures
            res == self@.wrap,
    {
        self.wrap
    }

    /// The font family, where the record names one.
    pub fn font_family(&self) -> (res: Option<&str>)
        ensures
            match self@.font_family {
                Some(name) => res matches Some(r) && r@ == name,
                None => res is None,
            },
    {
        match &self.font_family {
            Some(name) => Some(name.as_str()),
            None => None,
        }
    }

    /// The font size in pixels, where the record gives one.
    pub fn pixel_size(&self) -> (res: Option<u32>)
        ensures
            res == self@.pixel_size,
    {
        self.pixel_size
    }
}

/// The points under `key`.
fn points_member(record: &serde_json::Value, key: &str) -> (res: Option<Vec<Point>>)
    ensures
        match points_field(json_data(*record), key@) {
            Some(points) => res matches Some(out) && points_view(out@) == points,
            None => res is None,
        },
{
    match member(record, key) {
        Some(data) => Point::decode_all(data),
        None => None,
    }
}

/// The text under `text`.
fn text_record_member(record: &serde_json::Value) -> (res: Option<Text>)
    ensures
        match text_record(json_data(*record)) {
            Some(text) => res matches Some(t) && t@ == text,
            None => res is None,
        },
{
    match member(record, "text") {
        Some(data) => Text::decode(data),
        None => None,
    }
}

/// The numbers under `width` and `height`.
fn extent_members(record: &serde_json::Value) -> (res: Option<
    (serde_json::Number, serde_json::Number),
>)
    ensures
        match extent(json_data(*record)) {
            Some((width, height)) => res matches Some(found) && number_data(found.0) == width
                && number_data(found.1) == height,
            None => res is None,
        },
{
    let width = match number_member(record, "width") {
        Some(width) => width,
        None => { return None; },
    };
    let height = match number_member(record, "height") {
        Some(height) => height,
        None => { return None; },
    };
    Some((width, height))
}

impl ObjectShapeData {
    /// Reads the shape data of an object's record, and `None` where the
    /// record fits no known shape.
    pub fn resolve(record: &serde_json::Value) -> (res: Option<ObjectShapeData>)
        ensures
            shape_data_view(res) == shape_data_of(json_data(*record)),
    {
        if let Some(point) = bool_member(record, "point") {
            return Some(ObjectShapeData::Point { point });
        }
        let size = extent_members(record);
        if let Some(ellipse) = bool_member(record, "ellipse") {
            if let Some((width, height)) = size {
                return Some(ObjectShapeData::Ellipse { ellipse, width, height });
            }
        }
        if let Some(points) = points_member(record, "polyline") {
            return Some(ObjectShapeData::Polyline { points });
        }
        if let Some(points) = points_member(record, "polygon") {
            return Some(ObjectShapeData::Polygon { points });
        }
        if let Some(text) = text_record_member(record) {
            if let Some((width, height)) = size {
                return Some(ObjectShapeData::Text { text, width, height });
            }
        }
        match size {
            Some((width, height)) => Some(ObjectShapeData::Rect { width, height }),
            None => None,
        }
    }
}

impl ObjectShape {
    /// The shape of shape data: the same, without the flags.
    pub fn from(data: ObjectShapeData) -> (res: ObjectShape)
        ensures
            res@ == data@.shape(),
    {
        match data {
            ObjectShapeData::Point { point } => ObjectShape::Point,
            ObjectShapeData::Rect { width, height } => ObjectShape::Rect { width, height },
            ObjectShapeData::Ellipse { ellipse, width, height } => ObjectShape::Ellipse {
                width,
                height,
            },
            ObjectShapeData::Polyline { points } => ObjectShape::Polyline { points },
            ObjectShapeData::Polygon { points } => ObjectShape::Polygon { points },
            ObjectShapeData::Text { text, width, height } => ObjectShape::Text {
                text,
                width,
                height,
            },
        }
    }

    /// The shape of shape data that may be missing: `Unknown` where the
    /// record fitted no known shape.
    pub fn from_resolved(data: Option<ObjectShapeData>) -> (res: ObjectShape)
        ensures
            res@ == shape_or_unknown(shape_data_view(data)),
    {
        match data {
            Some(data) => ObjectShape::from(data),
            None => ObjectShape::Unknown,
        }
    }

    /// Reads the shape of an object's record. This never fails: a record
    /// that fits no known shape has the shape `Unknown`.
    pub fn decode(record: &serde_json::Value) -> (res: ObjectShape)
        ensures
            res@ == shape_of(json_data(*record)),
    {
        ObjectShape::from_resolved(ObjectShapeData::resolve(record))
    }
}

} // verus!
