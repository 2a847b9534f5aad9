//! Objects: the free-standing things of an object layer.

use vstd::prelude::*;
use crate::color::{color_field, color_member, color_view, Color};
use crate::error::{Failure, TiledError};
use crate::json::{
    bool_member, each, items_data, json_data, lemma_each_fails, member, number_data,
    number_member, text_member, u32_member, JsonData, JsonNumber,
};
use crate::properties::{
    properties_field, properties_member, properties_view, Properties, PropertyView,
};
use crate::shape::{shape_of, ObjectShape, ShapeView};

verus! {

/// An object of an object layer.
#[derive(Debug, Clone)]
pub struct Object {
    /// Identifier of the object, unique within its map.
    pub id: u32,
    /// The name of the object: any string.
    pub name: String,
    /// The type of the object: any string.
    pub object_type: String,
    pub x: serde_json::Number,
    pub y: serde_json::Number,
    pub rotation: serde_json::Number,
    pub visible: bool,
    pub shape: ObjectShape,
    /// Custom properties.
    pub properties: Option<Properties>,
}

/// The objects of an object layer.
#[derive(Debug, Clone)]
pub struct ObjectGroup {
    pub objects: Vec<Object>,
    pub color: Option<Color>,
}

/// What an `Object` holds.
pub struct ObjectView {
    pub id: u32,
    pub name: Seq<char>,
    pub object_type: Seq<char>,
    pub x: JsonNumber,
    pub y: JsonNumber,
    pub rotation: JsonNumber,
    pub visible: bool,
    pub shape: ShapeView,
    pub properties: Option<Map<Seq<char>, PropertyView>>,
}

/// What an `ObjectGroup` holds.
pub struct ObjectGroupView {
    pub objects: Seq<ObjectView>,
    pub color: Option<Seq<u8>>,
}

impl View for Object {
    type V = ObjectView;

    open spec fn view(&self) -> ObjectView {
        ObjectView {
            id: self.id,
            name: self.name@,
            object_type: self.object_type@,
            x: number_data(self.x),
            y: number_data(self.y),
            rotation: number_data(self.rotation),
            visible: self.visible,
            shape: self.shape@,
            properties: properties_view(self.properties),
        }
    }
}

/// What a list of objects holds.
pub open spec fn objects_view(objects: Seq<Object>) -> Seq<ObjectView> {
    objects.map_values(|o: Object| o@)
}

impl View for ObjectGroup {
    type V = ObjectGroupView;

    open spec fn view(&self) -> ObjectGroupView {
        ObjectGroupView { objects: objects_view(self.objects@), color: color_view(self.color) }
    }
}

/// The object that a record spells: an integer `id`, strings `name` and
/// `type`, numbers `x`, `y` and `rotation`, a boolean `visible`; with the
/// shape that its other members spell, and its properties if any.
pub open spec fn object_of(record: JsonData) -> Result<ObjectView, Failure> {
    match (
        record.u32_field("id"@),
        record.text_field("name"@),
        record.text_field("type"@),
        record.number_field("x"@),
        record.number_field("y"@),
        record.number_field("rotation"@),
        record.bool_field("visible"@),
    ) {
        (Some(id), Some(name), Some(object_type), Some(x), Some(y), Some(rotation), Some(visible)) => Ok(
            ObjectView {
                id,
                name,
                object_type,
                x,
                y,
                rotation,
                visible,
                shape: shape_of(record),
                properties: properties_field(record),
            },
        ),
        _ => Err(Failure::Parsing),
    }
}

/// The objects that a value spells: an array of object records.
pub open spec fn objects_of(data: JsonData) -> Result<Seq<ObjectView>, Failure> {
    match data.as_items() {
        Some(records) => each(records, |record: JsonData| object_of(record)),
        None => Err(Failure::Parsing),
    }
}

/// The object group that a record spells: the objects under `objects`, and
/// where it is there a colour `color`.
pub open spec fn object_group_of(record: JsonData) -> Result<ObjectGroupView, Failure> {
    match record.field("objects"@) {
        None => Err(Failure::Parsing),
        Some(data) => match objects_of(data) {
            Err(failure) => Err(failure),
            Ok(objects) => match color_field(record, "color"@) {
                Ok(color) => Ok(ObjectGroupView { objects, color }),
                Err(failure) => Err(failure),
            },
        },
    }
}

impl Object {
    /// Reads an object from its record.
    pub fn decode(record: &serde_json::Value) -> (res: Result<Object, TiledError>)
        ensures
            match object_of(json_data(*record)) {
                Ok(object) => res matches Ok(found) && found@ == object,
                Err(failure) => res matches Err(e) && e@ == failure,
            },
    {
        match (
            u32_member(record, "id"),
            text_member(record, "name"),
            text_member(record, "type"),
            number_member(record, "x"),
            number_member(record, "y"),
            number_member(record, "rotation"),
            bool_member(record, "visible"),
        ) {
            (
                Some(id),
                Some(name),
                Some(object_type),
                Some(x),
                Some(y),
                Some(rotation),
                Some(visible),
            ) => Ok(
                Object {
                    id,
                    name,
                    object_type,
                    x,
                    y,
                    rotation,
                    visible,
                    shape: ObjectShape::decode(record),
                    properties: properties_member(record),
                },
            ),
            _ => Err(TiledError::unreadable("object")),
        }
    }

    /// Reads the objects of an array.
    pub fn decode_all(data: &serde_json::Value) -> (res: Result<Vec<Object>, TiledError>)
        ensures
            match objects_of(json_data(*data)) {
                Ok(objects) => res matches Ok(out) && objects_view(out@) == objects,
                Err(failure) => res matches Err(e) && e@ == failure,
            },
    {
        let records = match data.as_array() {
            Some(records) => records,
            None => { return Err(TiledError::unreadable("objects")); },
        };
        let ghost contents = items_data(records@);
        let ghost decode = |record: JsonData| object_of(record);
        let mut out: Vec<Object> = Vec::with_capacity(records.len());
        let mut i: usize = 0;
        assert(contents.take(0) =~= Seq::<JsonData>::empty());
        assert(objects_view(out@) =~= Seq::<ObjectView>::empty());
        while i < records.len()
            invariant
                i <= records.len(),
                contents == items_data(records@),
                decode == (|record: JsonData| object_of(record)),
                json_data(*data).as_items() == Some(contents),
                each(contents.take(i as int), decode) == Ok::<Seq<ObjectView>, Failure>(
                    objects_view(out@),
                ),
            decreases records.len() - i,
        {
            assert(contents[i as int] == json_data(records@[i as int]));
            assert(contents.take(i + 1).drop_last() =~= contents.take(i as int));
            assert(contents.take(i + 1).last() == contents[i as int]);
            let ghost before = out@;
            match Object::decode(&records[i]) {
                Ok(object) => {
                    out.push(object);
                    assert(objects_view(out@) =~= objects_view(before).push(object@));
                },
                Err(error) => {
                    proof {
                        lemma_each_fails(contents, decode, i + 1);
                    }
                    return Err(error);
                },
            }
            i = i + 1;
        }
        assert(contents.take(records.len() as int) =~= contents);
        Ok(out)
    }
}

impl ObjectGroup {
    /// Reads an object group from a layer's record.
    pub fn decode(record: &serde_json::Value) -> (res: Result<ObjectGroup, TiledError>)
        ensures
            match object_group_of(json_data(*record)) {
                Ok(group) => res matches Ok(found) && found@ == group,
                Err(failure) => res matches Err(e) && e@ == failure,
            },
    {
        let data = match member(record, "objects") {
            Some(data) => data,
            None => { return Err(TiledError::unreadable("object group")); },
        };
        let objects = match Object::decode_all(data) {
            Ok(objects) => objects,
            Err(error) => { return Err(error); },
        };
        match color_member(record, "color") {
            Ok(color) => Ok(ObjectGroup { objects, color }),
            Err(error) => Err(error),
        }
    }
}

} // verus!
