//! The map itself, and reading one from its JSON text.

use vstd::prelude::*;
use crate::color::{color_field, color_member, color_view, Color};
use crate::error::{Failure, TiledError};
use crate::json::{
    each, is_text, items_data, json_data, json_parsed, lemma_each_fails, member, number_data,
    number_member, number_text, print_number, read_json, text_member, u32_member, JsonData,
};
use crate::layer::{layer_of, layers_view, Layer, LayerView};
use crate::properties::{
    properties_field, properties_member, properties_view, Properties, PropertyView,
};
use crate::tileset::{tilesets_of, tilesets_view, Tileset, TilesetView};

verus! {

/// How the tiles of a map are laid out.
#[derive(Debug, PartialEq, Eq, Copy, Clone)]
pub enum Orientation {
    Orthogonal,
    Isometric,
    Staggered,
    Hexagonal,
}

/// A tile map.
#[derive(Debug, Clone)]
pub struct TileMap {
    /// Version of the file format.
    pub version: String,
    pub orientation: Orientation,
    /// Number of tile columns.
    pub width: u32,
    /// Number of tile rows.
    pub height: u32,
    /// Width of a cell of the map's grid.
    pub tile_width: u32,
    /// Height of a cell of the map's grid.
    pub tile_height: u32,
    pub tilesets: Vec<Tileset>,
    pub layers: Vec<Layer>,
    pub background_colour: Option<Color>,
    /// Custom properties.
    pub properties: Option<Properties>,
}

/// What a `TileMap` holds.
pub struct TileMapView {
    pub version: Seq<char>,
    pub orientation: Orientation,
    pub width: u32,
    pub height: u32,
    pub tile_width: u32,
    pub tile_height: u32,
    pub tilesets: Seq<TilesetView>,
    pub layers: Seq<LayerView>,
    pub background_colour: Option<Seq<u8>>,
    pub properties: Option<Map<Seq<char>, PropertyView>>,
}

impl View for TileMap {
    type V = TileMapView;

    open spec fn view(&self) -> TileMapView {
        TileMapView {
            version: self.version@,
            orientation: self.orientation,
            width: self.width,
            height: self.height,
            tile_width: self.tile_width,
            tile_height: self.tile_height,
            tilesets: tilesets_view(self.tilesets@),
            layers: layers_view(self.layers@),
            background_colour: color_view(self.background_colour),
            properties: properties_view(self.properties),
        }
    }
}

/// The orientation that a tag names.
pub open spec fn orientation_of(tag: Seq<char>) -> Option<Orientation> {
    if tag == "orthogonal"@ {
        Some(Orientation::Orthogonal)
    } else if tag == "isometric"@ {
        Some(Orientation::Isometric)
    } else if tag == "staggered"@ {
        Some(Orientation::Staggered)
    } else if tag == "hexagonal"@ {
        Some(Orientation::Hexagonal)
    } else {
        None
    }
}

/// The orientation under `orientation`.
pub open spec fn orientation_field(record: JsonData) -> Option<Orientation> {
    match record.text_field("orientation"@) {
        Some(tag) => orientation_of(tag),
        None => None,
    }
}

/// The version under `version`: a number, by its decimal text.
pub open spec fn version_field(record: JsonData) -> Option<Seq<char>> {
    match record.number_field("version"@) {
        Some(number) => Some(number_text(number)),
        None => None,
    }
}

/// The tilesets under `tilesets`.
pub open spec fn tilesets_field(record: JsonData) -> Result<Seq<TilesetView>, Failure> {
    match record.field("tilesets"@) {
        Some(data) => tilesets_of(data),
        None => Err(Failure::Parsing),
    }
}

/// The layers that a value spells: an array of layer records.
pub open spec fn layers_of(data: JsonData) -> Result<Seq<LayerView>, Failure> {
    match data.as_items() {
        Some(records) => each(records, |record: JsonData| layer_of(record)),
        None => Err(Failure::Parsing),
    }
}

/// The layers under `layers`.
pub open spec fn layers_field(record: JsonData) -> Result<Seq<LayerView>, Failure> {
    match record.field("layers"@) {
        Some(data) => layers_of(data),
        None => Err(Failure::Parsing),
    }
}

/// The map that a record spells: a number `version`, an orientation,
/// integers `width`, `height`, `tilewidth` and `tileheight`; then its
/// tilesets, its layers, a colour `backgroundcolor` where it is there, and
/// its properties if any. The first part that fails is the map's failure.
pub open spec fn map_of(record: JsonData) -> Result<TileMapView, Failure> {
    match (
        version_field(record),
        orientation_field(record),
        record.u32_field("width"@),
        record.u32_field("height"@),
        record.u32_field("tilewidth"@),
        record.u32_field("tileheight"@),
    ) {
        (
            Some(version),
            Some(orientation),
            Some(width),
            Some(height),
            Some(tile_width),
            Some(tile_height),
        ) => match tilesets_field(record) {
            Err(failure) => Err(failure),
            Ok(tilesets) => match layers_field(record) {
                Err(failure) => Err(failure),
                Ok(layers) => match color_field(record, "backgroundcolor"@) {
                    Err(failure) => Err(failure),
                    Ok(background_colour) => Ok(
                        TileMapView {
                            version,
                            orientation,
                            width,
                            height,
                            tile_width,
                            tile_height,
                            tilesets,
                            layers,
                            background_colour,
                            properties: properties_field(record),
                        },
                    ),
                },
            },
        },
        _ => Err(Failure::Parsing),
    }
}

/// The map that a JSON text spells.
pub open spec fn parsed_map(text: Seq<u8>) -> Result<TileMapView, Failure> {
    match json_parsed(text) {
        Some(tree) => map_of(tree),
        None => Err(Failure::Parsing),
    }
}

/// The version of the map format as a text: the decimal text of the number
/// that the map gives. No version is refused.
pub fn deserialize_version(version: &serde_json::Number) -> (res: String)
    ensures
        res@ == number_text(number_data(*version)),
{
    print_number(version)
}

impl Orientation {
    /// The orientation that a tag names.
    pub fn from_tag(tag: &str) -> (res: Option<Orientation>)
        ensures
            res == orientation_of(tag@),
    {
        if is_text(tag, "orthogonal") {
            Some(Orientation::Orthogonal)
        } else if is_text(tag, "isometric") {
            Some(Orientation::Isometric)
        } else if is_text(tag, "staggered") {
            Some(Orientation::Staggered)
        } else if is_text(tag, "hexagonal") {
            Some(Orientation::Hexagonal)
        } else {
            None
        }
    }
}

/// Reads the orientation under `orientation`.
fn orientation_member(record: &serde_json::Value) -> (res: Option<Orientation>)
    ensures
        res == orientation_field(json_data(*record)),
{
    match text_member(record, "orientation") {
        Some(tag) => Orientation::from_tag(tag.as_str()),
        None => None,
    }
}

/// Reads the version under `version`.
fn version_member(record: &serde_json::Value) -> (res: Option<String>)
    ensures
        match version_field(json_data(*record)) {
            Some(version) => res matches Some(found) && found@ == version,
            None => res is None,
        },
{
    match number_member(record, "version") {
        Some(number) => Some(deserialize_version(&number)),
        None => None,
    }
}

/// Reads the tilesets under `tilesets`.
fn tilesets_member(record: &serde_json::Value) -> (res: Result<Vec<Tileset>, TiledError>)
    ensures
        match tilesets_field(json_data(*record)) {
            Ok(tilesets) => res matches Ok(out) && tilesets_view(out@) == tilesets,
            Err(failure) => res matches Err(e) && e@ == failure,
        },
{
    match member(record, "tilesets") {
        Some(data) => Tileset::decode_all(data),
        None => Err(TiledError::unreadable("map")),
    }
}

/// Reads the layers of an array.
fn decode_layers(data: &serde_json::Value) -> (res: Result<Vec<Layer>, TiledError>)
    ensures
        match layers_of(json_data(*data)) {
            Ok(layers) => res matches Ok(out) && layers_view(out@) == layers,
            Err(failure) => res matches Err(e) && e@ == failure,
        },
{
    let records = match data.as_array() {
        Some(records) => records,
        None => { return Err(TiledError::unreadable("layers")); },
    };
    let ghost contents = items_data(records@);
    let ghost decode = |record: JsonData| layer_of(record);
    let mut out: Vec<Layer> = Vec::with_capacity(records.len());
    let mut i: usize = 0;
    assert(contents.take(0) =~= Seq::<JsonData>::empty());
    assert(layers_view(out@) =~= Seq::<LayerView>::empty());
    while i < records.len()
        invariant
            i <= records.len(),
            contents == items_data(records@),
            decode == (|record: JsonData| layer_of(record)),
            json_data(*data).as_items() == Some(contents),
            each(contents.take(i as int), decode) == Ok::<Seq<LayerView>, Failure>(
                layers_view(out@),
            ),
        decreases records.len() - i,
    {
        assert(contents[i as int] == json_data(records@[i as int]));
        assert(contents.take(i + 1).drop_last() =~= contents.take(i as int));
        assert(contents.take(i + 1).last() == contents[i as int]);
        let ghost before = out@;
        match Layer::decode(&records[i]) {
            Ok(layer) => {
                out.push(layer);
                assert(layers_view(out@) =~= layers_view(before).push(layer@));
            },
            Err(error) => {
                proof {
                    lemma_each_fails(contents, decode, i + 1);
                }
                return Err(error);
            },
        }
        i = i + 1;
    }
    assert(contents.take(records.len() as int) =~= contents);
    Ok(out)
}

/// Reads the layers under `layers`.
fn layers_member(record: &serde_json::Value) -> (res: Result<Vec<Layer>, TiledError>)
    ensures
        match layers_field(json_data(*record)) {
            Ok(layers) => res matches Ok(out) && layers_view(out@) == layers,
            Err(failure) => res matches Err(e) && e@ == failure,
        },
{
    match member(record, "layers") {
        Some(data) => decode_layers(data),
        None => Err(TiledError::unreadable("map")),
    }
}

impl TileMap {
    /// Reads a map from its record. There is no partial map: the first part
    /// that fails is the failure of the whole.
    pub fn decode(record: &serde_json::Value) -> (res: Result<TileMap, TiledError>)
        ensures
            match map_of(json_data(*record)) {
                Ok(map) => res matches Ok(found) && found@ == map,
                Err(failure) => res matches Err(e) && e@ == failure,
            },
    {
        match (
            version_member(record),
            orientation_member(record),
            u32_member(record, "width"),
            u32_member(record, "height"),
            u32_member(record, "tilewidth"),
            u32_member(record, "tileheight"),
        ) {
            (
                Some(version),
                Some(orientation),
                Some(width),
                Some(height),
                Some(tile_width),
                Some(tile_height),
            ) => {
                let tilesets = match tilesets_member(record) {
                    Ok(tilesets) => tilesets,
                    Err(error) => { return Err(error); },
                };
                let layers = match layers_member(record) {
                    Ok(layers) => layers,
                    Err(error) => { return Err(error); },
                };
                let background_colour = match color_member(record, "backgroundcolor") {
                    Ok(colour) => colour,
                    Err(error) => { return Err(error); },
                };
                Ok(
                    TileMap {
                        version,
                        orientation,
                        width,
                        height,
                        tile_width,
                        tile_height,
                        tilesets,
                        layers,
                        background_colour,
                        properties: properties_member(record),
                    },
                )
            },
            _ => Err(TiledError::unreadable("map")),
        }
    }
}

/// Reads a map from its JSON text.
pub fn parse(text: &[u8]) -> (res: Result<TileMap, TiledError>)
    ensures
        match parsed_map(text@) {
            Ok(map) => res matches Ok(found) && found@ == map,
            Err(failure) => res matches Err(e) && e@ == failure,
        },
{
    match read_json(text) {
        Ok(tree) => TileMap::decode(&tree),
        Err(cause) => Err(TiledError::ParsingError(cause)),
    }
}

} // verus!
