//! Layers: tile layers, image layers and groups of objects.
//!
//! A layer's record names its kind under `type`. The kind decides which
//! other members the record must have.

use vstd::prelude::*;
use crate::color::{color_field, color_member, color_view, Color};
use crate::error::{debug_text, quoted, Failure, TiledError};
use crate::json::{
    bool_member, is_text, json_data, member, number_data, number_member, text_member,
    u32_member, JsonData, JsonNumber,
};
use crate::object::{object_group_of, ObjectGroup, ObjectGroupView};
use crate::properties::{
    properties_field, properties_member, properties_view, Properties, PropertyView,
};
use crate::tiledata::{decode_tiledata, decoded_tiles, Compression, Encoding};

verus! {

/// A tile layer as its record spells it, with the tile data still encoded.
#[derive(Debug, PartialEq, Clone)]
pub struct TileLayerData {
    /// Column count.
    pub width: u32,
    /// Row count.
    pub height: u32,
    /// The tile data: an array or a string, as the encoding has it.
    pub data: serde_json::Value,
    pub compression: Option<Compression>,
    pub encoding: Option<Encoding>,
}

/// A layer of tiles.
#[derive(Debug, PartialEq, Clone)]
pub struct TileLayer {
    width: u32,
    height: u32,
    tiles: Vec<u32>,
}

/// A layer that shows one image.
#[derive(Debug, PartialEq, Clone)]
pub struct ImageLayer {
    pub offset_x: serde_json::Number,
    pub offset_y: serde_json::Number,
    pub transparent_color: Option<Color>,
    pub image: String,
}

/// What a layer holds, by its kind.
#[derive(Debug, Clone)]
pub enum LayerType {
    TileLayer(TileLayer),
    ImageLayer(ImageLayer),
    ObjectGroup(ObjectGroup),
}

/// A layer of a map.
#[derive(Debug, Clone)]
pub struct Layer {
    /// The name of the layer.
    pub name: String,
    /// The opacity of the layer, from 0 to 1.
    pub opacity: serde_json::Number,
    /// Whether the layer is shown.
    pub visible: bool,
    /// What the layer holds.
    pub data: LayerType,
    /// Custom properties.
    pub properties: Option<Properties>,
}

/// What a `TileLayerData` holds.
pub struct TileLayerDataView {
    pub width: u32,
    pub height: u32,
    pub data: JsonData,
    pub compression: Option<Compression>,
    pub encoding: Option<Encoding>,
}

/// What a `TileLayer` holds: the tiles row by row, the tile in column `x`
/// of row `y` at `x + y * width`.
pub struct TileLayerView {
    pub width: u32,
    pub height: u32,
    pub tiles: Seq<u32>,
}

/// What an `ImageLayer` holds.
pub struct ImageLayerView {
    pub offset_x: JsonNumber,
    pub offset_y: JsonNumber,
    pub transparent_color: Option<Seq<u8>>,
    pub image: Seq<char>,
}

/// What a `LayerType` holds.
pub enum LayerTypeView {
    TileLayer(TileLayerView),
    ImageLayer(ImageLayerView),
    ObjectGroup(ObjectGroupView),
}

/// What a `Layer` holds.
pub struct LayerView {
    pub name: Seq<char>,
    pub opacity: JsonNumber,
    pub visible: bool,
    pub data: LayerTypeView,
    pub properties: Option<Map<Seq<char>, PropertyView>>,
}

impl View for TileLayerData {
    type V = TileLayerDataView;

    open spec fn view(&self) -> TileLayerDataView {
        TileLayerDataView {
            width: self.width,
            height: self.height,
            data: json_data(self.data),
            compression: self.compression,
            encoding: self.encoding,
        }
    }
}

impl View for TileLayer {
    type V = TileLayerView;

    closed spec fn view(&self) -> TileLayerView {
        TileLayerView { width: self.width, height: self.height, tiles: self.tiles@ }
    }
}

impl View for ImageLayer {
    type V = ImageLayerView;

    open spec fn view(&self) -> ImageLayerView {
        ImageLayerView {
            offset_x: number_data(self.offset_x),
            offset_y: number_data(self.offset_y),
            transparent_color: color_view(self.transparent_color),
            image: self.image@,
        }
    }
}

impl View for LayerType {
    type V = LayerTypeView;

    open spec fn view(&self) -> LayerTypeView {
        match self {
            LayerType::TileLayer(layer) => LayerTypeView::TileLayer(layer@),
            LayerType::ImageLayer(layer) => LayerTypeView::ImageLayer(layer@),
            LayerType::ObjectGroup(group) => LayerTypeView::ObjectGroup(group@),
        }
    }
}

impl View for Layer {
    type V = LayerView;

    open spec fn view(&self) -> LayerView {
        LayerView {
            name: self.name@,
            opacity: number_data(self.opacity),
            visible: self.visible,
            data: self.data@,
            properties: properties_view(self.properties),
        }
    }
}

/// What a list of layers holds.
pub open spec fn layers_view(layers: Seq<Layer>) -> Seq<LayerView> {
    layers.map_values(|l: Layer| l@)
}

/// The compression that a tag names.
pub open spec fn compression_of(tag: Seq<char>) -> Option<Compression> {
    if tag == "zlib"@ {
        Some(Compression::Zlib)
    } else if tag == "gzip"@ {
        Some(Compression::Gzip)
    } else {
        None
    }
}

/// The encoding that a tag names.
pub open spec fn encoding_of(tag: Seq<char>) -> Option<Encoding> {
    if tag == "csv"@ {
        Some(Encoding::Csv)
    } else if tag == "base64"@ {
        Some(Encoding::Base64)
    } else {
        None
    }
}

/// The compression under `compression`, which a record may leave out or set
/// to null: `Some(None)` where it does, and `None` where the member names no
/// compression.
pub open spec fn compression_field(record: JsonData) -> Option<Option<Compression>> {
    match record.field("compression"@) {
        None | Some(JsonData::Null) => Some(None),
        Some(JsonData::Text(tag)) => match compression_of(tag) {
            Some(compression) => Some(Some(compression)),
            None => None,
        },
        Some(_) => None,
    }
}

/// The encoding under `encoding`, which a record may leave out or set to
/// null: `Some(None)` where it does, and `None` where the member names no
/// encoding.
pub open spec fn encoding_field(record: JsonData) -> Option<Option<Encoding>> {
    match record.field("encoding"@) {
        None | Some(JsonData::Null) => Some(None),
        Some(JsonData::Text(tag)) => match encoding_of(tag) {
            Some(encoding) => Some(Some(encoding)),
            None => None,
        },
        Some(_) => None,
    }
}

/// The tile layer data that a record spells: integers `width` and `height`,
/// any value under `data`, and where they are there a compression and an
/// encoding.
pub open spec fn tile_layer_data_of(record: JsonData) -> Result<TileLayerDataView, Failure> {
    match (
        record.u32_field("width"@),
        record.u32_field("height"@),
        record.field("data"@),
        compression_field(record),
        encoding_field(record),
    ) {
        (Some(width), Some(height), Some(data), Some(compression), Some(encoding)) => Ok(
            TileLayerDataView { width, height, data, compression, encoding },
        ),
        _ => Err(Failure::Parsing),
    }
}

/// The tile layer that tile layer data stand for: the same extent, with the
/// tiles decoded. The number of tiles is whatever the data hold.
pub open spec fn tile_layer_from(layer_data: TileLayerDataView) -> Result<TileLayerView, Failure> {
    match decoded_tiles(layer_data.data, layer_data.encoding, layer_data.compression) {
        Ok(tiles) => Ok(
            TileLayerView { width: layer_data.width, height: layer_data.height, tiles },
        ),
        Err(failure) => Err(failure),
    }
}

/// The tile layer that a record spells.
pub open spec fn tile_layer_of(record: JsonData) -> Result<TileLayerView, Failure> {
    match tile_layer_data_of(record) {
        Ok(layer_data) => tile_layer_from(layer_data),
        Err(failure) => Err(failure),
    }
}

/// The image layer that a record spells: numbers `offsetx` and `offsety`, a
/// string `image`, and where it is there a colour `transparentcolor`.
pub open spec fn image_layer_of(record: JsonData) -> Result<ImageLayerView, Failure> {
    match (
        record.number_field("offsetx"@),
        record.number_field("offsety"@),
        record.text_field("image"@),
    ) {
        (Some(offset_x), Some(offset_y), Some(image)) => match color_field(
            record,
            "transparentcolor"@,
        ) {
            Ok(transparent_color) => Ok(
                ImageLayerView { offset_x, offset_y, transparent_color, image },
            ),
            Err(failure) => Err(failure),
        },
        _ => Err(Failure::Parsing),
    }
}

/// The message for a layer whose kind is not known.
pub open spec fn unknown_layer(tag: Seq<char>) -> Seq<char> {
    "Unknown layer type "@ + quoted(tag)
}

/// What a layer's record holds by its kind. The string under `type` names
/// the kind: `tilelayer`, `imagelayer` or `objectgroup`. A record without
/// it is unreadable; any other kind is an error of form.
pub open spec fn layer_type_of(record: JsonData) -> Result<LayerTypeView, Failure> {
    match record.text_field("type"@) {
        None => Err(Failure::Parsing),
        Some(tag) => if tag == "tilelayer"@ {
            match tile_layer_of(record) {
                Ok(layer) => Ok(LayerTypeView::TileLayer(layer)),
                Err(failure) => Err(failure),
            }
        } else if tag == "imagelayer"@ {
            match image_layer_of(record) {
                Ok(layer) => Ok(LayerTypeView::ImageLayer(layer)),
                Err(failure) => Err(failure),
            }
        } else if tag == "objectgroup"@ {
            match object_group_of(record) {
                Ok(group) => Ok(LayerTypeView::ObjectGroup(group)),
                Err(failure) => Err(failure),
            }
        } else {
            Err(Failure::Other(unknown_layer(tag)))
        },
    }
}

/// The layer that a record spells: a string `name`, a number `opacity`, a
/// boolean `visible`, what its kind asks for, and its properties if any.
pub open spec fn layer_of(record: JsonData) -> Result<LayerView, Failure> {
    match (
        record.text_field("name"@),
        record.number_field("opacity"@),
        record.bool_field("visible"@),
    ) {
        (Some(name), Some(opacity), Some(visible)) => match layer_type_of(record) {
            Ok(data) => Ok(
                LayerView { name, opacity, visible, data, properties: properties_field(record) },
            ),
            Err(failure) => Err(failure),
        },
        _ => Err(Failure::Parsing),
    }
}

/// Reads the compression under `compression`.
fn compression_member(record: &serde_json::Value) -> (res: Option<Option<Compression>>)
    ensures
        res == compression_field(json_data(*record)),
{
    match member(record, "compression") {
        None => Some(None),
        Some(value) => {
            if value.is_null() {
                Some(None)
            } else {
                match value.as_str() {
                    Some(tag) => {
                        if is_text(tag, "zlib") {
                            Some(Some(Compression::Zlib))
                        } else if is_text(tag, "gzip") {
                            Some(Some(Compression::Gzip))
                        } else {
                            None
                        }
                    },
                    None => None,
                }
            }
        },
    }
}

/// Reads the encoding under `encoding`.
fn encoding_member(record: &serde_json::Value) -> (res: Option<Option<Encoding>>)
    ensures
        res == encoding_field(json_data(*record)),
{
    match member(record, "encoding") {
        None => Some(None),
        Some(value) => {
            if value.is_null() {
                Some(None)
            } else {
                match value.as_str() {
                    Some(tag) => {
                        if is_text(tag, "csv") {
                            Some(Some(Encoding::Csv))
                        } else if is_text(tag, "base64") {
                            Some(Some(Encoding::Base64))
                        } else {
                            None
                        }
                    },
                    None => None,
                }
            }
        },
    }
}

impl TileLayerData {
    /// Reads tile layer data from a layer's record.
    pub fn decode(record: &serde_json::Value) -> (res: Result<TileLayerData, TiledError>)
        ensures
            match tile_layer_data_of(json_data(*record)) {
                Ok(layer_data) => res matches Ok(found) && found@ == layer_data,
                Err(failure) => res matches Err(e) && e@ == failure,
            },
    {
        match (
            u32_member(record, "width"),
            u32_member(record, "height"),
            member(record, "data"),
            compression_member(record),
            encoding_member(record),
        ) {
            (Some(width), Some(height), Some(data), Some(compression), Some(encoding)) => Ok(
                TileLayerData { width, height, data: data.clone(), compression, encoding },
            ),
            _ => Err(TiledError::unreadable("tile layer")),
        }
    }
}

impl TileLayer {
    /// Decodes the tiles of tile layer data.
    pub fn from(layer_data: TileLayerData) -> (res: Result<TileLayer, TiledError>)
        ensures
            match tile_layer_from(layer_data@) {
                Ok(layer) => res matches Ok(found) && found@ == layer,
                Err(failure) => res matches Err(e) && e@ == failure,
            },
    {
        let width = layer_data.width;
        let height = layer_data.height;
        match decode_tiledata(
            layer_data.data,
            width,
            height,
            layer_data.encoding,
            layer_data.compression,
        ) {
            Ok(tiles) => Ok(TileLayer { width, height, tiles }),
            Err(error) => Err(error),
        }
    }

    /// Reads a tile layer from a layer's record.
    pub fn decode(record: &serde_json::Value) -> (res: Result<TileLayer, TiledError>)
        ensures
            match tile_layer_of(json_data(*record)) {
                Ok(layer) => res matches Ok(found) && found@ == layer,
                Err(failure) => res matches Err(e) && e@ == failure,
            },
    {
        match TileLayerData::decode(record) {
            Ok(layer_data) => TileLayer::from(layer_data),
            Err(error) => Err(error),
        }
    }

    /// Column count.
    pub fn width(&self) -> (res: u32)
        ensures
            res == self@.width,
    {
        self.width
    }

    /// Row count.
    pub fn height(&self) -> (res: u32)
        ensures
            res == self@.height,
    {
        self.height
    }

    /// The tiles, row by row.
    pub fn tiles(&self) -> (res: &[u32])
        ensures
            res@ == self@.tiles,
    {
        self.tiles.as_slice()
    }

    /// The tile in column `x` of row `y`.
    pub fn get_tile(&self, x: u32, y: u32) -> (res: u32)
        requires
            x + y * self@.width < self@.tiles.len(),
        ensures
            res == self@.tiles[x + y * self@.width],
    {
        assert(y * self.width <= 0xffff_ffff * 0xffff_ffff) by (nonlinear_arith)
            requires
                y <= 0xffff_ffff,
                self.width <= 0xffff_ffff,
        ;
        let count: usize = self.tiles.len();
        let index: u64 = x as u64 + y as u64 * self.width as u64;
        assert(index == x + y * self@.width);
        assert(index < count);
        self.tiles[index as usize]
    }
}

impl ImageLayer {
    /// Reads an image layer from a layer's record.
    pub fn decode(record: &serde_json::Value) -> (res: Result<ImageLayer, TiledError>)
        ensures
            match image_layer_of(json_data(*record)) {
                Ok(layer) => res matches Ok(found) && found@ == layer,
                Err(failure) => res matches Err(e) && e@ == failure,
            },
    {
        match (
            number_member(record, "offsetx"),
            number_member(record, "offsety"),
            text_member(record, "image"),
        ) {
            (Some(offset_x), Some(offset_y), Some(image)) => match color_member(
                record,
                "transparentcolor",
            ) {
                Ok(transparent_color) => Ok(
                    ImageLayer { offset_x, offset_y, transparent_color, image },
                ),
                Err(error) => Err(error),
            },
            _ => Err(TiledError::unreadable("image layer")),
        }
    }
}

/// The error for a layer whose kind is not known.
fn unknown_kind(tag: &str) -> (res: TiledError)
    ensures
        res@ == Failure::Other(unknown_layer(tag@)),
{
    let text = debug_text(tag);
    TiledError::Other("Unknown layer type ".to_owned().concat(text.as_str()))
}

impl LayerType {
    /// Reads what a layer holds from its record, by the kind under `type`.
    pub fn decode(record: &serde_json::Value) -> (res: Result<LayerType, TiledError>)
        ensures
            match layer_type_of(json_data(*record)) {
                Ok(data) => res matches Ok(found) && found@ == data,
                Err(failure) => res matches Err(e) && e@ == failure,
            },
    {
        let tag = match text_member(record, "type") {
            Some(tag) => tag,
            None => { return Err(TiledError::unreadable("layer")); },
        };
        if is_text(tag.as_str(), "tilelayer") {
            match TileLayer::decode(record) {
                Ok(layer) => Ok(LayerType::TileLayer(layer)),
                Err(error) => Err(error),
            }
        } else if is_text(tag.as_str(), "imagelayer") {
            match ImageLayer::decode(record) {
                Ok(layer) => Ok(LayerType::ImageLayer(layer)),
                Err(error) => Err(error),
            }
        } else if is_text(tag.as_str(), "objectgroup") {
            match ObjectGroup::decode(record) {
                Ok(group) => Ok(LayerType::ObjectGroup(group)),
                Err(error) => Err(error),
            }
        } else {
            Err(unknown_kind(tag.as_str()))
        }
    }
}

impl Layer {
    /// Reads a layer from its record.
    pub fn decode(record: &serde_json::Value) -> (res: Result<Layer, TiledError>)
        ensures
            match layer_of(json_data(*record)) {
                Ok(layer) => res matches Ok(found) && found@ == layer,
                Err(failure) => res matches Err(e) && e@ == failure,
            },
    {
        match (
            text_member(record, "name"),
            number_member(record, "opacity"),
            bool_member(record, "visible"),
        ) {
            (Some(name), Some(opacity), Some(visible)) => match LayerType::decode(record) {
                Ok(data) => Ok(
                    Layer { name, opacity, visible, data, properties: properties_member(record) },
                ),
                Err(error) => Err(error),
            },
            _ => Err(TiledError::unreadable("layer")),
        }
    }
}

} // verus!
