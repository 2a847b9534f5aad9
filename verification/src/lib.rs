//! Decoding of tile maps in the Tiled editor's JSON format into a typed model.
//!
//! The input is a parsed JSON tree. The decoders resolve the loosely typed
//! records of the format (tile layers, object shapes, custom properties,
//! colours) into closed variant types, and state in their contracts which
//! value each input gives.

pub mod color;
pub mod error;
pub mod json;
pub mod layer;
pub mod map;
pub mod object;
pub mod properties;
pub mod shape;
pub mod tiledata;
pub mod tileset;

pub use crate::color::Color;
pub use crate::error::TiledError;
pub use crate::layer::{ImageLayer, Layer, LayerType, TileLayer, TileLayerData};
pub use crate::map::{deserialize_version, parse, Orientation, TileMap};
pub use crate::object::{Object, ObjectGroup};
pub use crate::properties::{deserialize_properties, Properties, Property};
pub use crate::shape::{ObjectShape, ObjectShapeData, Point, Text};
pub use crate::tileset::{Frame, Tile, Tileset};
pub use crate::tiledata::{
    decode_base64_tiledata, decode_csv_tiledata, decode_gzip, decode_tiledata, decode_zlib,
    Compression, Encoding,
};
