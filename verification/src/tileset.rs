//! Tilesets: the sheets of tile images that a map draws from.

use vstd::prelude::*;
use crate::error::{Failure, TiledError};
use crate::json::{
    each, items_data, json_data, lemma_each_fails, member, text_member, u32_member, JsonData,
};

verus! {

/// One frame of a tile animation.
#[derive(Debug, PartialEq, Clone)]
pub struct Frame {
    tile_id: u32,
    duration: u32,
}

/// A tile that its tileset says more about.
#[derive(Debug, PartialEq, Clone)]
pub struct Tile {
    /// Local identifier of the tile within its tileset.
    pub id: u32,
}

/// A tileset, usually one sheet of tile images.
#[derive(Debug, PartialEq, Clone)]
pub struct Tileset {
    /// Global identifier of the first tile of the set.
    pub first_gid: u32,
    /// Name of the tileset.
    pub name: String,
    /// Largest width of a tile of the set.
    pub tile_width: u32,
    /// Largest height of a tile of the set.
    pub tile_height: u32,
    /// Pixels between neighbouring tiles in the image.
    pub spacing: u32,
    /// Pixels between the image's edge and the first tile.
    pub margin: u32,
    /// The image that holds the tiles.
    pub image: String,
    /// The tiles that the set says more about.
    pub tiles: Option<Vec<Tile>>,
}

/// What a `Frame` holds.
pub struct FrameView {
    pub tile_id: u32,
    pub duration: u32,
}

/// What a `Tileset` holds.
pub struct TilesetView {
    pub first_gid: u32,
    pub name: Seq<char>,
    pub tile_width: u32,
    pub tile_height: u32,
    pub spacing: u32,
    pub margin: u32,
    pub image: Seq<char>,
    pub tiles: Option<Seq<Tile>>,
}

impl View for Frame {
    type V = FrameView;

    closed spec fn view(&self) -> FrameView {
        FrameView { tile_id: self.tile_id, duration: self.duration }
    }
}

impl View for Tileset {
    type V = TilesetView;

    open spec fn view(&self) -> TilesetView {
        TilesetView {
            first_gid: self.first_gid,
            name: self.name@,
            tile_width: self.tile_width,
            tile_height: self.tile_height,
            spacing: self.spacing,
            margin: self.margin,
            image: self.image@,
            tiles: match self.tiles {
                Some(tiles) => Some(tiles@),
                None => None,
            },
        }
    }
}

/// What a list of tilesets holds.
pub open spec fn tilesets_view(tilesets: Seq<Tileset>) -> Seq<TilesetView> {
    tilesets.map_values(|t: Tileset| t@)
}

/// The frame that a record spells: integers `tile_id` and `duration`.
pub open spec fn frame_of(record: JsonData) -> Result<FrameView, Failure> {
    match (record.u32_field("tile_id"@), record.u32_field("duration"@)) {
        (Some(tile_id), Some(duration)) => Ok(FrameView { tile_id, duration }),
        _ => Err(Failure::Parsing),
    }
}

/// The tile that a record spells: an integer `id`.
pub open spec fn tile_of(record: JsonData) -> Result<Tile, Failure> {
    match record.u32_field("id"@) {
        Some(id) => Ok(Tile { id }),
        None => Err(Failure::Parsing),
    }
}

/// The tiles that a value spells: an array of tile records.
pub open spec fn tiles_of(data: JsonData) -> Result<Seq<Tile>, Failure> {
    match data.as_items() {
        Some(records) => each(records, |record: JsonData| tile_of(record)),
        None => Err(Failure::Parsing),
    }
}

/// The tiles under `tiles`, which a record may leave out or set to null.
pub open spec fn tiles_field(record: JsonData) -> Result<Option<Seq<Tile>>, Failure> {
    match record.field("tiles"@) {
        None | Some(JsonData::Null) => Ok(None),
        Some(data) => match tiles_of(data) {
            Ok(tiles) => Ok(Some(tiles)),
            Err(failure) => Err(failure),
        },
    }
}

/// The tileset that a record spells: integers `firstgid`, `tilewidth`,
/// `tileheight`, `spacing` and `margin`, strings `name` and `image`, and
/// where they are there the tiles under `tiles`.
pub open spec fn tileset_of(record: JsonData) -> Result<TilesetView, Failure> {
    match (
        record.u32_field("firstgid"@),
        record.text_field("name"@),
        record.u32_field("tilewidth"@),
        record.u32_field("tileheight"@),
        record.u32_field("spacing"@),
        record.u32_field("margin"@),
        record.text_field("image"@),
        tiles_field(record),
    ) {
        (
            Some(first_gid),
            Some(name),
            Some(tile_width),
            Some(tile_height),
            Some(spacing),
            Some(margin),
            Some(image),
            Ok(tiles),
        ) => Ok(
            TilesetView { first_gid, name, tile_width, tile_height, spacing, margin, image, tiles },
        ),
        _ => Err(Failure::Parsing),
    }
}

/// The tilesets that a value spells: an array of tileset records.
pub open spec fn tilesets_of(data: JsonData) -> Result<Seq<TilesetView>, Failure> {
    match data.as_items() {
        Some(records) => each(records, |record: JsonData| tileset_of(record)),
        None => Err(Failure::Parsing),
    }
}

impl Frame {
    /// Reads a frame from its record.
    pub fn decode(record: &serde_json::Value) -> (res: Result<Frame, TiledError>)
        ensures
            match frame_of(json_data(*record)) {
                Ok(frame) => res matches Ok(f) && f@ == frame,
                Err(failure) => res matches Err(e) && e@ == failure,
            },
    {
        match (u32_member(record, "tile_id"), u32_member(record, "duration")) {
            (Some(tile_id), Some(duration)) => Ok(Frame { tile_id, duration }),
            _ => Err(TiledError::unreadable("frame")),
        }
    }

    /// Local identifier of the tile that the frame shows.
    pub fn tile_id(&self) -> (res: u32)
        ensures
            res == self@.tile_id,
    {
        self.tile_id
    }

    /// How long the frame is shown, in milliseconds.
    pub fn duration(&self) -> (res: u32)
        ensures
            res == self@.duration,
    {
        self.duration
    }
}

impl Tile {
    /// Reads a tile from its record.
    pub fn decode(record: &serde_json::Value) -> (res: Result<Tile, TiledError>)
        ensures
            match tile_of(json_data(*record)) {
                Ok(tile) => res == Ok::<Tile, TiledError>(tile),
                Err(failure) => res matches Err(e) && e@ == failure,
            },
    {
        match u32_member(record, "id") {
            Some(id) => Ok(Tile { id }),
            None => Err(TiledError::unreadable("tile")),
        }
    }

    /// Reads the tiles of an array.
    pub fn decode_all(data: &serde_json::Value) -> (res: Result<Vec<Tile>, TiledError>)
        ensures
            match tiles_of(json_data(*data)) {
                Ok(tiles) => res matches Ok(out) && out@ == tiles,
                Err(failure) => res matches Err(e) && e@ == failure,
            },
    {
        let records = match data.as_array() {
            Some(records) => records,
            None => { return Err(TiledError::unreadable("tiles")); },
        };
        let ghost contents = items_data(records@);
        let ghost decode = |record: JsonData| tile_of(record);
        let mut out: Vec<Tile> = Vec::with_capacity(records.len());
        let mut i: usize = 0;
        assert(contents.take(0) =~= Seq::<JsonData>::empty());
        while i < records.len()
            invariant
                i <= records.len(),
                contents == items_data(records@),
                decode == (|record: JsonData| tile_of(record)),
                json_data(*data).as_items() == Some(contents),
                each(contents.take(i as int), decode) == Ok::<Seq<Tile>, Failure>(out@),
            decreases records.len() - i,
        {
            assert(contents[i as int] == json_data(records@[i as int]));
            assert(contents.take(i + 1).drop_last() =~= contents.take(i as int));
            assert(contents.take(i + 1).last() == contents[i as int]);
            match Tile::decode(&records[i]) {
                Ok(tile) => {
                    out.push(tile);
                },
                Err(error) => {
                    proof {
                        lemma_each_fails(contents, decode, i + 1);
                    }
                    return Err(error);
                },
            }
            i = i + 1;
        }
        assert(contents.take(records.len() as int) =~= contents);
        Ok(out)
    }
}

/// The tiles under `tiles`.
fn tiles_member(record: &serde_json::Value) -> (res: Result<Option<Vec<Tile>>, TiledError>)
    ensures
        match tiles_field(json_data(*record)) {
            Ok(Some(tiles)) => res matches Ok(Some(out)) && out@ == tiles,
            Ok(None) => res matches Ok(None),
            Err(failure) => res matches Err(e) && e@ == failure,
        },
{
    match member(record, "tiles") {
        None => Ok(None),
        Some(data) => {
            if data.is_null() {
                Ok(None)
            } else {
                match Tile::decode_all(data) {
                    Ok(tiles) => Ok(Some(tiles)),
                    Err(error) => Err(error),
                }
            }
        },
    }
}

impl Tileset {
    /// Reads a tileset from its record.
    pub fn decode(record: &serde_json::Value) -> (res: Result<Tileset, TiledError>)
        ensures
            match tileset_of(json_data(*record)) {
                Ok(tileset) => res matches Ok(t) && t@ == tileset,
                Err(failure) => res matches Err(e) && e@ == failure,
            },
    {
        match (
            u32_member(record, "firstgid"),
            text_member(record, "name"),
            u32_member(record, "tilewidth"),
            u32_member(record, "tileheight"),
            u32_member(record, "spacing"),
            u32_member(record, "margin"),
            text_member(record, "image"),
            tiles_member(record),
        ) {
            (
                Some(first_gid),
                Some(name),
                Some(tile_width),
                Some(tile_height),
                Some(spacing),
                Some(margin),
                Some(image),
                Ok(tiles),
            ) => Ok(
                Tileset { first_gid, name, tile_width, tile_height, spacing, margin, image, tiles },
            ),
            _ => Err(TiledError::unreadable("tileset")),
        }
    }

    /// Reads the tilesets of an array.
    pub fn decode_all(data: &serde_json::Value) -> (res: Result<Vec<Tileset>, TiledError>)
        ensures
            match tilesets_of(json_data(*data)) {
                Ok(tilesets) => res matches Ok(out) && tilesets_view(out@) == tilesets,
                Err(failure) => res matches Err(e) && e@ == failure,
            },
    {
        let records = match data.as_array() {
            Some(records) => records,
            None => { return Err(TiledError::unreadable("tilesets")); },
        };
        let ghost contents = items_data(records@);
        let ghost decode = |record: JsonData| tileset_of(record);
        let mut out: Vec<Tileset> = Vec::with_capacity(records.len());
        let mut i: usize = 0;
        assert(contents.take(0) =~= Seq::<JsonData>::empty());
        assert(tilesets_view(out@) =~= Seq::<TilesetView>::empty());
        while i < records.len()
            invariant
                i <= records.len(),
                contents == items_data(records@),
                decode == (|record: JsonData| tileset_of(record)),
                json_data(*data).as_items() == Some(contents),
                each(contents.take(i as int), decode) == Ok::<Seq<TilesetView>, Failure>(
                    tilesets_view(out@),
                ),
            decreases records.len() - i,
        {
            assert(contents[i as int] == json_data(records@[i as int]));
            assert(contents.take(i + 1).drop_last() =~= contents.take(i as int));
            assert(contents.take(i + 1).last() == contents[i as int]);
            let ghost before = out@;
            match Tileset::decode(&records[i]) {
                Ok(tileset) => {
                    out.push(tileset);
                    assert(tilesets_view(out@) =~= tilesets_view(before).push(tileset@));
                },
                Err(error) => {
                    proof {
                        lemma_each_fails(contents, decode, i + 1);
                    }
                    return Err(error);
                },
            }
            i = i + 1;
        }
        assert(contents.take(records.len() as int) =~= contents);
        Ok(out)
    }
}

} // verus!
