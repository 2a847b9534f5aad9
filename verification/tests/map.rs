use std::io::Write;

use serde_json::{Number, Value};
use tiled_json::{
    parse, Color, Frame, ImageLayer, Layer, LayerType, Object, ObjectGroup, ObjectShape,
    Orientation, Property, Tile, TileLayer, TileLayerData, TileMap, TiledError, Tileset,
};
use tiled_json::{Compression, Encoding};

fn json(text: &str) -> Value {
    serde_json::from_str(text).unwrap()
}

fn number(text: &str) -> Number {
    serde_json::from_str(text).unwrap()
}

fn le_bytes(tiles: &[u32]) -> Vec<u8> {
    let mut bytes = Vec::new();
    for tile in tiles {
        bytes.extend_from_slice(&tile.to_le_bytes());
    }
    bytes
}

fn zlib_base64(tiles: &[u32]) -> String {
    let mut encoder = libflate::zlib::Encoder::new(Vec::new()).unwrap();
    encoder.write_all(&le_bytes(tiles)).unwrap();
    base64::encode(encoder.finish().into_result().unwrap())
}

const GROUND: [u32; 6] = [1, 2, 3, 4, 5, 6];
const ROOFS: [u32; 6] = [0, 0, 7, 7, 0, 2147483655];

fn tile_layer(name: &str, tiles: &[u32], base64: bool) -> String {
    let data = if base64 {
        format!("\"encoding\": \"base64\", \"compression\": \"zlib\", \"data\": \"{}\"", zlib_base64(tiles))
    } else {
        let numbers: Vec<String> = tiles.iter().map(|tile| tile.to_string()).collect();
        format!("\"encoding\": \"csv\", \"data\": [{}]", numbers.join(","))
    };
    format!(
        "{{\"type\": \"tilelayer\", \"name\": \"{}\", \"opacity\": 1, \"visible\": true,
           \"width\": 3, \"height\": 2, \"x\": 0, \"y\": 0, {}}}",
        name, data
    )
}

fn map_text(base64: bool) -> String {
    format!(
        "{{
          \"version\": 1.2, \"tiledversion\": \"1.2.1\", \"type\": \"map\",
          \"orientation\": \"orthogonal\", \"renderorder\": \"right-down\",
          \"width\": 3, \"height\": 2, \"tilewidth\": 16, \"tileheight\": 16,
          \"backgroundcolor\": \"#102030\",
          \"tilesets\": [
            {{\"firstgid\": 1, \"name\": \"terrain\", \"tilewidth\": 16, \"tileheight\": 16,
              \"spacing\": 1, \"margin\": 2, \"image\": \"terrain.png\",
              \"tiles\": [{{\"id\": 0}}, {{\"id\": 5, \"type\": \"water\"}}]}},
            {{\"firstgid\": 65, \"name\": \"items\", \"tilewidth\": 8, \"tileheight\": 8,
              \"spacing\": 0, \"margin\": 0, \"image\": \"items.png\"}}
          ],
          \"layers\": [
            {},
            {{\"type\": \"objectgroup\", \"name\": \"things\", \"opacity\": 0.5, \"visible\": false,
              \"color\": \"#80ff0000\",
              \"objects\": [
                {{\"id\": 1, \"name\": \"spawn\", \"type\": \"marker\", \"x\": 8, \"y\": 8.5,
                  \"rotation\": 0, \"visible\": true, \"point\": true,
                  \"properties\": [{{\"name\": \"team\", \"type\": \"string\", \"value\": \"red\"}}]}},
                {{\"id\": 2, \"name\": \"pond\", \"type\": \"\", \"x\": 1, \"y\": 2,
                  \"rotation\": 45, \"visible\": true, \"ellipse\": true, \"width\": 10, \"height\": 6}},
                {{\"id\": 3, \"name\": \"odd\", \"type\": \"\", \"x\": 1, \"y\": 2,
                  \"rotation\": 0, \"visible\": true, \"template\": \"odd.tx\"}}
              ]}},
            {},
            {{\"type\": \"imagelayer\", \"name\": \"sky\", \"opacity\": 1, \"visible\": true,
              \"offsetx\": 0, \"offsety\": -4.5, \"image\": \"sky.png\",
              \"transparentcolor\": \"#ff00ff\",
              \"properties\": [{{\"name\": \"speed\", \"type\": \"float\", \"value\": 0.25}}]}}
          ],
          \"properties\": [
            {{\"name\": \"pi\", \"type\": \"float\", \"value\": 3.14}},
            {{\"name\": \"answer\", \"type\": \"int\", \"value\": 42}}
          ]
        }}",
        tile_layer("ground", &GROUND, base64),
        tile_layer("roofs", &ROOFS, base64),
    )
}

fn parse_file(base64: bool) -> Result<TileMap, TiledError> {
    parse(map_text(base64).as_bytes())
}

#[test]
fn test_objects() {
    let map = parse_file(true).unwrap();

    // Map should contain non-empty object layer.
    map.layers
        .iter()
        .find(|layer| match &layer.data {
            LayerType::ObjectGroup(group) => !group.objects.is_empty(),
            _ => false,
        })
        .unwrap();
}

#[allow(clippy::approx_constant)]
#[test]
fn test_properties() {
    let map = parse_file(true).unwrap();

    // Map should contain properties.
    let properties = map.properties.unwrap();

    assert_eq!(properties.get("pi").unwrap(), &Property::Float(number("3.14")));
    assert_eq!(properties.get("answer").unwrap(), &Property::Int(42));
}

#[test]
fn test_encodings() {
    let a = parse_file(true).unwrap();
    let b = parse_file(false).unwrap();

    assert_eq!(a.layers.len(), b.layers.len());

    let mut compared = 0;
    for i in 0..a.layers.len() {
        if let (LayerType::TileLayer(a), LayerType::TileLayer(b)) =
            (&a.layers[i].data, &b.layers[i].data)
        {
            assert_eq!(&a.tiles()[..], &b.tiles()[..]);
            compared += 1;
        }
    }
    assert_eq!(compared, 2);
}

#[test]
fn a_map_is_read_whole() {
    let map = parse_file(true).unwrap();
    assert_eq!(map.version, "1.2");
    assert_eq!(map.orientation, Orientation::Orthogonal);
    assert_eq!((map.width, map.height), (3, 2));
    assert_eq!((map.tile_width, map.tile_height), (16, 16));
    assert_eq!(map.background_colour, Some(Color::from_str("#102030").unwrap()));

    assert_eq!(map.tilesets.len(), 2);
    assert_eq!(
        map.tilesets[0],
        Tileset {
            first_gid: 1,
            name: "terrain".to_string(),
            tile_width: 16,
            tile_height: 16,
            spacing: 1,
            margin: 2,
            image: "terrain.png".to_string(),
            tiles: Some(vec![Tile { id: 0 }, Tile { id: 5 }]),
        }
    );
    assert_eq!(map.tilesets[1].first_gid, 65);
    assert_eq!(map.tilesets[1].tiles, None);

    assert_eq!(map.layers.len(), 4);
    let names: Vec<&str> = map.layers.iter().map(|layer| layer.name.as_str()).collect();
    assert_eq!(names, vec!["ground", "things", "roofs", "sky"]);

    match &map.layers[0].data {
        LayerType::TileLayer(layer) => {
            assert_eq!((layer.width(), layer.height()), (3, 2));
            assert_eq!(layer.tiles(), &GROUND[..]);
        }
        other => panic!("unexpected layer: {:?}", other),
    }
    assert_eq!(map.layers[0].opacity, number("1"));
    assert!(map.layers[0].visible);
    assert!(map.layers[0].properties.is_none());

    match &map.layers[1].data {
        LayerType::ObjectGroup(group) => {
            assert_eq!(group.color, Some(Color::from_str("#80ff0000").unwrap()));
            assert_eq!(group.objects.len(), 3);
            let spawn = &group.objects[0];
            assert_eq!(spawn.id, 1);
            assert_eq!(spawn.name, "spawn");
            assert_eq!(spawn.object_type, "marker");
            assert_eq!(spawn.x, number("8"));
            assert_eq!(spawn.y, number("8.5"));
            assert_eq!(spawn.rotation, number("0"));
            assert!(spawn.visible);
            assert_eq!(spawn.shape, ObjectShape::Point);
            assert_eq!(
                spawn.properties.as_ref().unwrap().get("team"),
                Some(&Property::String("red".to_string()))
            );
            assert_eq!(
                group.objects[1].shape,
                ObjectShape::Ellipse { width: number("10"), height: number("6") }
            );
            assert!(group.objects[1].properties.is_none());
            assert_eq!(group.objects[2].shape, ObjectShape::Unknown);
        }
        other => panic!("unexpected layer: {:?}", other),
    }
    assert_eq!(map.layers[1].opacity, number("0.5"));
    assert!(!map.layers[1].visible);

    match &map.layers[3].data {
        LayerType::ImageLayer(layer) => {
            assert_eq!(
                layer,
                &ImageLayer {
                    offset_x: number("0"),
                    offset_y: number("-4.5"),
                    transparent_color: Some(Color::from_str("ff00ff").unwrap()),
                    image: "sky.png".to_string(),
                }
            );
        }
        other => panic!("unexpected layer: {:?}", other),
    }
    assert_eq!(
        map.layers[3].properties.as_ref().unwrap().get("speed"),
        Some(&Property::Float(number("0.25")))
    );
}

#[test]
fn a_map_from_its_record_is_the_map_from_its_text() {
    let text = map_text(false);
    let from_record = TileMap::decode(&json(&text)).unwrap();
    let from_text = parse(text.as_bytes()).unwrap();
    assert_eq!(format!("{:?}", from_record), format!("{:?}", from_text));
}

#[test]
fn a_version_may_be_an_integer() {
    let text = map_text(false).replace("\"version\": 1.2", "\"version\": 1");
    assert_eq!(parse(text.as_bytes()).unwrap().version, "1");
}

#[test]
fn what_is_no_json_is_a_parsing_error() {
    for text in ["", "{", "{\"version\": 1.2,}", "nul", "\u{feff}{}"] {
        assert!(matches!(parse(text.as_bytes()), Err(TiledError::ParsingError(_))));
    }
    assert!(matches!(parse(&[0xff, 0xfe, 0x00]), Err(TiledError::ParsingError(_))));
}

#[test]
fn a_map_that_lacks_a_member_is_a_parsing_error() {
    let whole = map_text(false);
    assert!(parse(whole.as_bytes()).is_ok());
    for (from, to) in [
        ("\"version\": 1.2", "\"version\": \"1.2\""),
        ("\"version\": 1.2,", ""),
        ("\"orientation\": \"orthogonal\"", "\"orientation\": \"diagonal\""),
        ("\"orientation\": \"orthogonal\"", "\"orientation\": \"Orthogonal\""),
        ("\"width\": 3, \"height\": 2, \"tilewidth\"", "\"width\": -3, \"height\": 2, \"tilewidth\""),
        ("\"tilewidth\": 16, \"tileheight\": 16,\n          \"backgroundcolor\"", "\"tilewidth\": 16, \"backgroundcolor\""),
        ("\"tilesets\": [", "\"tilesetz\": ["),
        ("\"layers\": [", "\"layerz\": ["),
        ("\"firstgid\": 65", "\"firstgid\": 65.5"),
        ("{\"id\": 0}", "{\"id\": \"0\"}"),
        ("\"name\": \"spawn\",", ""),
        ("\"rotation\": 45", "\"rotation\": \"45\""),
        ("\"offsety\": -4.5,", ""),
        ("\"name\": \"things\",", ""),
        ("\"type\": \"imagelayer\",", ""),
        ("\"encoding\": \"csv\"", "\"encoding\": \"xml\""),
        ("\"encoding\": \"csv\"", "\"encoding\": \"csv\", \"compression\": \"\""),
        ("\"backgroundcolor\": \"#102030\"", "\"backgroundcolor\": 1056816"),
    ] {
        let broken = whole.replacen(from, to, 1);
        assert_ne!(broken, whole);
        assert!(matches!(parse(broken.as_bytes()), Err(TiledError::ParsingError(_))));
    }
    for text in ["[]", "null", "1.2", "{}"] {
        assert!(matches!(parse(text.as_bytes()), Err(TiledError::ParsingError(_))));
    }
}

#[test]
fn a_failure_inside_a_layer_fails_the_map() {
    let whole = map_text(true);
    let data = zlib_base64(&ROOFS);

    let broken = whole.replacen(&data, "!!!!", 1);
    assert!(matches!(parse(broken.as_bytes()), Err(TiledError::Base64DecodingError(_))));

    let broken = whole.replacen(&data, "AQAAAAIAAAA=", 1);
    assert!(matches!(parse(broken.as_bytes()), Err(TiledError::DecompressingError(_))));

    let broken = whole.replacen(&format!("\"{}\"", data), "[0, 0, 7, 7, 0, 7]", 1);
    match parse(broken.as_bytes()) {
        Err(TiledError::Other(message)) => assert_eq!(message, "Improperly formatted data"),
        other => panic!("unexpected result: {:?}", other.map(|_| ())),
    }

    let broken = whole.replacen("\"transparentcolor\": \"#ff00ff\"", "\"transparentcolor\": \"pink\"", 1);
    match parse(broken.as_bytes()) {
        Err(TiledError::Other(message)) => assert_eq!(message, "Invalid color value \"pink\""),
        other => panic!("unexpected result: {:?}", other.map(|_| ())),
    }
}

#[test]
fn an_unknown_kind_of_layer_is_an_error_of_form() {
    let record = json("{\"type\": \"group\", \"name\": \"g\", \"opacity\": 1, \"visible\": true}");
    match LayerType::decode(&record) {
        Err(TiledError::Other(message)) => assert_eq!(message, "Unknown layer type \"group\""),
        other => panic!("unexpected result: {:?}", other),
    }
    match Layer::decode(&record) {
        Err(error) => assert_eq!(error.message(), "Unknown layer type \"group\""),
        Ok(layer) => panic!("unexpected layer: {:?}", layer),
    }
    assert!(matches!(LayerType::decode(&json("{\"type\": 1}")), Err(TiledError::ParsingError(_))));
    assert!(matches!(LayerType::decode(&json("{}")), Err(TiledError::ParsingError(_))));
    assert!(matches!(
        LayerType::decode(&json("{\"type\": \"TileLayer\"}")),
        Err(TiledError::Other(_))
    ));
}

#[test]
fn properties_that_are_malformed_are_left_out() {
    let whole = map_text(false);
    let broken = whole.replacen("\"type\": \"int\", \"value\": 42", "\"type\": \"int\", \"value\": 4.2", 1);
    let map = parse(broken.as_bytes()).unwrap();
    assert!(map.properties.is_none());
    let broken = whole.replacen("\"properties\": [\n            {\"name\": \"pi\"", "\"props\": [\n            {\"name\": \"pi\"", 1);
    assert_ne!(broken, whole);
    assert!(parse(broken.as_bytes()).unwrap().properties.is_none());
}

#[test]
fn tile_layer_data_are_read_from_the_record() {
    let record = json(
        "{\"width\": 2, \"height\": 1, \"data\": \"AQAAAAIAAAA=\", \"encoding\": \"base64\",
          \"compression\": null}",
    );
    let data = TileLayerData::decode(&record).unwrap();
    assert_eq!(
        data,
        TileLayerData {
            width: 2,
            height: 1,
            data: json("\"AQAAAAIAAAA=\""),
            compression: None,
            encoding: Some(Encoding::Base64),
        }
    );
    let layer = TileLayer::from(data).unwrap();
    assert_eq!(layer.tiles(), &[1, 2][..]);

    let record = json("{\"width\": 2, \"height\": 1, \"data\": [1, 2], \"compression\": \"gzip\"}");
    let data = TileLayerData::decode(&record).unwrap();
    assert_eq!(data.compression, Some(Compression::Gzip));
    assert_eq!(data.encoding, None);
    assert_eq!(TileLayer::from(data).unwrap().tiles(), &[1, 2][..]);

    for text in [
        "{\"height\": 1, \"data\": [1, 2]}",
        "{\"width\": 2, \"data\": [1, 2]}",
        "{\"width\": 2, \"height\": 1}",
        "{\"width\": 4294967296, \"height\": 1, \"data\": [1, 2]}",
        "{\"width\": 2, \"height\": 1, \"data\": [1, 2], \"encoding\": 64}",
        "{\"width\": 2, \"height\": 1, \"data\": [1, 2], \"compression\": \"zip\"}",
    ] {
        assert!(matches!(TileLayerData::decode(&json(text)), Err(TiledError::ParsingError(_))));
        assert!(matches!(TileLayer::decode(&json(text)), Err(TiledError::ParsingError(_))));
    }
}

#[test]
fn a_tile_is_found_by_column_and_row() {
    let data = TileLayerData {
        width: 3,
        height: 2,
        data: json("[10, 11, 12, 20, 21, 22]"),
        compression: None,
        encoding: None,
    };
    let layer = TileLayer::from(data).unwrap();
    assert_eq!(layer.get_tile(0, 0), 10);
    assert_eq!(layer.get_tile(2, 0), 12);
    assert_eq!(layer.get_tile(0, 1), 20);
    assert_eq!(layer.get_tile(1, 1), 21);
    assert_eq!(layer.get_tile(2, 1), 22);
    for y in 0..2u32 {
        for x in 0..3u32 {
            assert_eq!(layer.get_tile(x, y), layer.tiles()[(x + y * layer.width()) as usize]);
        }
    }
}

#[test]
fn a_tile_layer_keeps_the_tiles_that_the_data_hold() {
    let data = TileLayerData {
        width: 3,
        height: 2,
        data: json("[10, 11]"),
        compression: None,
        encoding: Some(Encoding::Csv),
    };
    let layer = TileLayer::from(data).unwrap();
    assert_eq!((layer.width(), layer.height()), (3, 2));
    assert_eq!(layer.tiles(), &[10, 11][..]);
}

#[test]
fn tilesets_tiles_and_frames_are_read_from_their_records() {
    assert_eq!(Tile::decode(&json("{\"id\": 7}")).unwrap(), Tile { id: 7 });
    assert!(matches!(Tile::decode(&json("{\"id\": -7}")), Err(TiledError::ParsingError(_))));
    assert!(matches!(Tile::decode_all(&json("{\"id\": 7}")), Err(TiledError::ParsingError(_))));
    assert_eq!(
        Tile::decode_all(&json("[{\"id\": 7}, {\"id\": 8}]")).unwrap(),
        vec![Tile { id: 7 }, Tile { id: 8 }]
    );
    assert!(matches!(
        Tile::decode_all(&json("[{\"id\": 7}, {\"uid\": 8}]")),
        Err(TiledError::ParsingError(_))
    ));

    let frame = Frame::decode(&json("{\"tile_id\": 3, \"duration\": 100}")).unwrap();
    assert_eq!((frame.tile_id(), frame.duration()), (3, 100));
    assert!(matches!(
        Frame::decode(&json("{\"tileid\": 3, \"duration\": 100}")),
        Err(TiledError::ParsingError(_))
    ));

    let record = "{\"firstgid\": 1, \"name\": \"t\", \"tilewidth\": 16, \"tileheight\": 8,
        \"spacing\": 0, \"margin\": 0, \"image\": \"t.png\", \"tiles\": null}";
    let tileset = Tileset::decode(&json(record)).unwrap();
    assert_eq!((tileset.tile_width, tileset.tile_height), (16, 8));
    assert_eq!(tileset.tiles, None);
    assert!(matches!(
        Tileset::decode(&json(&record.replace("null", "[1]"))),
        Err(TiledError::ParsingError(_))
    ));
    assert!(matches!(
        Tileset::decode_all(&json(&format!("[{}, 5]", record))),
        Err(TiledError::ParsingError(_))
    ));
    assert_eq!(Tileset::decode_all(&json(&format!("[{}, {}]", record, record))).unwrap().len(), 2);
}

#[test]
fn every_orientation_has_its_tag() {
    for (tag, orientation) in [
        ("orthogonal", Orientation::Orthogonal),
        ("isometric", Orientation::Isometric),
        ("staggered", Orientation::Staggered),
        ("hexagonal", Orientation::Hexagonal),
    ] {
        assert_eq!(Orientation::from_tag(tag), Some(orientation));
    }
    assert_eq!(Orientation::from_tag(""), None);
    assert_eq!(Orientation::from_tag("Orthogonal"), None);
}

#[test]
fn objects_and_groups_are_read_from_their_records() {
    let record = "{\"id\": 4, \"name\": \"n\", \"type\": \"t\", \"x\": 1, \"y\": 2, \"rotation\": 3,
        \"visible\": false, \"width\": 5, \"height\": 6}";
    let object = Object::decode(&json(record)).unwrap();
    assert_eq!(object.id, 4);
    assert_eq!(object.shape, ObjectShape::Rect { width: number("5"), height: number("6") });
    assert!(!object.visible);
    assert!(matches!(
        Object::decode(&json(&record.replace("\"id\": 4", "\"id\": null"))),
        Err(TiledError::ParsingError(_))
    ));

    let group = ObjectGroup::decode(&json(&format!("{{\"objects\": [{}]}}", record))).unwrap();
    assert_eq!(group.objects.len(), 1);
    assert_eq!(group.color, None);
    assert!(matches!(ObjectGroup::decode(&json("{}")), Err(TiledError::ParsingError(_))));
    assert!(matches!(
        ObjectGroup::decode(&json("{\"objects\": {}}")),
        Err(TiledError::ParsingError(_))
    ));
    assert!(matches!(
        ObjectGroup::decode(&json(&format!("{{\"objects\": [{}, 1]}}", record))),
        Err(TiledError::ParsingError(_))
    ));
    assert!(matches!(
        ObjectGroup::decode(&json("{\"objects\": [], \"color\": \"#12\"}")),
        Err(TiledError::Other(_))
    ));
}

#[test]
fn an_error_describes_itself() {
    assert_eq!(TiledError::malformed("bad").message(), "bad");
    assert_eq!(TiledError::Other("worse".to_string()).message(), "worse");
    let cause = base64::decode("!").unwrap_err();
    assert_eq!(TiledError::Base64DecodingError(cause.clone()).message(), cause.to_string());
    let cause = serde_json::from_str::<Value>("{").unwrap_err();
    let text = cause.to_string();
    assert_eq!(TiledError::ParsingError(cause).message(), text);
    let cause = std::io::Error::new(std::io::ErrorKind::InvalidData, "broken stream");
    assert_eq!(TiledError::DecompressingError(cause).message(), "broken stream");
    assert_eq!(TiledError::unreadable("tileset").message(), "tileset");
    assert_eq!(TiledError::unreadable("").message(), "");
    assert_eq!(TiledError::unreadable("a layer at line").message(), "a layer at line");
    match TiledError::unreadable("image layer") {
        TiledError::ParsingError(cause) => assert_eq!(cause.to_string(), "image layer"),
        other => panic!("unexpected kind of error: {:?}", other),
    }
}
