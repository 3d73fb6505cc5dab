use remouillage::database::font::{default_typeset, TTFont};
use remouillage::database::images::ImageLoadInfo;
use remouillage::database::json::{AtlasJSON, AtlasSlicing, DatabaseJSON, ImageJSON, TTFJSON};
use remouillage::database::Database;
use remouillage::error::Error;

fn sample_font() -> TTFont {
    TTFont {
        width: 1280,
        height: 1024,
        pixels: vec![7u8; 4],
        typeset: vec!['a', 'b'],
    }
}

#[test]
fn root_with_only_images_yields_one_unloaded_entry() {
    let root = DatabaseJSON::from_json_str(r#"{"image_cfg": "images.json"}"#).unwrap();
    assert_eq!(root.image_cfg.as_deref(), Some("images.json"));
    assert!(root.atlas_cfg.is_none());
    assert!(root.ttf_cfg.is_none());
    let images =
        ImageJSON::from_json_str(r#"{"images": [{"name": "logo", "path": "logo.png"}]}"#).unwrap();
    let mut db = Database::new("/assets/demo", root, Some(images), None, None);

    assert_eq!(db.atlas_count(), 0);
    assert_eq!(db.ttf_count(), 0);
    assert_eq!(db.image_count(), 1);
    {
        let e = db.get_image("logo").unwrap();
        assert_eq!(e.cfg.name, "logo");
        assert_eq!(e.cfg.path, "logo.png");
        assert!(e.loaded.is_none());
    }

    // first fetch owes a decode of the file under the base path
    let req = db.image_load_request("logo").unwrap().expect("a decode is owed");
    assert_eq!(req.path, "/assets/demo/logo.png");
    let payload = ImageLoadInfo { width: 2, height: 2, data: vec![1, 2, 3, 4] };
    db.store_image("logo", payload).unwrap();
    {
        let e = db.get_image("logo").unwrap();
        let got = e.loaded.as_ref().unwrap();
        assert_eq!(got.width, 2);
        assert_eq!(got.data, vec![1, 2, 3, 4]);
    }

    // second fetch owes nothing: the cached payload is returned as is
    assert!(db.image_load_request("logo").unwrap().is_none());
    {
        let e = db.get_image("logo").unwrap();
        assert_eq!(
            e.loaded.as_ref().unwrap(),
            &ImageLoadInfo { width: 2, height: 2, data: vec![1, 2, 3, 4] }
        );
    }
}

#[test]
fn absent_names_always_fail_with_a_lookup_error() {
    let root = DatabaseJSON::from_json_str("{}").unwrap();
    let mut db = Database::new("/assets", root, None, None, None);
    assert!(matches!(db.get_image("missing"), Err(Error::LookupError(_))));
    assert!(matches!(db.get_atlas("missing"), Err(Error::LookupError(_))));
    assert!(matches!(db.get_ttf("missing"), Err(Error::LookupError(_))));
    assert!(matches!(db.image_load_request("missing"), Err(Error::LookupError(_))));
    assert!(matches!(db.atlas_load_request("missing"), Err(Error::LookupError(_))));
    assert!(matches!(db.ttf_load_request("missing"), Err(Error::LookupError(_))));
    assert!(matches!(db.store_image("missing", ImageLoadInfo { width: 0, height: 0, data: vec![] }), Err(Error::LookupError(_))));
    assert!(matches!(db.store_ttf("missing", sample_font()), Err(Error::LookupError(_))));
    // unloading an absent name is a no-op, never an error
    db.unload_image("missing");
    db.unload_ttf("missing");
}

#[test]
fn fetch_twice_decodes_once_and_unload_forces_a_fresh_decode() {
    let root = DatabaseJSON::from_json_str(r#"{"ttf_cfg": "fonts.json"}"#).unwrap();
    let fonts = TTFJSON::from_json_str(
        r#"{"fonts": [{"name": "body", "path": "body.ttf", "size": 18}]}"#,
    )
    .unwrap();
    let mut db = Database::new("/assets", root, None, None, Some(fonts));

    let req = db.ttf_load_request("body").unwrap().expect("first fetch owes a rasterization");
    assert_eq!(req.path, "/assets/body.ttf");
    assert_eq!(req.size_bits, 18.0f64.to_bits());
    assert_eq!(req.width, 1280);
    assert_eq!(req.height, 1024);
    db.store_ttf("body", sample_font()).unwrap();

    // fetch again without unloading: nothing is owed, the cache answers
    assert!(db.ttf_load_request("body").unwrap().is_none());

    // storing over a cached payload keeps the cache: at most one decode
    let other = TTFont { width: 1, height: 1, pixels: vec![], typeset: vec!['z'] };
    db.store_ttf("body", other).unwrap();
    {
        let e = db.get_ttf("body").unwrap();
        assert_eq!(e.loaded.as_ref().unwrap().typeset, vec!['a', 'b']);
    }

    // unload, then fetch: a fresh decode is owed and no stale payload is kept
    db.unload_ttf("body");
    {
        let e = db.get_ttf("body").unwrap();
        assert!(e.loaded.is_none());
    }
    let req2 = db.ttf_load_request("body").unwrap().expect("a rasterization is owed anew");
    assert_eq!(req2.path, "/assets/body.ttf");
    let refreshed = TTFont { width: 1, height: 1, pixels: vec![], typeset: vec!['z'] };
    db.store_ttf("body", refreshed).unwrap();
    {
        let e = db.get_ttf("body").unwrap();
        assert_eq!(e.loaded.as_ref().unwrap().typeset, vec!['z']);
    }
}

#[test]
fn font_without_glyphs_rasterizes_with_ascii_0_to_126() {
    let root = DatabaseJSON::from_json_str(r#"{"ttf_cfg": "fonts.json"}"#).unwrap();
    let fonts = TTFJSON::from_json_str(
        r#"{"fonts": [
            {"name": "plain", "path": "plain.ttf", "size": 12},
            {"name": "digits", "path": "digits.ttf", "size": 12, "glyphs": "0123456789"}
        ]}"#,
    )
    .unwrap();
    let db = Database::new("/assets", root, None, None, Some(fonts));

    let req = db.ttf_load_request("plain").unwrap().unwrap();
    let expected: Vec<char> = (0u8..=126u8).map(|b| b as char).collect();
    assert_eq!(req.typeset, expected);
    assert_eq!(req.typeset.len(), 127);
    assert_eq!(default_typeset(), expected);

    let req = db.ttf_load_request("digits").unwrap().unwrap();
    let declared: Vec<char> = "0123456789".chars().collect();
    assert_eq!(req.typeset, declared);
}

#[test]
fn fractional_font_sizes_are_carried_as_bit_patterns() {
    let fonts = TTFJSON::from_json_str(
        r#"{"fonts": [{"name": "f", "path": "f.ttf", "size": 12.5}]}"#,
    )
    .unwrap();
    assert_eq!(fonts.fonts.len(), 1);
    assert_eq!(fonts.fonts[0].size_bits, 12.5f64.to_bits());
    assert_eq!(f64::from_bits(fonts.fonts[0].size_bits), 12.5);
}

#[test]
fn later_manifest_items_shadow_earlier_ones_of_the_same_name() {
    let root = DatabaseJSON::from_json_str(r#"{"image_cfg": "images.json"}"#).unwrap();
    let images = ImageJSON::from_json_str(
        r#"{"images": [
            {"name": "logo", "path": "old.png"},
            {"name": "logo", "path": "new.png"}
        ]}"#,
    )
    .unwrap();
    let db = Database::new("/assets", root, Some(images), None, None);
    assert_eq!(db.image_count(), 2);
    let e = db.get_image("logo").unwrap();
    assert_eq!(e.cfg.path, "new.png");
}

#[test]
fn particle_cfg_defaults_to_the_empty_string() {
    let root = DatabaseJSON::from_json_str("{}").unwrap();
    let db = Database::new("/assets", root, None, None, None);
    assert_eq!(db.particle_system_cfg_path().unwrap(), "");
    assert_eq!(db.base_path(), "/assets");

    let root = DatabaseJSON::from_json_str(r#"{"particle_cfg": "sparks.json"}"#).unwrap();
    let db = Database::new("/assets", root, None, None, None);
    assert_eq!(db.particle_system_cfg_path().unwrap(), "sparks.json");
}

#[test]
fn atlas_manifests_resolve_exactly_one_slicing() {
    let explicit = AtlasJSON::from_json_str(
        r#"{"atlases": [{
            "name": "ui", "path": "ui.png",
            "entries": [{"name": "button", "id": 3, "bounds": {"x": 0, "y": 0, "w": 8, "h": 8}}]
        }]}"#,
    )
    .unwrap();
    assert_eq!(explicit.atlases.len(), 1);
    match &explicit.atlases[0].slicing {
        AtlasSlicing::Entries(sprites) => {
            assert_eq!(sprites.len(), 1);
            assert_eq!(sprites[0].name, "button");
            assert_eq!(sprites[0].id, 3);
            assert_eq!(sprites[0].bounds.w, 8);
        }
        AtlasSlicing::AutoGen(_) => panic!("expected an explicit sprite list"),
    }

    let auto = AtlasJSON::from_json_str(
        r#"{"atlases": [{
            "name": "tiles", "path": "tiles.png",
            "auto_gen": {"name": "tile", "bounds": {"x": 0, "y": 0, "w": 16, "h": 16}, "stride": 16}
        }]}"#,
    )
    .unwrap();
    match &auto.atlases[0].slicing {
        AtlasSlicing::AutoGen(g) => {
            assert_eq!(g.name, "tile");
            assert_eq!(g.stride, 16);
        }
        AtlasSlicing::Entries(_) => panic!("expected an automatic slicing rule"),
    }

    // neither or both present: a parse error
    let neither = r#"{"atlases": [{"name": "a", "path": "a.png"}]}"#;
    assert!(matches!(AtlasJSON::from_json_str(neither), Err(Error::ParseError(_))));
    let both = r#"{"atlases": [{
        "name": "a", "path": "a.png",
        "entries": [],
        "auto_gen": {"name": "t", "bounds": {"x": 0, "y": 0, "w": 1, "h": 1}, "stride": 1}
    }]}"#;
    assert!(matches!(AtlasJSON::from_json_str(both), Err(Error::ParseError(_))));
}

#[test]
fn malformed_manifests_are_parse_errors() {
    assert!(matches!(DatabaseJSON::from_json_str("{"), Err(Error::ParseError(_))));
    assert!(matches!(
        DatabaseJSON::from_json_str(r#"{"image_cfg": 3}"#),
        Err(Error::ParseError(_))
    ));
    assert!(matches!(ImageJSON::from_json_str("{}"), Err(Error::ParseError(_))));
    assert!(matches!(
        ImageJSON::from_json_str(r#"{"images": [{"name": "x"}]}"#),
        Err(Error::ParseError(_))
    ));
    assert!(matches!(
        TTFJSON::from_json_str(r#"{"fonts": [{"name": "f", "path": "f.ttf"}]}"#),
        Err(Error::ParseError(_))
    ));
    // a size that is not a number is a parse error
    assert!(matches!(
        TTFJSON::from_json_str(r#"{"fonts": [{"name": "f", "path": "f.ttf", "size": "big"}]}"#),
        Err(Error::ParseError(_))
    ));
}

#[test]
fn atlas_fetch_caches_like_images() {
    let root = DatabaseJSON::from_json_str(r#"{"atlas_cfg": "atlases.json"}"#).unwrap();
    let atlases = AtlasJSON::from_json_str(
        r#"{"atlases": [{
            "name": "ui", "path": "ui.png",
            "entries": [{"name": "b", "id": 1, "bounds": {"x": 0, "y": 0, "w": 4, "h": 4}}]
        }]}"#,
    )
    .unwrap();
    let mut db = Database::new("/assets", root, None, Some(atlases), None);
    assert_eq!(db.atlas_count(), 1);
    let req = db.atlas_load_request("ui").unwrap().expect("a decode is owed");
    assert_eq!(req.path, "/assets/ui.png");
    db.store_atlas("ui", ImageLoadInfo { width: 4, height: 4, data: vec![0; 64] }).unwrap();
    assert!(db.atlas_load_request("ui").unwrap().is_none());
    db.unload_atlas("ui");
    assert!(db.atlas_load_request("ui").unwrap().is_some());
}

#[test]
fn a_failed_decode_leaves_the_entry_retryable() {
    let root = DatabaseJSON::from_json_str(r#"{"image_cfg": "images.json"}"#).unwrap();
    let images =
        ImageJSON::from_json_str(r#"{"images": [{"name": "logo", "path": "logo.png"}]}"#).unwrap();
    let mut db = Database::new("/assets", root, Some(images), None, None);

    // the first fetch owes a decode; suppose the decoder fails: nothing
    // is stored, and the error names the failing payload
    let req = db.image_load_request("logo").unwrap().expect("a decode is owed");
    let failure: Result<ImageLoadInfo, Error> = Err(Error::DecodeError(req.path.clone()));
    assert!(matches!(failure, Err(Error::DecodeError(p)) if p == "/assets/logo.png"));

    // the cache is unchanged, so a later fetch retries the decode
    assert!(db.get_image("logo").unwrap().loaded.is_none());
    let retry = db.image_load_request("logo").unwrap().expect("the decode is still owed");
    assert_eq!(retry.path, "/assets/logo.png");
    db.store_image("logo", ImageLoadInfo { width: 1, height: 1, data: vec![9] }).unwrap();
    assert!(db.image_load_request("logo").unwrap().is_none());
}
