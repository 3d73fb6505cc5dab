use remouillage::canvas::{
    BackendAttachment, Canvas, CanvasAttachment, CanvasCreateInfo, Format, ImageHandle,
    ImageViewHandle, LoadOp, Rect2D, RenderPassHandle, SampleCount, StoreOp, Viewport,
};
use remouillage::error::Error;

fn viewport(w: u32, h: u32) -> Viewport {
    Viewport {
        area: Rect2D { x: 0, y: 0, w, h },
        min_depth_bits: 0,
        max_depth_bits: 1.0f64.to_bits(),
    }
}

fn attachment(name: &str, format: Format) -> CanvasAttachment {
    CanvasAttachment {
        name: name.to_string(),
        format,
        samples: SampleCount::S1,
        load_op: LoadOp::Clear,
        store_op: StoreOp::Store,
        stencil_load_op: LoadOp::DontCare,
        stencil_store_op: StoreOp::DontCare,
        clear_color: [0, 0, 0, 1.0f64.to_bits()],
    }
}

fn resource(n: u64) -> BackendAttachment {
    BackendAttachment {
        img: ImageHandle { id: n },
        view: ImageViewHandle { id: 100 + n },
    }
}

#[test]
fn compose_realizes_every_attachment_by_name_and_index() {
    let info = CanvasCreateInfo {
        name: "main".to_string(),
        viewport: viewport(640, 480),
        color_attachments: vec![
            attachment("color0", Format::RGBA8),
            attachment("color1", Format::RGBA32F),
        ],
        depth_stencil: Some(attachment("depth", Format::D24S8)),
    };
    let reqs = Canvas::image_requests(&info);
    assert_eq!(reqs.len(), 3);
    assert_eq!(reqs[0].name, "color0");
    assert_eq!(reqs[1].name, "color1");
    assert_eq!(reqs[2].name, "depth");
    assert_eq!(reqs[0].width, 640);
    assert_eq!(reqs[0].height, 480);
    assert_eq!(reqs[1].format, Format::RGBA32F);

    let resources = vec![resource(1), resource(2), resource(3)];
    let canvas = Canvas::new(info, resources, RenderPassHandle { id: 7 }).unwrap();
    assert_eq!(canvas.name(), "main");
    assert_eq!(canvas.color_count(), 2);
    assert_eq!(canvas.render_pass(), RenderPassHandle { id: 7 });
    assert_eq!(canvas.viewport().area.w, 640);

    // by-index accessor follows declaration order
    assert_eq!(canvas.color_attachment(0).unwrap(), ImageViewHandle { id: 101 });
    assert_eq!(canvas.color_attachment(1).unwrap(), ImageViewHandle { id: 102 });

    // by-name lookup returns every declared attachment, color and depth
    let c0 = canvas.color_attachment_by_name("color0").unwrap();
    assert_eq!(c0.view, ImageViewHandle { id: 101 });
    assert_eq!(c0.info.format, Format::RGBA8);
    let c1 = canvas.color_attachment_by_name("color1").unwrap();
    assert_eq!(c1.view, ImageViewHandle { id: 102 });
    let d = canvas.color_attachment_by_name("depth").unwrap();
    assert_eq!(d.view, ImageViewHandle { id: 103 });
    let depth = canvas.depth_attachment().unwrap();
    assert_eq!(depth.img, ImageHandle { id: 3 });
}

#[test]
fn out_of_range_index_is_a_lookup_error() {
    let info = CanvasCreateInfo {
        name: "main".to_string(),
        viewport: viewport(64, 64),
        color_attachments: vec![attachment("color0", Format::RGBA8)],
        depth_stencil: None,
    };
    let canvas = Canvas::new(info, vec![resource(1)], RenderPassHandle { id: 1 }).unwrap();
    assert!(matches!(canvas.color_attachment(1), Err(Error::LookupError(_))));
    assert!(canvas.color_attachment_by_name("absent").is_none());
}

#[test]
fn duplicate_attachment_names_are_rejected() {
    let info = CanvasCreateInfo {
        name: "main".to_string(),
        viewport: viewport(64, 64),
        color_attachments: vec![
            attachment("same", Format::RGBA8),
            attachment("same", Format::RGBA8),
        ],
        depth_stencil: None,
    };
    let r = Canvas::new(info, vec![resource(1), resource(2)], RenderPassHandle { id: 1 });
    assert!(matches!(r, Err(Error::ParseError(_))));
}

#[test]
fn resource_count_mismatch_is_a_backend_error() {
    let info = CanvasCreateInfo {
        name: "main".to_string(),
        viewport: viewport(64, 64),
        color_attachments: vec![attachment("color0", Format::RGBA8)],
        depth_stencil: None,
    };
    let r = Canvas::new(info, vec![], RenderPassHandle { id: 1 });
    assert!(matches!(r, Err(Error::BackendError(_))));
}

#[test]
fn canvas_manifest_with_one_color_and_no_depth() {
    let text = r#"{
        "name": "screen",
        "viewport": {"area": {"x": 0, "y": 0, "w": 1280, "h": 1024}},
        "color_attachments": [{
            "name": "color0",
            "format": "RGBA8",
            "samples": 1,
            "load_op": "Clear",
            "store_op": "Store",
            "stencil_load_op": "DontCare",
            "stencil_store_op": "DontCare",
            "clear_color": [0.0, 0.25, 0.5, 1.0]
        }]
    }"#;
    let info = CanvasCreateInfo::from_json_str(text).unwrap();
    assert_eq!(info.name, "screen");
    assert!(info.depth_stencil.is_none());
    assert_eq!(info.color_attachments.len(), 1);
    assert_eq!(info.color_attachments[0].clear_color[1], 0.25f64.to_bits());
    assert_eq!(info.color_attachments[0].clear_color[3], 1.0f64.to_bits());
    assert_eq!(info.viewport.max_depth_bits, 1.0f64.to_bits());

    let canvas = Canvas::new(info, vec![resource(5)], RenderPassHandle { id: 2 }).unwrap();
    assert!(canvas.depth_attachment().is_none());
    let by_index = canvas.color_attachment(0).unwrap();
    let by_name = canvas.color_attachment_by_name("color0").unwrap();
    assert_eq!(by_index, by_name.view);
}

#[test]
fn manifest_and_programmatic_forms_compose_identically() {
    let text = r#"{
        "name": "pair",
        "viewport": {"area": {"x": 0, "y": 0, "w": 32, "h": 16}},
        "color_attachments": [{
            "name": "c",
            "format": "BGRA8",
            "samples": 4,
            "load_op": "Load",
            "store_op": "DontCare",
            "stencil_load_op": "Load",
            "stencil_store_op": "Store",
            "clear_color": [0.0, 0.0, 0.0, 0.0]
        }]
    }"#;
    let parsed = CanvasCreateInfo::from_json_str(text).unwrap();
    let programmatic = CanvasCreateInfo {
        name: "pair".to_string(),
        viewport: viewport(32, 16),
        color_attachments: vec![CanvasAttachment {
            name: "c".to_string(),
            format: Format::BGRA8,
            samples: SampleCount::S4,
            load_op: LoadOp::Load,
            store_op: StoreOp::DontCare,
            stencil_load_op: LoadOp::Load,
            stencil_store_op: StoreOp::Store,
            clear_color: [0, 0, 0, 0],
        }],
        depth_stencil: None,
    };
    let ca = Canvas::new(parsed, vec![resource(1)], RenderPassHandle { id: 3 }).unwrap();
    let cb = Canvas::new(programmatic, vec![resource(1)], RenderPassHandle { id: 3 }).unwrap();
    let da = ca.color_attachment_by_name("c").unwrap();
    let db = cb.color_attachment_by_name("c").unwrap();
    assert_eq!(da.view, db.view);
    assert_eq!(da.info.format, db.info.format);
    assert_eq!(da.info.samples, db.info.samples);
    assert_eq!(da.info.load_op, db.info.load_op);
    assert_eq!(da.info.store_op, db.info.store_op);
    assert_eq!(da.info.clear_color, db.info.clear_color);
    assert_eq!(ca.color_attachment(0).unwrap(), cb.color_attachment(0).unwrap());
}

#[test]
fn malformed_canvas_manifests_are_parse_errors() {
    assert!(matches!(
        CanvasCreateInfo::from_json_str("not json"),
        Err(Error::ParseError(_))
    ));
    // missing viewport
    assert!(matches!(
        CanvasCreateInfo::from_json_str(r#"{"name":"x","color_attachments":[]}"#),
        Err(Error::ParseError(_))
    ));
    // unknown format name
    let bad_format = r#"{
        "name": "x",
        "viewport": {"area": {"x": 0, "y": 0, "w": 1, "h": 1}},
        "color_attachments": [{
            "name": "c", "format": "RGBA16", "samples": 1,
            "load_op": "Clear", "store_op": "Store",
            "stencil_load_op": "DontCare", "stencil_store_op": "DontCare",
            "clear_color": [0, 0, 0, 0]
        }]
    }"#;
    assert!(matches!(
        CanvasCreateInfo::from_json_str(bad_format),
        Err(Error::ParseError(_))
    ));
    // clear color must have exactly four components
    let short_color = r#"{
        "name": "x",
        "viewport": {"area": {"x": 0, "y": 0, "w": 1, "h": 1}},
        "color_attachments": [{
            "name": "c", "format": "RGBA8", "samples": 1,
            "load_op": "Clear", "store_op": "Store",
            "stencil_load_op": "DontCare", "stencil_store_op": "DontCare",
            "clear_color": [0, 0, 0]
        }]
    }"#;
    assert!(matches!(
        CanvasCreateInfo::from_json_str(short_color),
        Err(Error::ParseError(_))
    ));
}
