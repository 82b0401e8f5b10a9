use radiant::fontquery::{create_fontbuilder, create_fontquerybuilder};

#[test]
fn query_builder_collects_constraints() {
    let info = create_fontquerybuilder()
        .family("Arial")
        .italic()
        .monospace()
        .into_info();
    assert_eq!(info.family, "Arial");
    assert!(info.italic);
    assert!(info.monospace);
    assert!(!info.oblique);
}

#[test]
fn query_builder_starts_unconstrained() {
    let info = create_fontquerybuilder().into_info();
    assert_eq!(info.family, "");
    assert!(!info.italic);
    assert!(!info.oblique);
    assert!(!info.monospace);
}

#[test]
fn font_builder_with_family() {
    let (file, info) = create_fontbuilder()
        .family("Courier")
        .size(16.0f32.to_bits())
        .oblique()
        .into_request();
    assert!(file.is_none());
    assert_eq!(info.family, "Courier");
    assert_eq!(info.size, 16.0f32.to_bits());
    assert!(info.oblique);
}

#[test]
fn font_builder_with_file() {
    let (file, info) = create_fontbuilder().file("font.ttf").into_request();
    assert_eq!(file.as_deref(), Some("font.ttf"));
    assert_eq!(info.family, "");
}
