use yt_dlp_x::preview::{preview_from_bytes, preview_from_value, PreviewError};

fn doc(text: &str) -> serde_json::Value {
    serde_json::from_str(text).unwrap()
}

#[test]
fn plain_documents_supply_the_fields_directly() {
    let v = doc(
        "{\"title\":\"Clip\",\"thumbnail\":\"https://e.com/t.jpg\",\"uploader\":\"Ann\",\
         \"extractor_key\":\"Site\",\"webpage_url\":\"https://e.com/v\"}",
    );
    let p = preview_from_value(&v);
    assert_eq!(p.title.as_deref(), Some("Clip"));
    assert_eq!(p.thumbnail.as_deref(), Some("https://e.com/t.jpg"));
    assert_eq!(p.uploader.as_deref(), Some("Ann"));
    assert_eq!(p.extractor.as_deref(), Some("Site"));
    assert_eq!(p.webpage_url.as_deref(), Some("https://e.com/v"));
}

#[test]
fn the_first_collection_entry_wins() {
    let v = doc(
        "{\"title\":\"Playlist\",\"entries\":[{\"title\":\"First\",\"uploader\":\"Bea\"},\
         {\"title\":\"Second\"}]}",
    );
    let p = preview_from_value(&v);
    assert_eq!(p.title.as_deref(), Some("First"));
    assert_eq!(p.uploader.as_deref(), Some("Bea"));
}

#[test]
fn an_empty_entries_array_falls_back_to_the_document() {
    let v = doc("{\"title\":\"Solo\",\"entries\":[]}");
    let p = preview_from_value(&v);
    assert_eq!(p.title.as_deref(), Some("Solo"));
}

#[test]
fn uploader_falls_back_to_channel_then_artist() {
    let channel = doc("{\"channel\":\"NewsRoom\"}");
    assert_eq!(preview_from_value(&channel).uploader.as_deref(), Some("NewsRoom"));
    let artist = doc("{\"artist\":\"Band\"}");
    assert_eq!(preview_from_value(&artist).uploader.as_deref(), Some("Band"));
    let both = doc("{\"uploader\":\"U\",\"channel\":\"C\",\"artist\":\"A\"}");
    assert_eq!(preview_from_value(&both).uploader.as_deref(), Some("U"));
}

#[test]
fn url_falls_back_from_webpage_to_original_to_plain() {
    let original = doc("{\"original_url\":\"https://e.com/o\"}");
    assert_eq!(preview_from_value(&original).webpage_url.as_deref(), Some("https://e.com/o"));
    let plain = doc("{\"url\":\"https://e.com/u\"}");
    assert_eq!(preview_from_value(&plain).webpage_url.as_deref(), Some("https://e.com/u"));
}

#[test]
fn extractor_key_wins_over_extractor() {
    let v = doc("{\"extractor_key\":\"Key\",\"extractor\":\"name\"}");
    assert_eq!(preview_from_value(&v).extractor.as_deref(), Some("Key"));
    let only = doc("{\"extractor\":\"name\"}");
    assert_eq!(preview_from_value(&only).extractor.as_deref(), Some("name"));
}

#[test]
fn missing_and_non_string_fields_stay_absent() {
    let v = doc("{\"title\":7,\"duration\":12.5}");
    let p = preview_from_value(&v);
    assert!(p.title.is_none());
    assert!(p.uploader.is_none());
    assert!(p.webpage_url.is_none());
}

#[test]
fn preview_from_bytes_parses_one_document() {
    let bytes = "{\"title\":\"Clip\"}".as_bytes().to_vec();
    let p = preview_from_bytes(&bytes).unwrap();
    assert_eq!(p.title.as_deref(), Some("Clip"));
}

#[test]
fn invalid_bytes_are_rejected() {
    let bytes = b"not json at all".to_vec();
    let err = preview_from_bytes(&bytes).unwrap_err();
    assert!(matches!(err, PreviewError::InvalidDocument));
    assert!(err.message().contains("parsed"));
}
