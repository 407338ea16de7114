use at_tui::media_store::{EntryState, MediaStore, IMAGE_CACHE_CAP, VIDEO_CACHE_CAP};

fn ready(store: &mut MediaStore, url: &str) -> Vec<String> {
    store.finish_load(url.to_owned(), EntryState::Ready)
}

#[test]
fn decoded_image_cache_is_lru_bounded() {
    let mut cache = MediaStore::new(true, IMAGE_CACHE_CAP);

    let mut evicted = Vec::new();
    for index in 0..(IMAGE_CACHE_CAP + 2) {
        evicted.extend(ready(&mut cache, &format!("https://example.com/{index}.png")));
    }

    assert_eq!(cache.len(), IMAGE_CACHE_CAP);
    assert_eq!(evicted, vec!["https://example.com/0.png", "https://example.com/1.png"]);
    assert_eq!(cache.state_name("https://example.com/0.png"), "missing");
    assert_eq!(cache.state_name("https://example.com/1.png"), "missing");
    assert_eq!(cache.state_name("https://example.com/2.png"), "ready");

    // Touching the oldest survivor protects it from the next eviction.
    cache.touch("https://example.com/2.png");
    ready(&mut cache, "https://example.com/extra.png");
    assert_eq!(cache.state_name("https://example.com/2.png"), "ready");
    assert_eq!(cache.state_name("https://example.com/3.png"), "missing");
}

#[test]
fn explicit_load_can_retry_a_sticky_failure() {
    let mut cache = MediaStore::new(true, IMAGE_CACHE_CAP);
    let url = "https://example.com/retry.jpg";
    cache.finish_load(url.into(), EntryState::Failed("permanent decode error".into()));

    assert!(!cache.prepare_load(url, false));
    assert!(cache.prepare_load(url, true));
    assert_eq!(cache.state_name(url), "missing");
}

#[test]
fn render_key_prefers_fullsize_then_thumb() {
    let mut cache = MediaStore::new(true, IMAGE_CACHE_CAP);
    let full = "https://example.com/full.png";
    let thumb = "https://example.com/thumb.png";

    assert_eq!(cache.render_key(full, Some(thumb)), Err("Image queued".to_owned()));

    cache.mark_loading_url(full);
    assert_eq!(cache.render_key(full, Some(thumb)), Err("Image loading".to_owned()));
    ready(&mut cache, thumb);
    assert_eq!(cache.render_key(full, Some(thumb)), Ok(thumb.to_owned()));

    ready(&mut cache, full);
    assert_eq!(cache.render_key(full, Some(thumb)), Ok(full.to_owned()));
}

#[test]
fn image_state_moves_from_missing_to_loading_to_failed() {
    let disabled = MediaStore::new(false, IMAGE_CACHE_CAP);
    assert_eq!(disabled.state_name("https://example.com/image.jpg"), "missing");

    let mut cache = MediaStore::new(true, IMAGE_CACHE_CAP);
    let url = "https://example.com/image.jpg";
    assert_eq!(cache.state_name(url), "missing");
    cache.mark_loading_url(url);
    assert_eq!(cache.state_name(url), "loading");
    cache.finish_load(url.to_owned(), EntryState::Failed("network failed".into()));
    assert_eq!(cache.state_name(url), "failed");
    assert_eq!(cache.render_key(url, None), Err("network failed".to_owned()));
}

#[test]
fn disabled_cache_loads_nothing() {
    let mut cache = MediaStore::new(false, VIDEO_CACHE_CAP);
    assert!(!cache.prepare_load("https://example.com/v.m3u8", false));
    cache.mark_loading_url("https://example.com/v.m3u8");
    assert!(!cache.loading("https://example.com/v.m3u8"));
    assert!(ready(&mut cache, "https://example.com/v.m3u8").is_empty());
    assert_eq!(cache.len(), 0);
}

#[test]
fn reloading_a_known_url_keeps_its_place_and_cancel_stops_loading() {
    let mut cache = MediaStore::new(true, 2);
    ready(&mut cache, "a");
    ready(&mut cache, "b");
    assert!(ready(&mut cache, "a").is_empty());
    assert_eq!(ready(&mut cache, "c"), vec!["a".to_owned()]);
    cache.mark_loading_url("d");
    assert!(cache.loading("d"));
    assert!(!cache.prepare_load("d", true));
    cache.cancel_loading("d");
    assert!(!cache.loading("d"));
    assert!(cache.prepare_load("d", false));
}
