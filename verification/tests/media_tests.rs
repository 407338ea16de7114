use at_tui::media::{overlay_picture, OverlayPicture, PreviewVideo};
use at_tui::media::{
    cache_key, cache_stem, prefetch_thumb_urls, preview_images, preview_media, PreviewImageSource,
    PreviewMedia,
};
use at_tui::model::{ExternalRef, FeedItem, ImageRef, QuotePost, VideoRef};

fn item() -> FeedItem {
    FeedItem {
        uri: "post".into(),
        cid: None,
        viewer_like: None,
        viewer_repost: None,
        author_did: None,
        author_name: "Alice".into(),
        author_handle: "alice.test".into(),
        author_following: None,
        author_following_uri: None,
        avatar_url: None,
        text: "hello".into(),
        indexed_at: None,
        reply_count: 0,
        repost_count: 0,
        like_count: 0,
        quote_count: 0,
        images: Vec::new(),
        videos: Vec::new(),
        external: None,
        links: Vec::new(),
        quote: None,
        reason: None,
        reply: None,
        reply_root: None,
        embed_status: None,
        depth: 0,
    }
}

fn quote_with_image(thumb: &str) -> QuotePost {
    QuotePost {
        uri: "quote".into(),
        cid: None,
        author_name: "Bob".into(),
        author_handle: "bob.test".into(),
        text: "quoted".into(),
        indexed_at: None,
        images: vec![ImageRef {
            thumb_url: thumb.into(),
            fullsize_url: None,
            alt: Some("quote alt".into()),
        }],
        videos: Vec::new(),
        external: None,
        links: Vec::new(),
        nested_quote: None,
    }
}

#[test]
fn cache_key_is_stable() {
    assert_eq!(
        cache_key("https://example.com/a.png"),
        cache_key("https://example.com/a.png")
    );
    assert_ne!(
        cache_key("https://example.com/a.png"),
        cache_key("https://example.com/b.png")
    );
}

#[test]
fn collects_direct_images_before_quote_images() {
    let mut item = item();
    item.images = vec![ImageRef {
        thumb_url: "https://example.com/post-thumb.jpg".into(),
        fullsize_url: Some("https://example.com/post-full.jpg".into()),
        alt: Some("post alt".into()),
    }];
    item.quote = Some(quote_with_image("https://example.com/quote-thumb.jpg"));

    let images = preview_images(&item);

    assert_eq!(images.len(), 2);
    assert_eq!(images[0].url, "https://example.com/post-full.jpg");
    assert_eq!(
        images[0].thumb_url.as_deref(),
        Some("https://example.com/post-thumb.jpg")
    );
    assert_eq!(images[0].source, PreviewImageSource::Post);
    assert_eq!(images[1].url, "https://example.com/quote-thumb.jpg");
    assert_eq!(images[1].thumb_url, None);
    assert_eq!(images[1].source, PreviewImageSource::Quote);
}

#[test]
fn prefetch_urls_cover_post_quote_and_external_thumbs() {
    let mut item = item();
    item.images = vec![ImageRef {
        thumb_url: "https://example.com/post-thumb.jpg".into(),
        fullsize_url: Some("https://example.com/post-full.jpg".into()),
        alt: None,
    }];
    item.external = Some(ExternalRef {
        uri: "https://example.com/article".into(),
        title: "article".into(),
        description: None,
        thumb_url: Some("https://example.com/card-thumb.jpg".into()),
    });

    let urls = prefetch_thumb_urls(&item);

    assert_eq!(
        urls,
        vec![
            "https://example.com/post-thumb.jpg".to_owned(),
            "https://example.com/card-thumb.jpg".to_owned(),
        ]
    );
}

#[test]
fn preview_media_includes_images_then_videos() {
    let mut item = item();
    item.images = vec![ImageRef {
        thumb_url: "https://example.com/post-thumb.jpg".into(),
        fullsize_url: None,
        alt: None,
    }];
    item.videos = vec![VideoRef {
        playlist_url: "https://example.com/video.m3u8".into(),
        thumb_url: Some("https://example.com/video.jpg".into()),
        alt: Some("video".into()),
        cid: Some("cid".into()),
        aspect_ratio: Some((1, 1)),
    }];

    let media = preview_media(&item);

    assert!(matches!(media[0], PreviewMedia::Image(_)));
    assert!(matches!(media[1], PreviewMedia::Video(_)));
}

#[test]
fn cache_key_is_the_hex_sha256_of_the_url() {
    assert_eq!(
        cache_stem(""),
        "e3b0c44298fc1c149afbf4c8996fb92427ae41e4649b934ca495991b7852b855"
    );
    assert_eq!(
        cache_key("abc"),
        "ba7816bf8f01cfea414140de5dae2223b00361a396177a9cb410ff61f20015ad.img"
    );
}

#[test]
fn prefetch_includes_quote_thumbs_after_post_thumbs() {
    let mut item = item();
    item.images = vec![ImageRef {
        thumb_url: "https://example.com/a.jpg".into(),
        fullsize_url: None,
        alt: None,
    }];
    item.quote = Some(quote_with_image("https://example.com/q.jpg"));
    assert_eq!(
        prefetch_thumb_urls(&item),
        vec![
            "https://example.com/a.jpg".to_owned(),
            "https://example.com/q.jpg".to_owned()
        ]
    );
}

#[test]
fn overlay_shows_a_video_thumbnail_until_frames_are_loaded() {
    let video = PreviewVideo {
        playlist_url: "https://video.test/p.m3u8".into(),
        thumb_url: Some("https://video.test/t.jpg".into()),
        alt: Some("alt".into()),
        source: PreviewImageSource::Post,
        cid: None,
        aspect_ratio: None,
    };
    let media = PreviewMedia::Video(video.clone());
    match overlay_picture(&media, "missing") {
        OverlayPicture::Image(image) => {
            assert_eq!(image.url, "https://video.test/t.jpg");
            assert_eq!(image.alt.as_deref(), Some("alt"));
        }
        other => panic!("expected the thumbnail, got {other:?}"),
    }
    assert_eq!(overlay_picture(&media, "ready"), OverlayPicture::Frames(video.clone()));
    let no_thumb = PreviewVideo { thumb_url: None, ..video };
    assert_eq!(
        overlay_picture(&PreviewMedia::Video(no_thumb.clone()), "missing"),
        OverlayPicture::Frames(no_thumb)
    );
}
