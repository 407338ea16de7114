//! The media a post carries, as the preview overlay lists it, and the names of the
//! files that cache downloaded images.
use vstd::prelude::*;

use crate::text::clone_text;

use crate::model::{FeedItem, ImageRef, VideoRef};
use crate::text::push_str;
use vstd::string::StringSliceAdditionalSpecFns;

verus! {

#[derive(Debug, Clone, Copy, PartialEq, Eq)]
pub enum RequestedImageProtocol {
    Auto,
    Kitty,
    Sixel,
    Iterm2,
    Halfblocks,
}

#[derive(Debug, Clone, PartialEq, Eq)]
pub struct PreviewImage {
    pub url: String,
    /// Smaller variant rendered while the fullsize `url` is still loading.
    pub thumb_url: Option<String>,
    pub alt: Option<String>,
    pub source: PreviewImageSource,
}

#[derive(Debug, Clone, PartialEq, Eq)]
pub struct PreviewVideo {
    pub playlist_url: String,
    pub thumb_url: Option<String>,
    pub alt: Option<String>,
    pub source: PreviewImageSource,
    pub cid: Option<String>,
    pub aspect_ratio: Option<(u64, u64)>,
}

#[derive(Debug, Clone, PartialEq, Eq)]
pub enum PreviewMedia {
    Image(PreviewImage),
    Video(PreviewVideo),
}

#[derive(Debug, Clone, Copy, PartialEq, Eq, Structural)]
pub enum PreviewImageSource {
    Post,
    Quote,
}

impl PreviewVideo {
    /// A field-by-field copy.
    pub fn duplicate(&self) -> (r: PreviewVideo)
        ensures
            r == *self,
    {
        PreviewVideo {
            playlist_url: self.playlist_url.clone(),
            thumb_url: clone_text(&self.thumb_url),
            alt: clone_text(&self.alt),
            source: self.source,
            cid: clone_text(&self.cid),
            aspect_ratio: self.aspect_ratio,
        }
    }
}

impl PreviewImageSource {
    pub open spec fn spec_label(self) -> Seq<char> {
        match self {
            PreviewImageSource::Post => "post"@,
            PreviewImageSource::Quote => "quote"@,
        }
    }

    pub fn label(self) -> (r: &'static str)
        ensures
            r@ == self.spec_label(),
    {
        match self {
            PreviewImageSource::Post => "post",
            PreviewImageSource::Quote => "quote",
        }
    }
}

impl PreviewMedia {
    pub open spec fn spec_source(&self) -> PreviewImageSource {
        match self {
            PreviewMedia::Image(image) => image.source,
            PreviewMedia::Video(video) => video.source,
        }
    }

    /// Whether the item belongs to the post or to the post it quotes.
    pub fn source_label(&self) -> (r: &'static str)
        ensures
            r@ == self.spec_source().spec_label(),
    {
        match self {
            PreviewMedia::Image(image) => image.source.label(),
            PreviewMedia::Video(video) => video.source.label(),
        }
    }
}

/// The image shown for a reference: the fullsize one when there is one, with the
/// thumbnail kept as a stand-in when it differs.
pub open spec fn spec_preview_image(image: ImageRef, source: PreviewImageSource) -> PreviewImage {
    let url = match image.fullsize_url {
        Some(full) => full,
        None => image.thumb_url,
    };
    PreviewImage {
        url,
        thumb_url: if url@ != image.thumb_url@ {
            Some(image.thumb_url)
        } else {
            None
        },
        alt: image.alt,
        source,
    }
}

pub fn preview_image_from_ref(image: &ImageRef, source: PreviewImageSource) -> (r: PreviewImage)
    ensures
        r == spec_preview_image(*image, source),
{
    let url = match &image.fullsize_url {
        Some(full) => full.clone(),
        None => image.thumb_url.clone(),
    };
    let thumb_url = if !crate::text::strings_equal(url.as_str(), image.thumb_url.as_str()) {
        Some(image.thumb_url.clone())
    } else {
        None
    };
    PreviewImage { url, thumb_url, alt: image.alt.clone(), source }
}

pub open spec fn spec_preview_video(video: VideoRef, source: PreviewImageSource) -> PreviewVideo {
    PreviewVideo {
        playlist_url: video.playlist_url,
        thumb_url: video.thumb_url,
        alt: video.alt,
        source,
        cid: video.cid,
        aspect_ratio: video.aspect_ratio,
    }
}

pub fn preview_video(video: &VideoRef, source: PreviewImageSource) -> (r: PreviewVideo)
    ensures
        r == spec_preview_video(*video, source),
{
    PreviewVideo {
        playlist_url: video.playlist_url.clone(),
        thumb_url: video.thumb_url.clone(),
        alt: video.alt.clone(),
        source,
        cid: video.cid.clone(),
        aspect_ratio: video.aspect_ratio,
    }
}

pub open spec fn images_of(images: Seq<ImageRef>, source: PreviewImageSource) -> Seq<PreviewImage> {
    images.map_values(|image: ImageRef| spec_preview_image(image, source))
}

pub open spec fn videos_of(videos: Seq<VideoRef>, source: PreviewImageSource) -> Seq<PreviewMedia> {
    videos.map_values(|video: VideoRef| PreviewMedia::Video(spec_preview_video(video, source)))
}

/// The post's own images, then those of the post it quotes.
pub open spec fn spec_preview_images(item: FeedItem) -> Seq<PreviewImage> {
    images_of(item.images@, PreviewImageSource::Post) + match item.quote {
        Some(quote) => images_of(quote.images@, PreviewImageSource::Quote),
        None => Seq::empty(),
    }
}

fn push_images(out: &mut Vec<PreviewImage>, images: &Vec<ImageRef>, source: PreviewImageSource)
    ensures
        final(out)@ == old(out)@ + images_of(images@, source),
{
    let ghost start = out@;
    let mut i: usize = 0;
    while i < images.len()
        invariant
            i <= images@.len(),
            out@ == start + images_of(images@.take(i as int), source),
        decreases images@.len() - i,
    {
        out.push(preview_image_from_ref(&images[i], source));
        proof {
            assert(images_of(images@.take(i + 1), source) =~= images_of(images@.take(i as int), source).push(spec_preview_image(images@[i as int], source)));
            assert(out@ =~= start + images_of(images@.take(i + 1), source));
        }
        i += 1;
    }
    assert(images@.take(images@.len() as int) =~= images@);
}

pub fn preview_images(item: &FeedItem) -> (r: Vec<PreviewImage>)
    ensures
        r@ == spec_preview_images(*item),
{
    let mut images: Vec<PreviewImage> = Vec::new();
    push_images(&mut images, &item.images, PreviewImageSource::Post);
    if let Some(quote) = &item.quote {
        push_images(&mut images, &quote.images, PreviewImageSource::Quote);
    } else {
        assert(images@ =~= images@ + Seq::<PreviewImage>::empty());
    }
    images
}

fn push_videos(out: &mut Vec<PreviewMedia>, videos: &Vec<VideoRef>, source: PreviewImageSource)
    ensures
        final(out)@ == old(out)@ + videos_of(videos@, source),
{
    let ghost start = out@;
    let mut i: usize = 0;
    while i < videos.len()
        invariant
            i <= videos@.len(),
            out@ == start + videos_of(videos@.take(i as int), source),
        decreases videos@.len() - i,
    {
        out.push(PreviewMedia::Video(preview_video(&videos[i], source)));
        proof {
            assert(videos_of(videos@.take(i + 1), source) =~= videos_of(videos@.take(i as int), source).push(PreviewMedia::Video(spec_preview_video(videos@[i as int], source))));
            assert(out@ =~= start + videos_of(videos@.take(i + 1), source));
        }
        i += 1;
    }
    assert(videos@.take(videos@.len() as int) =~= videos@);
}

/// Everything the media overlay lists for a post: images (the post's, then the
/// quote's), then the post's videos, then the quote's videos.
pub open spec fn spec_preview_media(item: FeedItem) -> Seq<PreviewMedia> {
    spec_preview_images(item).map_values(|image: PreviewImage| PreviewMedia::Image(image))
        + videos_of(item.videos@, PreviewImageSource::Post) + match item.quote {
        Some(quote) => videos_of(quote.videos@, PreviewImageSource::Quote),
        None => Seq::empty(),
    }
}

pub fn preview_media(item: &FeedItem) -> (r: Vec<PreviewMedia>)
    ensures
        r@ == spec_preview_media(*item),
{
    let images = preview_images(item);
    let mut media: Vec<PreviewMedia> = Vec::new();
    let mut i: usize = 0;
    for image in it: images
        invariant
            it.seq() == spec_preview_images(*item),
            media@ == it.seq().take(it.index() as int).map_values(|image: PreviewImage| PreviewMedia::Image(image)),
    {
        proof {
            assert(it.seq().take(it.index() + 1).map_values(|image: PreviewImage| PreviewMedia::Image(image))
                =~= it.seq().take(it.index() as int).map_values(|image: PreviewImage| PreviewMedia::Image(image)).push(PreviewMedia::Image(image)));
        }
        media.push(PreviewMedia::Image(image));
    }
    assert(spec_preview_images(*item).take(spec_preview_images(*item).len() as int) =~= spec_preview_images(*item));
    push_videos(&mut media, &item.videos, PreviewImageSource::Post);
    if let Some(quote) = &item.quote {
        push_videos(&mut media, &quote.videos, PreviewImageSource::Quote);
    } else {
        assert(media@ =~= media@ + Seq::<PreviewMedia>::empty());
    }
    media
}

pub open spec fn image_thumbs(images: Seq<ImageRef>) -> Seq<String> {
    images.map_values(|image: ImageRef| image.thumb_url)
}

pub open spec fn video_thumbs(videos: Seq<VideoRef>) -> Seq<String>
    decreases videos.len(),
{
    if videos.len() == 0 {
        Seq::empty()
    } else {
        match videos.last().thumb_url {
            Some(url) => video_thumbs(videos.drop_last()).push(url),
            None => video_thumbs(videos.drop_last()),
        }
    }
}

pub open spec fn optional_thumb(external: Option<crate::model::ExternalRef>) -> Seq<String> {
    match external {
        Some(e) => match e.thumb_url {
            Some(url) => seq![url],
            None => Seq::empty(),
        },
        None => Seq::empty(),
    }
}

/// Thumbnail URLs worth warming while the cursor is near a post: its image and video
/// thumbnails and link card image, then the same for the post it quotes.
pub open spec fn spec_prefetch_thumb_urls(item: FeedItem) -> Seq<String> {
    image_thumbs(item.images@) + video_thumbs(item.videos@) + optional_thumb(item.external)
        + match item.quote {
        Some(quote) => image_thumbs(quote.images@) + video_thumbs(quote.videos@) + optional_thumb(
            quote.external,
        ),
        None => Seq::empty(),
    }
}

fn push_thumbs(
    out: &mut Vec<String>,
    images: &Vec<ImageRef>,
    videos: &Vec<VideoRef>,
    external: &Option<crate::model::ExternalRef>,
)
    ensures
        final(out)@ == old(out)@ + image_thumbs(images@) + video_thumbs(videos@) + optional_thumb(
            *external,
        ),
{
    let ghost start = out@;
    let mut i: usize = 0;
    while i < images.len()
        invariant
            i <= images@.len(),
            out@ == start + image_thumbs(images@.take(i as int)),
        decreases images@.len() - i,
    {
        out.push(images[i].thumb_url.clone());
        proof {
            assert(image_thumbs(images@.take(i + 1)) =~= image_thumbs(images@.take(i as int)).push(images@[i as int].thumb_url));
            assert(out@ =~= start + image_thumbs(images@.take(i + 1)));
        }
        i += 1;
    }
    assert(images@.take(images@.len() as int) =~= images@);
    let ghost mid = out@;
    let mut j: usize = 0;
    while j < videos.len()
        invariant
            j <= videos@.len(),
            out@ == mid + video_thumbs(videos@.take(j as int)),
        decreases videos@.len() - j,
    {
        proof {
            assert(videos@.take(j + 1).drop_last() =~= videos@.take(j as int));
        }
        if let Some(url) = &videos[j].thumb_url {
            out.push(url.clone());
        }
        proof {
            assert(out@ =~= mid + video_thumbs(videos@.take(j + 1)));
        }
        j += 1;
    }
    assert(videos@.take(videos@.len() as int) =~= videos@);
    let ghost before = out@;
    if let Some(e) = external {
        if let Some(url) = &e.thumb_url {
            out.push(url.clone());
        }
    }
    assert(out@ =~= before + optional_thumb(*external));
}

pub fn prefetch_thumb_urls(item: &FeedItem) -> (r: Vec<String>)
    ensures
        r@ == spec_prefetch_thumb_urls(*item),
{
    let mut urls: Vec<String> = Vec::new();
    push_thumbs(&mut urls, &item.images, &item.videos, &item.external);
    let ghost first = urls@;
    if let Some(quote) = &item.quote {
        push_thumbs(&mut urls, &quote.images, &quote.videos, &quote.external);
        assert(urls@ =~= first + (image_thumbs(quote.images@) + video_thumbs(quote.videos@) + optional_thumb(quote.external)));
    } else {
        assert(urls@ =~= urls@ + Seq::<String>::empty());
    }
    urls
}

/// What `Sha256::digest` returns for a byte string.
pub uninterp spec fn sha256(bytes: Seq<u8>) -> Seq<u8>;

/// Calls `sha2::Sha256::digest`; the digest is a function of the bytes and is
/// 32 bytes long.
#[verifier::external_body]
fn sha256_digest(bytes: &[u8]) -> (r: Vec<u8>)
    ensures
        r@ == sha256(bytes@),
        r@.len() == 32,
{
    <sha2::Sha256 as sha2::Digest>::digest(bytes).to_vec()
}

pub open spec fn hex_digit(n: u8) -> char {
    if n < 10 {
        ((n + 48) as u8) as char
    } else {
        ((n + 87) as u8) as char
    }
}

/// Two lowercase hexadecimal digits per byte, high nibble first.
pub open spec fn hex_lower(bytes: Seq<u8>) -> Seq<char>
    decreases bytes.len(),
{
    if bytes.len() == 0 {
        Seq::empty()
    } else {
        hex_lower(bytes.drop_last()) + seq![
            hex_digit(bytes.last() / 16),
            hex_digit(bytes.last() % 16),
        ]
    }
}

/// Calls `hex::encode`, which writes each byte as two lowercase hexadecimal digits.
#[verifier::external_body]
fn hex_encode(bytes: &[u8]) -> (r: String)
    ensures
        r@ == hex_lower(bytes@),
{
    hex::encode(bytes)
}

pub open spec fn spec_cache_stem(url: &str) -> Seq<char> {
    hex_lower(sha256(url.spec_bytes()))
}

/// The file name shared by every cached form of `url`: the hexadecimal SHA-256 of it.
pub fn cache_stem(url: &str) -> (r: String)
    ensures
        r@ == spec_cache_stem(url),
{
    let digest = sha256_digest(url.as_bytes());
    hex_encode(digest.as_slice())
}

/// The file name of the cached image for `url`.
pub fn cache_key(url: &str) -> (r: String)
    ensures
        r@ == spec_cache_stem(url) + ".img"@,
{
    let mut key = cache_stem(url);
    push_str(&mut key, ".img");
    key
}


/// What the media overlay draws for the selected item.
#[derive(Debug, Clone, PartialEq, Eq)]
pub enum OverlayPicture {
    Image(PreviewImage),
    /// The decoded frames of a video (or why there are none).
    Frames(PreviewVideo),
}

/// An image is drawn as itself; a video whose frames were never
/// loaded is drawn as its thumbnail while it has one, and otherwise as its frames.
/// `video_state` is the state of the video's frames: "missing", "loading", "ready" or
/// "failed".
pub fn overlay_picture(media: &PreviewMedia, video_state: &str) -> (r: OverlayPicture)
    ensures
        match *media {
            PreviewMedia::Image(i) => r == OverlayPicture::Image(i),
            PreviewMedia::Video(v) => match v.thumb_url {
                Some(t) => if video_state@ == "missing"@ {
                    r matches OverlayPicture::Image(i) && i.url@ == t@ && i.thumb_url is None && i.alt == v.alt
                        && i.source == v.source
                } else {
                    r == OverlayPicture::Frames(v)
                },
                None => r == OverlayPicture::Frames(v),
            },
        },
{
    match media {
        PreviewMedia::Image(i) => OverlayPicture::Image(PreviewImage {
            url: i.url.clone(),
            thumb_url: clone_text(&i.thumb_url),
            alt: clone_text(&i.alt),
            source: i.source,
        }),
        PreviewMedia::Video(v) => match &v.thumb_url {
            Some(t) => if crate::text::strings_equal(video_state, "missing") {
                OverlayPicture::Image(PreviewImage { url: t.clone(), thumb_url: None, alt: clone_text(&v.alt), source: v.source })
            } else {
                OverlayPicture::Frames(v.duplicate())
            },
            None => OverlayPicture::Frames(v.duplicate()),
        },
    }
}

} // verus!
