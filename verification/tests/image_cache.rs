use snui::cache::path::key_of;
use snui::cache::image::{ImageCache, LoadError, RawImage};
use snui::widgets::image::InnerImage;
use std::cell::Cell;

#[test]
fn raw_image_from_raw_checks_length() {
    assert!(RawImage::from_raw(vec![0; 16], 2, 2).is_some());
    assert!(RawImage::from_raw(vec![0; 15], 2, 2).is_none());
    assert!(RawImage::from_raw(vec![], 0, 0).is_some());
    assert!(RawImage::from_raw(vec![1; 12], 3, 1).is_some());
    let image = RawImage::from_raw(vec![1, 2, 3, 4, 5, 6, 7, 8], 2, 1).unwrap();
    assert_eq!(image.width(), 2);
    assert_eq!(image.height(), 1);
    assert_eq!(image.as_ref(), &[1, 2, 3, 4, 5, 6, 7, 8]);
}

#[test]
fn raw_image_pixmap_has_its_size() {
    let image = RawImage::from_raw(vec![9; 24], 3, 2).unwrap();
    let pixmap = image.pixmap();
    assert_eq!(pixmap.width(), 3);
    assert_eq!(pixmap.height(), 2);
    assert_eq!(pixmap.data(), image.as_ref());
}

fn png(width: u32, height: u32, rgba: [u8; 4]) -> Vec<u8> {
    let buffer = image::RgbaImage::from_pixel(width, height, image::Rgba(rgba));
    let mut bytes = Vec::new();
    image::DynamicImage::ImageRgba8(buffer)
        .write_to(&mut bytes, image::ImageOutputFormat::Png)
        .unwrap();
    bytes
}

#[test]
fn raw_image_decodes_to_bgra() {
    let bytes = png(2, 1, [1, 2, 3, 4]);
    let image = RawImage::decode(&bytes, "dot.png").unwrap();
    assert_eq!((image.width(), image.height()), (2, 1));
    assert_eq!(image.as_ref(), &[3, 2, 1, 4, 3, 2, 1, 4]);
    // The format comes from the extension.
    assert_eq!(image.as_ref().len(), 4 * 2 * 1);
    assert!(RawImage::decode(&bytes, "dot").is_err());
    assert!(RawImage::decode(&bytes, "dot.jpg").is_err());
    assert!(RawImage::decode(&[1, 2, 3], "dot.png").is_err());
}

#[test]
fn inner_image_decodes_fitted() {
    let bytes = png(1, 2, [10, 20, 30, 40]);
    let inner = InnerImage::decode(&bytes, "a/b.PNG").unwrap();
    assert_eq!(inner.as_ref(), &[30, 20, 10, 40, 30, 20, 10, 40]);
    assert_eq!((inner.width(), inner.height()), (1, 2));
    assert_eq!(inner.as_ref().len(), 4 * 1 * 2);
    assert!(InnerImage::decode(&bytes, "a/b.txt").is_err());
}

#[test]
fn image_cache_loads_once() {
    let mut cache = ImageCache::default();
    assert!(cache.try_get("a.png").is_none());
    let calls = Cell::new(0);
    let first = cache
        .get("a.png", || -> Result<Vec<u8>, ()> {
            calls.set(calls.get() + 1);
            Ok(png(1, 1, [5, 6, 7, 8]))
        })
        .unwrap();
    assert_eq!(first.as_ref(), &[7, 6, 5, 8]);
    assert_eq!(calls.get(), 1);
    let second = cache
        .get("a.png", || -> Result<Vec<u8>, ()> {
            calls.set(calls.get() + 1);
            Ok(png(1, 1, [9, 9, 9, 9]))
        })
        .unwrap();
    assert_eq!(second.as_ref(), &[7, 6, 5, 8]);
    assert_eq!(calls.get(), 1);
    assert_eq!(cache.try_get("a.png").unwrap().as_ref(), &[7, 6, 5, 8]);
}

#[test]
fn image_cache_keeps_nothing_on_error() {
    let mut cache = ImageCache::default();
    let r = cache.get("missing.png", || -> Result<Vec<u8>, &'static str> { Err("no such file") });
    assert!(matches!(r, Err(LoadError::Read("no such file"))));
    assert!(cache.try_get("missing.png").is_none());
    let bad = cache.get("bad.png", || -> Result<Vec<u8>, &'static str> { Ok(vec![0, 1, 2]) });
    assert!(matches!(bad, Err(LoadError::Decode(_))));
    assert!(cache.try_get("bad.png").is_none());
    let ok = cache.get("b.png", || -> Result<Vec<u8>, &'static str> { Ok(png(2, 1, [1; 4])) });
    assert!(ok.is_ok());
    assert!(cache.try_get("b.png").is_some());
    assert!(cache.try_get("missing.png").is_none());
    assert!(cache.try_get("c.png").is_none());
}

#[test]
fn paths_are_keyed_by_components() {
    assert_eq!(key_of("a//b.png"), "a/b.png");
    assert_eq!(key_of("a/./b.png"), "a/b.png");
    assert_eq!(key_of("a/b/"), "a/b");
    assert_eq!(key_of("./a"), "./a");
    assert_eq!(key_of("/./a//"), "/a");
    assert_eq!(key_of("//"), "/");
    assert_eq!(key_of("."), ".");
    assert_eq!(key_of(""), "");
    assert_eq!(key_of("../x"), "../x");
    let mut cache = ImageCache::default();
    assert!(cache.get("img//dot.png", || -> Result<Vec<u8>, ()> { Ok(png(1, 1, [1, 2, 3, 4])) }).is_ok());
    assert!(cache.try_get("img/dot.png").is_some());
    assert!(cache.try_get("img/./dot.png").is_some());
    assert!(cache.try_get("img/dot.png/").is_some());
    assert!(cache.try_get("dot.png").is_none());
}
