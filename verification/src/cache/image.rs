//! Decoded images and the cache that keeps them by path.
use crate::cache::path::{key_of, path_key};
use vstd::prelude::*;

verus! {

/// The pixel bytes and dimensions of an image.
pub struct RawImageView {
    pub bytes: Seq<u8>,
    pub width: u32,
    pub height: u32,
}

/// A decoded image: `width * height` pixels of 4 bytes each.
#[derive(Debug)]
pub struct RawImage {
    image: Vec<u8>,
    width: u32,
    height: u32,
}

impl View for RawImage {
    type V = RawImageView;

    closed spec fn view(&self) -> RawImageView {
        RawImageView { bytes: self.image@, width: self.width, height: self.height }
    }
}

impl Clone for RawImage {
    fn clone(&self) -> (r: Self)
        ensures
            r@ == self@,
    {
        let image = self.image.clone();
        assert(image@ =~= self.image@);
        RawImage { image, width: self.width, height: self.height }
    }
}

/// `PixmapRef::from_bytes` accepts `len` bytes as a `width` by `height` pixmap.
pub open spec fn pixmap_accepts(len: nat, width: u32, height: u32) -> bool {
    &&& width > 0
    &&& height > 0
    &&& width * 4 <= i32::MAX
    &&& width * height * 4 <= usize::MAX
    &&& len >= width * height * 4
}

#[verifier::external_type_specification]
#[verifier::external_body]
pub struct ExPixmapRef<'a>(tiny_skia::PixmapRef<'a>);

/// The pixmap `PixmapRef::from_bytes` makes of `data` as a `width` by `height` image.
pub uninterp spec fn pixmap_of(data: Seq<u8>, width: u32, height: u32) -> tiny_skia::PixmapRef<'static>;

/// Calls `tiny_skia::PixmapRef::from_bytes`, which borrows `data` as a `width` by `height`
/// pixmap. The contract states when it gives `Some`: both dimensions nonzero, a row of
/// `width * 4` bytes within `i32`, and `data` holding at least `width * height * 4` bytes;
/// the pixmap it gives is named by the bytes and the size.
#[verifier::external_body]
fn pixmap_from_bytes(data: &[u8], width: u32, height: u32) -> (r: Option<tiny_skia::PixmapRef<'_>>)
    ensures
        r is Some <==> pixmap_accepts(data@.len(), width, height),
        r matches Some(p) ==> p == pixmap_of(data@, width, height),
{
    tiny_skia::PixmapRef::from_bytes(data, width, height)
}

/// The BGRA bytes, width and height of the image that `bytes` encode in the format that the
/// extension of `path` names, or `None` when the extension names no format or the bytes do
/// not decode in it.
pub uninterp spec fn decoded_bgra8(bytes: Seq<u8>, path: Seq<char>) -> Option<(Seq<u8>, u32, u32)>;

#[verifier::external_type_specification]
#[verifier::external_body]
pub struct ExImageError(image::ImageError);

/// Calls `image::ImageFormat::from_path` on `path` and `image::load_from_memory_with_format`
/// on `bytes` in that format, which is what `image::io::Reader::open(path)?.decode()` does
/// with the file's bytes, then converts the image with `to_bgra8` into its raw bytes and
/// dimensions. The result is named by the bytes and the path; the bytes of a decoded image
/// are its `width * height` pixels of 4 bytes (`ImageBuffer::new` sizes them so). On failure
/// the error `image` reports is returned; which error it is is not stated. That the png and
/// jpeg decoders return on every input is taken from the crate, not traced through them.
#[verifier::external_body]
fn decode_bgra8(bytes: &[u8], path: &str) -> (r: Result<(Vec<u8>, u32, u32), image::ImageError>)
    ensures
        r is Ok <==> decoded_bgra8(bytes@, path@) is Some,
        r matches Ok((p, w, h)) ==> decoded_bgra8(bytes@, path@) == Some((p@, w, h)) && p@.len()
            == w * h * 4,
{
    let format = image::ImageFormat::from_path(path)?;
    let decoded = image::load_from_memory_with_format(bytes, format)?;
    let bgra = decoded.to_bgra8();
    let (width, height) = bgra.dimensions();
    Ok((bgra.into_raw(), width, height))
}

/// Why an image could not be loaded.
#[derive(Debug)]
pub enum LoadError<E> {
    /// Reading the file failed.
    Read(E),
    /// The file's bytes do not decode as an image in the format its extension names.
    Decode(image::ImageError),
}

impl RawImage {
    /// Decodes `bytes`, read from the file at `path`, into BGRA pixels: `width * height`
    /// pixels of 4 bytes. When they do not decode, the decoding error is returned.
    pub fn decode(bytes: &[u8], path: &str) -> (r: Result<Self, image::ImageError>)
        ensures
            match decoded_bgra8(bytes@, path@) {
                Some((p, w, h)) => r matches Ok(image) && image@ == (RawImageView {
                    bytes: p,
                    width: w,
                    height: h,
                }),
                None => r is Err,
            },
            r matches Ok(image) ==> image@.bytes.len() == image@.width * image@.height * 4,
    {
        match decode_bgra8(bytes, path) {
            Ok((image, width, height)) => Ok(RawImage { image, width, height }),
            Err(e) => Err(e),
        }
    }

    /// Wraps `buf` as a `width` by `height` image when its length, taken modulo 2^32, is
    /// `width * height * 4`.
    pub fn from_raw(buf: Vec<u8>, width: u32, height: u32) -> (r: Option<Self>)
        requires
            width * height * 4 <= u32::MAX,
        ensures
            r is Some <==> width * height * 4 == buf@.len() % 0x1_0000_0000,
            r matches Some(image) ==> image@ == (RawImageView { bytes: buf@, width, height }),
    {
        let expected: u32 = width * height * 4;
        let len = buf.len() as u64 % 0x1_0000_0000u64;
        if expected as u64 == len {
            Some(Self { image: buf, width, height })
        } else {
            None
        }
    }

    /// The image as a tiny-skia pixmap.
    pub fn pixmap(&self) -> (r: tiny_skia::PixmapRef<'_>)
        requires
            pixmap_accepts(self@.bytes.len(), self@.width, self@.height),
        ensures
            r == pixmap_of(self@.bytes, self@.width, self@.height),
    {
        match pixmap_from_bytes(self.image.as_slice(), self.width, self.height) {
            Some(pixmap) => pixmap,
            None => {
                proof {
                    assert(false);
                }
                vstd::pervasive::unreached()
            },
        }
    }

    pub fn width(&self) -> (r: u32)
        ensures
            r == self@.width,
    {
        self.width
    }

    pub fn height(&self) -> (r: u32)
        ensures
            r == self@.height,
    {
        self.height
    }

    /// The pixel bytes.
    pub fn as_ref(&self) -> (r: &[u8])
        ensures
            r@ == self@.bytes,
    {
        self.image.as_slice()
    }
}

/// The images of `entries` by path; a later entry for a path replaces an earlier one.
pub open spec fn map_of(entries: Seq<(String, RawImage)>) -> Map<Seq<char>, RawImageView>
    decreases entries.len(),
{
    if entries.len() == 0 {
        Map::empty()
    } else {
        map_of(entries.drop_last()).insert(entries.last().0@, entries.last().1@)
    }
}

/// No two entries share a path.
pub open spec fn distinct_paths(entries: Seq<(String, RawImage)>) -> bool {
    forall|i: int, j: int|
        0 <= i < entries.len() && 0 <= j < entries.len() && i != j ==> #[trigger] entries[i].0@
            != #[trigger] entries[j].0@
}

/// With distinct paths, the entry at `i` is what the map holds for its path, and a path that no
/// entry has is not in the map.
proof fn lemma_map_of_lookup(entries: Seq<(String, RawImage)>, key: Seq<char>)
    requires
        distinct_paths(entries),
    ensures
        map_of(entries).contains_key(key) <==> exists|i: int|
            0 <= i < entries.len() && #[trigger] entries[i].0@ == key,
        forall|i: int|
            0 <= i < entries.len() && #[trigger] entries[i].0@ == key ==> map_of(entries)[key]
                == entries[i].1@,
    decreases entries.len(),
{
    if entries.len() > 0 {
        let init = entries.drop_last();
        assert(distinct_paths(init)) by {
            assert forall|i: int, j: int|
                0 <= i < init.len() && 0 <= j < init.len() && i != j implies #[trigger] init[i].0@
                != #[trigger] init[j].0@ by {
                assert(init[i] == entries[i]);
                assert(init[j] == entries[j]);
            }
        }
        lemma_map_of_lookup(init, key);
        let last = entries.len() - 1;
        if exists|i: int| 0 <= i < init.len() && #[trigger] init[i].0@ == key {
            let i = choose|i: int| 0 <= i < init.len() && #[trigger] init[i].0@ == key;
            assert(entries[i] == init[i]);
        }
        assert forall|i: int|
            0 <= i < entries.len() && #[trigger] entries[i].0@ == key implies map_of(entries)[key]
            == entries[i].1@ by {
            if i < last {
                assert(entries[i] == init[i]);
                assert(entries[last].0@ != entries[i].0@);
            }
        }
        if entries.last().0@ == key {
            assert(entries[last].0@ == key);
        } else {
            if map_of(entries).contains_key(key) {
                let i = choose|i: int| 0 <= i < init.len() && #[trigger] init[i].0@ == key;
                assert(entries[i] == init[i]);
            }
            if exists|i: int| 0 <= i < entries.len() && #[trigger] entries[i].0@ == key {
                let i = choose|i: int| 0 <= i < entries.len() && #[trigger] entries[i].0@ == key;
                assert(i != last);
                assert(entries[i] == init[i]);
            }
        }
    }
}

/// The image of a successful load, by its view.
pub open spec fn ok_view<E>(r: Result<RawImage, LoadError<E>>) -> Option<RawImageView> {
    match r {
        Ok(image) => Some(image@),
        Err(_) => None,
    }
}

/// What loading the image of `path` after a cache miss gives, from what reading the file gave:
/// a read error is returned; bytes that decode are kept under the path's key and returned;
/// other bytes are refused.
pub open spec fn load_outcome<E>(
    read_result: Result<Vec<u8>, E>,
    path: Seq<char>,
    before: Map<Seq<char>, RawImageView>,
    after: Map<Seq<char>, RawImageView>,
    r: Result<RawImage, LoadError<E>>,
) -> bool {
    match read_result {
        Err(e) => r == Err::<RawImage, LoadError<E>>(LoadError::Read(e)) && after == before,
        Ok(bytes) => match decoded_bgra8(bytes@, path) {
            Some((p, w, h)) => {
                let image = RawImageView { bytes: p, width: w, height: h };
                &&& r matches Ok(got) && got@ == image
                &&& after == before.insert(path_key(path), image)
            },
            None => r matches Err(LoadError::Decode(_)) && after == before,
        },
    }
}

/// One `get` of a path with key `path` on a cache holding `before`, which returned `outcome` (the image on
/// success) and left `after`: a cached image is returned and the cache stays; otherwise a
/// success keeps what it returned and a failure keeps nothing.
pub open spec fn get_step(
    before: Map<Seq<char>, RawImageView>,
    path: Seq<char>,
    outcome: Option<RawImageView>,
    after: Map<Seq<char>, RawImageView>,
) -> bool {
    if before.contains_key(path) {
        outcome == Some(before[path]) && after == before
    } else {
        match outcome {
            Some(image) => after == before.insert(path, image),
            None => after == before,
        }
    }
}

/// Decoded images kept by path.
pub struct ImageCache {
    cache: Vec<(String, RawImage)>,
}

impl View for ImageCache {
    type V = Map<Seq<char>, RawImageView>;

    closed spec fn view(&self) -> Map<Seq<char>, RawImageView> {
        map_of(self.cache@)
    }
}

impl Default for ImageCache {
    fn default() -> (r: Self)
        ensures
            r@ == Map::<Seq<char>, RawImageView>::empty(),
    {
        Self { cache: Vec::new() }
    }
}

impl ImageCache {
    #[verifier::type_invariant]
    spec fn wf(&self) -> bool {
        &&& distinct_paths(self.cache@)
        &&& forall|i: int|
            0 <= i < self.cache@.len() ==> #[trigger] self.cache@[i].1@.bytes.len()
                == self.cache@[i].1@.width * self.cache@[i].1@.height * 4
    }

    /// The position of the entry for `key`.
    fn find(&self, key: &String) -> (r: Option<usize>)
        ensures
            r matches Some(i) ==> i < self.cache@.len() && self.cache@[i as int].0@ == key@,
            r is None ==> forall|i: int|
                0 <= i < self.cache@.len() ==> #[trigger] self.cache@[i].0@ != key@,
    {
        let mut i: usize = 0;
        while i < self.cache.len()
            invariant
                i <= self.cache@.len(),
                forall|j: int| 0 <= j < i ==> #[trigger] self.cache@[j].0@ != key@,
            decreases self.cache@.len() - i,
        {
            if self.cache[i].0 == *key {
                return Some(i);
            }
            i = i + 1;
        }
        None
    }

    /// The cached image for `path`, found by the path's key.
    pub fn try_get(&self, path: &str) -> (r: Option<&RawImage>)
        ensures
            r is Some <==> self@.contains_key(path_key(path@)),
            r matches Some(image) ==> image@ == self@[path_key(path@)],
    {
        let key = key_of(path);
        proof {
            use_type_invariant(self);
            lemma_map_of_lookup(self.cache@, key@);
        }
        match self.find(&key) {
            Some(i) => Some(&self.cache[i].1),
            None => None,
        }
    }

    /// Returns the cached image for `path`, found by the path's key; when there is none, calls
    /// `read` for the file's bytes, decodes them and keeps the image under the key. A read error or bytes that do not
    /// decode are returned as errors and nothing is kept.
    pub fn get<E, F: FnOnce() -> Result<Vec<u8>, E>>(&mut self, path: &str, read: F) -> (r: Result<
        RawImage,
        LoadError<E>,
    >)
        requires
            !old(self)@.contains_key(path_key(path@)) ==> call_requires(read, ()),
        ensures
            old(self)@.contains_key(path_key(path@)) ==> (r matches Ok(image) && image@ == old(
                self,
            )@[path_key(path@)] && final(self)@ == old(self)@),
            !old(self)@.contains_key(path_key(path@)) ==> exists|read_result: Result<Vec<u8>, E>|
                #[trigger] call_ensures(read, (), read_result) && load_outcome(
                    read_result,
                    path@,
                    old(self)@,
                    final(self)@,
                    r,
                ),
            get_step(old(self)@, path_key(path@), ok_view(r), final(self)@),
            r matches Ok(image) ==> image@.bytes.len() == image@.width * image@.height * 4,
    {
        let key = key_of(path);
        proof {
            use_type_invariant(&*self);
            lemma_map_of_lookup(self.cache@, key@);
        }
        match self.find(&key) {
            Some(i) => Ok(self.cache[i].1.clone()),
            None => {
                let read_result = read();
                let loaded = match read_result {
                    Ok(bytes) => match RawImage::decode(bytes.as_slice(), path) {
                        Ok(raw) => Ok(raw),
                        Err(e) => Err(LoadError::Decode(e)),
                    },
                    Err(e) => Err(LoadError::Read(e)),
                };
                match loaded {
                    Ok(raw) => {
                        let kept = raw.clone();
                        let ghost before = self.cache@;
                        let entry = (key, kept);
                        proof {
                            assert(distinct_paths(before.push(entry))) by {
                                assert forall|i: int, j: int|
                                    0 <= i < before.push(entry).len() && 0 <= j < before.push(
                                        entry,
                                    ).len() && i != j implies #[trigger] before.push(entry)[i].0@
                                    != #[trigger] before.push(entry)[j].0@ by {
                                    if i < before.len() && j < before.len() {
                                        assert(before.push(entry)[i] == before[i]);
                                        assert(before.push(entry)[j] == before[j]);
                                    } else if i < before.len() {
                                        assert(before.push(entry)[i] == before[i]);
                                    } else {
                                        assert(before.push(entry)[j] == before[j]);
                                    }
                                }
                            }
                        }
                        let mut entries: Vec<(String, RawImage)> = Vec::new();
                        std::mem::swap(&mut entries, &mut self.cache);
                        entries.push(entry);
                        proof {
                            assert(entries@.drop_last() =~= before);
                        }
                        self.cache = entries;
                        Ok(raw)
                    },
                    Err(e) => Err(e),
                }
            },
        }
    }
}

/// What is kept for a path is what a later lookup of that path finds, and keeping it leaves
/// every other path as it was.
pub proof fn lemma_cache_read_after_write(
    cache: Map<Seq<char>, RawImageView>,
    path: Seq<char>,
    image: RawImageView,
    other: Seq<char>,
)
    requires
        other != path,
    ensures
        cache.insert(path, image).contains_key(path),
        cache.insert(path, image)[path] == image,
        cache.insert(path, image).contains_key(other) == cache.contains_key(other),
        cache.contains_key(other) ==> cache.insert(path, image)[other] == cache[other],
{
}

/// Over any history of `get` calls on a cache that started empty: a path (by its key) is cached
/// exactly when some `get` of it succeeded, and what is cached for it is what every successful
/// `get` of it returned, which `try_get` then finds. `caches[i]` is the cache before call `i`,
/// and `calls[i]` the key of its path and the image returned (`None` on failure).
pub proof fn lemma_cache_history(
    calls: Seq<(Seq<char>, Option<RawImageView>)>,
    caches: Seq<Map<Seq<char>, RawImageView>>,
    path: Seq<char>,
)
    requires
        caches.len() == calls.len() + 1,
        caches[0] == Map::<Seq<char>, RawImageView>::empty(),
        forall|i: int|
            0 <= i < calls.len() ==> get_step(
                #[trigger] caches[i],
                calls[i].0,
                calls[i].1,
                caches[i + 1],
            ),
    ensures
        caches.last().contains_key(path) <==> exists|i: int|
            0 <= i < calls.len() && #[trigger] calls[i].0 == path && calls[i].1 is Some,
        forall|i: int|
            0 <= i < calls.len() && #[trigger] calls[i].0 == path && calls[i].1 is Some
                ==> caches.last()[path] == calls[i].1->0,
    decreases calls.len(),
{
    if calls.len() > 0 {
        let n = calls.len() - 1;
        let init_calls = calls.drop_last();
        let init_caches = caches.drop_last();
        assert forall|i: int| 0 <= i < init_calls.len() implies get_step(
            #[trigger] init_caches[i],
            init_calls[i].0,
            init_calls[i].1,
            init_caches[i + 1],
        ) by {
            assert(init_caches[i] == caches[i]);
            assert(init_caches[i + 1] == caches[i + 1]);
            assert(init_calls[i] == calls[i]);
            assert(get_step(caches[i], calls[i].0, calls[i].1, caches[i + 1]));
        }
        lemma_cache_history(init_calls, init_caches, path);
        let before = caches[n];
        assert(init_caches.last() == before);
        assert(get_step(caches[n], calls[n].0, calls[n].1, caches[n + 1]));
        assert(caches.last() == caches[n + 1]);
        if exists|i: int| 0 <= i < init_calls.len() && #[trigger] init_calls[i].0 == path
            && init_calls[i].1 is Some {
            let i = choose|i: int|
                0 <= i < init_calls.len() && #[trigger] init_calls[i].0 == path
                    && init_calls[i].1 is Some;
            assert(calls[i] == init_calls[i]);
        }
        if caches.last().contains_key(path) && !before.contains_key(path) {
            assert(calls[n].0 == path && calls[n].1 is Some);
        }
        if exists|i: int| 0 <= i < calls.len() && #[trigger] calls[i].0 == path
            && calls[i].1 is Some {
            let i = choose|i: int|
                0 <= i < calls.len() && #[trigger] calls[i].0 == path && calls[i].1 is Some;
            if i < n {
                assert(init_calls[i] == calls[i]);
            }
        }
        assert forall|i: int|
            0 <= i < calls.len() && #[trigger] calls[i].0 == path && calls[i].1 is Some
                implies caches.last()[path] == calls[i].1->0 by {
            if i < n {
                assert(init_calls[i] == calls[i]);
            }
        }
    }
}

} // verus!
