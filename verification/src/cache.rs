use vstd::prelude::*;

verus! {

/// The format hint carried with fetched image bytes.
#[derive(Clone, Copy, Debug, PartialEq, Eq, Structural)]
pub enum ImageFormat {
    Png,
    Jpeg,
    Gif,
    Bmp,
    Webp,
}

/// The result of a successful fetch: the raw image bytes plus a format hint,
/// consumed exactly once by either an explicit save or the cache.
#[derive(Debug)]
pub struct ImageHandle {
    pub bytes: Vec<u8>,
    pub format: ImageFormat,
}

/// The file extension the cache uses for each format.
pub open spec fn extension_of(format: ImageFormat) -> Seq<char> {
    match format {
        ImageFormat::Png => "png"@,
        ImageFormat::Jpeg => "jpg"@,
        ImageFormat::Gif => "gif"@,
        ImageFormat::Bmp => "bmp"@,
        ImageFormat::Webp => "webp"@,
    }
}

pub fn extension(format: ImageFormat) -> (r: &'static str)
    ensures
        r@ == extension_of(format),
{
    match format {
        ImageFormat::Png => "png",
        ImageFormat::Jpeg => "jpg",
        ImageFormat::Gif => "gif",
        ImageFormat::Bmp => "bmp",
        ImageFormat::Webp => "webp",
    }
}

/// One step of the 64-bit FNV-1a hash: fold one byte into the state.
pub open spec fn content_step(h: u64, b: u8) -> u64 {
    vstd::wrapping::u64_specs::wrapping_mul(h ^ (b as u64), 0x100000001b3u64)
}

/// The 64-bit FNV-1a hash of the first `n` bytes.
pub open spec fn content_id_upto(bytes: Seq<u8>, n: int) -> u64
    decreases n,
{
    if n <= 0 {
        0xcbf29ce484222325u64
    } else {
        content_step(content_id_upto(bytes, n - 1), bytes[n - 1])
    }
}

/// The stable content identifier of an image: the 64-bit FNV-1a hash of its
/// bytes. A pure function of the content, so identical bytes always map to
/// the same identifier.
pub open spec fn content_id(bytes: Seq<u8>) -> u64 {
    content_id_upto(bytes, bytes.len() as int)
}

pub fn compute_content_id(bytes: &Vec<u8>) -> (h: u64)
    ensures
        h == content_id(bytes@),
{
    let mut h: u64 = 0xcbf29ce484222325;
    let mut i: usize = 0;
    while i < bytes.len()
        invariant
            i <= bytes.len(),
            h == content_id_upto(bytes@, i as int),
        decreases bytes.len() - i,
    {
        h = (h ^ (bytes[i] as u64)).wrapping_mul(0x100000001b3);
        i = i + 1;
    }
    h
}

/// The character for one hex digit value (`0..=15`).
pub open spec fn hex_digit(d: u64) -> char {
    if d < 10 {
        ((d + 48) as u8) as char
    } else {
        ((d + 87) as u8) as char
    }
}

/// The 16 hex digits of a 64-bit identifier, most significant first.
pub open spec fn hex_of(h: u64) -> Seq<char> {
    Seq::new(16, |i: int| hex_digit((h >> (((15 - i) * 4) as u64)) & 0xf))
}

fn hex_digit_str(d: u64) -> (r: &'static str)
    requires
        d < 16,
    ensures
        r@.len() == 1,
        r@[0] == hex_digit(d),
{
    proof {
        reveal_strlit("0");
        reveal_strlit("1");
        reveal_strlit("2");
        reveal_strlit("3");
        reveal_strlit("4");
        reveal_strlit("5");
        reveal_strlit("6");
        reveal_strlit("7");
        reveal_strlit("8");
        reveal_strlit("9");
        reveal_strlit("a");
        reveal_strlit("b");
        reveal_strlit("c");
        reveal_strlit("d");
        reveal_strlit("e");
        reveal_strlit("f");
    }
    if d == 0 {
        "0"
    } else if d == 1 {
        "1"
    } else if d == 2 {
        "2"
    } else if d == 3 {
        "3"
    } else if d == 4 {
        "4"
    } else if d == 5 {
        "5"
    } else if d == 6 {
        "6"
    } else if d == 7 {
        "7"
    } else if d == 8 {
        "8"
    } else if d == 9 {
        "9"
    } else if d == 10 {
        "a"
    } else if d == 11 {
        "b"
    } else if d == 12 {
        "c"
    } else if d == 13 {
        "d"
    } else if d == 14 {
        "e"
    } else {
        "f"
    }
}

pub fn hex_name(h: u64) -> (s: String)
    ensures
        s@ == hex_of(h),
{
    let mut s = String::new();
    let mut i: usize = 0;
    while i < 16
        invariant
            i <= 16,
            s@.len() == i,
            forall|j: int| 0 <= j < i ==> s@[j] == hex_of(h)[j],
        decreases 16 - i,
    {
        let sh: u64 = ((15 - i) as u64) * 4;
        let d: u64 = (h >> sh) & 0xf;
        assert(d < 16) by (bit_vector)
            requires
                d == (h >> sh) & 0xf,
        ;
        s.append(hex_digit_str(d));
        i = i + 1;
    }
    proof {
        assert(s@ =~= hex_of(h));
    }
    s
}

/// The file name under which content is cached: the hex content identifier
/// followed by the format's extension.
pub open spec fn cache_file_name_of(bytes: Seq<u8>, format: ImageFormat) -> Seq<char> {
    hex_of(content_id(bytes)) + "."@ + extension_of(format)
}

pub fn cache_file_name(image: &ImageHandle) -> (name: String)
    ensures
        name@ == cache_file_name_of(image.bytes@, image.format),
{
    let id = compute_content_id(&image.bytes);
    let mut s = hex_name(id);
    s.append(".");
    s.append(extension(image.format));
    s
}

/// The cache location for an image: its content-addressed file name under
/// the cache root.
pub open spec fn cache_path_of(cache_root: Seq<char>, bytes: Seq<u8>, format: ImageFormat) -> Seq<
    char,
> {
    cache_root + "/"@ + cache_file_name_of(bytes, format)
}

pub fn cache_path(cache_root: &str, image: &ImageHandle) -> (path: String)
    ensures
        path@ == cache_path_of(cache_root@, image.bytes@, image.format),
{
    let mut s = cache_root.to_owned();
    s.append("/");
    let name = cache_file_name(image);
    s.append(name.as_str());
    s
}

/// Law: the cache is content-addressed. Two images whose bytes and format
/// agree are mapped to the same path under the same cache root, so caching
/// the same content twice yields the same path and an idempotent write
/// rather than a second file.
pub proof fn lemma_cache_path_deterministic(
    root: Seq<char>,
    b1: Seq<u8>,
    f1: ImageFormat,
    b2: Seq<u8>,
    f2: ImageFormat,
)
    requires
        b1 == b2,
        f1 == f2,
    ensures
        cache_path_of(root, b1, f1) == cache_path_of(root, b2, f2),
{
}

} // verus!
