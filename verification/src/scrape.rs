//! What the library reads out of fetched pages and photo metadata.
//!
//! Fetching itself is the unverified shell's job; everything here works on
//! the page text (or a URL, a content type, a title) it was handed.

use vstd::prelude::*;
use vstd::string::StringExecFns;

use crate::errors::PhotoError;
use crate::text::after_last;
use crate::text::chars_vec;
use crate::text::contains_sub;
use crate::text::ends_with;
use crate::text::ends_with_exec;
use crate::text::find_from;
use crate::text::first_match_from;
use crate::text::has_sub;
use crate::text::last_index_of;
use crate::text::lemma_first_match_bounds;
use crate::text::lemma_first_match_in_suffix;
use crate::text::lemma_last_index_of_bounds;
use crate::text::lower;
use crate::text::lower_exec;
use crate::text::rfind_char;
use crate::text::second_piece;
use crate::text::second_piece_exec;
use crate::text::slice_range;
use crate::text::split_pieces;
use crate::text::starts_with;
use crate::text::starts_with_exec;
use crate::text::string_of_chars;
use crate::text::up_to_first;
use crate::text::up_to_first_exec;

verus! {

/// The photo of the day, as read off its page.
#[derive(Debug)]
pub struct PhotoInfo {
    /// Where the full-size image lives.
    pub image_url: String,
    /// The display title of the photo.
    pub title: String,
}

/// A batch of photos read off a collection page.
#[derive(Debug)]
pub struct PhotoCollection {
    /// The collection's display name.
    pub name: String,
    /// The photos of the collection, in page order.
    pub photos: Vec<PhotoInfo>,
}

/// The tally of one collection download.
#[derive(Debug, PartialEq, Eq, Structural)]
pub struct CollectionDownloadResult {
    /// Files fetched and kept.
    pub downloaded: usize,
    /// Files skipped: already present, or discarded as thumbnails.
    pub skipped: usize,
    /// Files whose download failed.
    pub failed: usize,
}

/// The smallest file size (in bytes) kept when downloading a collection;
/// anything smaller is discarded as a thumbnail or icon.
pub const MIN_PHOTO_SIZE_BYTES: u64 = 50_000;

/// Whether a downloaded file is large enough to keep.
pub fn photo_size_acceptable(size: u64) -> (b: bool)
    ensures
        b == (size >= MIN_PHOTO_SIZE_BYTES),
{
    size >= MIN_PHOTO_SIZE_BYTES
}

/// The file extension for a `Content-Type` header value.
///
/// The decision goes by substring, so parameters (say, a charset suffix) do
/// not matter; `jpeg` wins over `png` over `gif`, and anything else is
/// rejected with the content type echoed back.
pub fn get_extension_from_content_type(content_type: &str) -> (r: Result<String, PhotoError>)
    ensures
        has_sub(content_type@, "jpeg"@) ==> (r matches Ok(s) && s@ == "jpg"@),
        !has_sub(content_type@, "jpeg"@) && has_sub(content_type@, "png"@) ==> (r matches Ok(s)
            && s@ == "png"@),
        !has_sub(content_type@, "jpeg"@) && !has_sub(content_type@, "png"@) && has_sub(
            content_type@,
            "gif"@,
        ) ==> (r matches Ok(s) && s@ == "gif"@),
        !has_sub(content_type@, "jpeg"@) && !has_sub(content_type@, "png"@) && !has_sub(
            content_type@,
            "gif"@,
        ) ==> (r matches Err(e) && e matches PhotoError::InvalidContentType(m) && m@
            == content_type@),
{
    let v = chars_vec(content_type);
    if contains_sub(&v, &chars_vec("jpeg")) {
        Ok(String::from_str("jpg"))
    } else if contains_sub(&v, &chars_vec("png")) {
        Ok(String::from_str("png"))
    } else if contains_sub(&v, &chars_vec("gif")) {
        Ok(String::from_str("gif"))
    } else {
        Err(PhotoError::InvalidContentType(String::from_str(content_type)))
    }
}

/// One title character after sanitizing: path separators and spaces become
/// underscores, colons are dropped, and pipes become dashes.
pub open spec fn sanitize_char(c: char) -> Seq<char> {
    if c == '/' || c == ' ' {
        seq!['_']
    } else if c == ':' {
        Seq::empty()
    } else if c == '|' {
        seq!['-']
    } else {
        seq![c]
    }
}

/// The whole title after character sanitizing, before the length cap.
pub open spec fn sanitize_all(s: Seq<char>) -> Seq<char>
    decreases s.len(),
{
    if s.len() == 0 {
        Seq::empty()
    } else {
        sanitize_char(s[0]) + sanitize_all(s.drop_first())
    }
}

/// A title as it may appear in a file name: sanitized and capped at 100
/// characters.
pub open spec fn spec_sanitize_title(s: Seq<char>) -> Seq<char> {
    let t = sanitize_all(s);
    if t.len() <= 100 {
        t
    } else {
        t.take(100)
    }
}

proof fn lemma_sanitize_all_push(s: Seq<char>, c: char)
    ensures
        sanitize_all(s.push(c)) == sanitize_all(s) + sanitize_char(c),
    decreases s.len(),
{
    if s.len() == 0 {
        assert(s.push(c).drop_first() =~= Seq::<char>::empty());
        assert(s.push(c)[0] == c);
        assert(sanitize_all(s.push(c)) == sanitize_char(c) + sanitize_all(Seq::<char>::empty()));
        assert(sanitize_all(Seq::<char>::empty()) == Seq::<char>::empty());
        assert(sanitize_all(s) == Seq::<char>::empty());
        assert(sanitize_char(c) + Seq::<char>::empty() =~= Seq::<char>::empty() + sanitize_char(c));
    } else {
        assert(s.push(c).drop_first() =~= s.drop_first().push(c));
        lemma_sanitize_all_push(s.drop_first(), c);
        assert(s.push(c)[0] == s[0]);
        assert(sanitize_all(s.push(c)) =~= sanitize_all(s) + sanitize_char(c));
    }
}

/// Make a title safe for use in a file name.
pub fn sanitize_title(title: &str) -> (r: String)
    ensures
        r@ == spec_sanitize_title(title@),
{
    let v = chars_vec(title);
    let n = v.len();
    let mut out: Vec<char> = Vec::new();
    let mut i: usize = 0;
    while i < n
        invariant
            n == v@.len(),
            i <= n,
            out@ == spec_sanitize_title(v@.take(i as int)),
            out@.len() <= 100,
        decreases n - i,
    {
        proof {
            assert(v@.take(i + 1) =~= v@.take(i as int).push(v@[i as int]));
            lemma_sanitize_all_push(v@.take(i as int), v@[i as int]);
        }
        let c = v[i];
        if out.len() < 100 {
            if c == '/' || c == ' ' {
                out.push('_');
            } else if c == ':' {
                // dropped
            } else if c == '|' {
                out.push('-');
            } else {
                out.push(c);
            }
            proof {
                assert(out@ =~= spec_sanitize_title(v@.take(i + 1)));
            }
        } else {
            proof {
                let t = sanitize_all(v@.take(i as int));
                assert(t.len() >= 100);
                assert(out@ == t.take(100));
                assert((t + sanitize_char(v@[i as int])).take(100) =~= t.take(100));
            }
        }
        i = i + 1;
    }
    proof {
        assert(v@.take(n as int) =~= v@);
    }
    string_of_chars(out.as_slice())
}

/// The last path segment of a URL: the collection's name in the URLs the
/// downloader is pointed at (empty for a URL with a trailing slash).
pub fn extract_collection_name_from_url(url: &str) -> (r: String)
    ensures
        r@ == after_last(url@, '/'),
{
    let v = chars_vec(url);
    let n = v.len();
    let start: usize = match rfind_char(&v, '/') {
        Some(d) => d + 1,
        None => 0,
    };
    proof {
        lemma_last_index_of_bounds(v@, '/');
    }
    let tail = slice_range(&v, start, n);
    string_of_chars(tail.as_slice())
}

/// Whether a file name looks like a "best of photo of the day" collection
/// photo, compared without regard to ASCII case.
pub open spec fn spec_is_collection_photo(name: Seq<char>) -> bool {
    has_sub(lower(name), "best-pod"@) || has_sub(lower(name), "best_pod"@)
}

/// Whether a file name belongs to a collection batch.
pub fn is_collection_photo_filename(filename: &str) -> (b: bool)
    ensures
        b == spec_is_collection_photo(filename@),
{
    let v = chars_vec(filename);
    let low = lower_exec(&v);
    contains_sub(&low, &chars_vec("best-pod")) || contains_sub(&low, &chars_vec("best_pod"))
}

/// The title a photo URL falls back to: the file name without its
/// extension.
pub open spec fn spec_title_from_url(url: Seq<char>) -> Seq<char> {
    up_to_first(after_last(url, '/'), seq!['.'])
}

/// Read a fallback title out of a photo URL.
pub fn title_from_url(url: &str) -> (r: String)
    ensures
        r@ == spec_title_from_url(url@),
{
    let v = chars_vec(url);
    let n = v.len();
    let start: usize = match rfind_char(&v, '/') {
        Some(d) => d + 1,
        None => 0,
    };
    proof {
        lemma_last_index_of_bounds(v@, '/');
    }
    let name = slice_range(&v, start, n);
    let mut dot: Vec<char> = Vec::new();
    dot.push('.');
    proof {
        assert(dot@ =~= seq!['.']);
    }
    let stem = up_to_first_exec(&name, &dot);
    string_of_chars(stem.as_slice())
}

/// The text of a page's meta tag with the given property marker: the
/// second piece of splitting on the marker, then on `content="`, cut at the
/// closing quote. Empty when the marker or its content is missing.
pub open spec fn spec_og_content(body: Seq<char>, prop: Seq<char>) -> Seq<char> {
    match second_piece(body, prop) {
        None => Seq::empty(),
        Some(s1) => match second_piece(s1, "content=\""@) {
            None => Seq::empty(),
            Some(s2) => up_to_first(s2, "\""@),
        },
    }
}

/// Read the content of a page's meta tag.
fn og_content(body: &Vec<char>, prop: &Vec<char>) -> (r: Vec<char>)
    ensures
        r@ == spec_og_content(body@, prop@),
{
    let content_pat = chars_vec("content=\"");
    let quote_pat = chars_vec("\"");
    match second_piece_exec(body, prop) {
        None => Vec::new(),
        Some(s1) => match second_piece_exec(&s1, &content_pat) {
            None => Vec::new(),
            Some(s2) => up_to_first_exec(&s2, &quote_pat),
        },
    }
}

/// The title rule for the photo of the day: keep the page's title unless it
/// is too short or a placeholder, in which case fall back to the file name
/// in the image URL.
pub open spec fn spec_pod_title(og_title: Seq<char>, image_url: Seq<char>) -> Seq<char> {
    if og_title.len() < 5 || lower(og_title) == "test"@ {
        spec_title_from_url(image_url)
    } else {
        og_title
    }
}

/// Read the photo of the day off its page: the image URL from the
/// `og:image` meta tag, and a title from `og:title` with the fallback rule.
/// A page without a usable image URL is rejected.
pub fn photo_of_the_day_from_page(body: &str) -> (r: Result<PhotoInfo, PhotoError>)
    ensures
        r is Ok <==> spec_og_content(body@, "property=\"og:image\""@).len() > 0,
        r matches Err(e) ==> (e matches PhotoError::InvalidContentType(m) && m@
            == "Could not extract image URL from page"@),
        r matches Ok(p) ==> {
            &&& p.image_url@ == spec_og_content(body@, "property=\"og:image\""@)
            &&& p.title@ == spec_pod_title(
                spec_og_content(body@, "property=\"og:title\""@),
                p.image_url@,
            )
        },
{
    let bv = chars_vec(body);
    let image = og_content(&bv, &chars_vec("property=\"og:image\""));
    if image.len() == 0 {
        return Err(
            PhotoError::InvalidContentType(
                String::from_str("Could not extract image URL from page"),
            ),
        );
    }
    let og_title = og_content(&bv, &chars_vec("property=\"og:title\""));
    let image_url = string_of_chars(image.as_slice());
    let og_lower = string_of_chars(lower_exec(&og_title).as_slice());
    let title = if og_title.len() < 5 || og_lower == String::from_str("test") {
        title_from_url(image_url.as_str())
    } else {
        string_of_chars(og_title.as_slice())
    };
    Ok(PhotoInfo { image_url, title })
}

/// A character that ends a URL path in page text.
pub open spec fn is_url_delim(c: char) -> bool {
    c == '"' || c == '\'' || c == ' ' || c == '?' || c == '\\'
}

/// The index of the first URL delimiter at or after `i`, or the length of
/// `s` when none follows.
pub open spec fn first_delim(s: Seq<char>, i: int) -> int
    decreases s.len() - i,
{
    if i < 0 || i >= s.len() {
        s.len() as int
    } else if is_url_delim(s[i]) {
        i
    } else {
        first_delim(s, i + 1)
    }
}

/// The image URL a split piece yields, if any: the path up to the first
/// delimiter, provided it has a directory part, carries an image extension
/// (compared without regard to ASCII case), and is not a crop variant; the
/// piece directly behind a bare host mention is skipped.
pub open spec fn candidate_of(piece: Seq<char>) -> Option<Seq<char>> {
    if starts_with(piece, "i.natgeofe.com"@) {
        None
    } else {
        let path = piece.take(first_delim(piece, 0));
        let pl = lower(path);
        if last_index_of(path, '/') >= 0 && (ends_with(pl, ".jpg"@) || ends_with(pl, ".png"@)
            || ends_with(pl, ".gif"@)) && !has_sub(path, "_16x9"@) && !has_sub(path, "_3x2"@)
            && !has_sub(path, "_4x3"@) && !has_sub(path, "_2x1"@) && !has_sub(path, "_2x3"@)
            && !has_sub(path, "_3x4"@) && !has_sub(path, "_square"@) {
            Some("https://i.natgeofe.com/n/"@ + path)
        } else {
            None
        }
    }
}

/// The URLs the split pieces yield, in order, keeping only the first
/// occurrence of each; `seen` holds what was already kept.
pub open spec fn urls_of_pieces(pieces: Seq<Seq<char>>, seen: Seq<Seq<char>>) -> Seq<Seq<char>>
    decreases pieces.len(),
{
    if pieces.len() == 0 {
        Seq::empty()
    } else {
        match candidate_of(pieces[0]) {
            Some(u) => if seen.contains(u) {
                urls_of_pieces(pieces.drop_first(), seen)
            } else {
                seq![u] + urls_of_pieces(pieces.drop_first(), seen.push(u))
            },
            None => urls_of_pieces(pieces.drop_first(), seen),
        }
    }
}

/// All unique image URLs of the scraped host in a page, in order of first
/// appearance.
pub open spec fn spec_extract_urls(body: Seq<char>) -> Seq<Seq<char>> {
    urls_of_pieces(split_pieces(body, "https://i.natgeofe.com/n/"@), Seq::empty())
}

/// Whether `c` ends a URL path in page text.
fn is_url_delim_exec(c: char) -> (b: bool)
    ensures
        b == is_url_delim(c),
{
    c == '"' || c == '\'' || c == ' ' || c == '?' || c == '\\'
}

/// The image URL one split piece yields, if any.
fn candidate_of_exec(piece: &Vec<char>) -> (r: Option<String>)
    ensures
        r matches Some(u) ==> candidate_of(piece@) == Some(u@),
        r is None ==> candidate_of(piece@) is None,
{
    if starts_with_exec(piece, &chars_vec("i.natgeofe.com")) {
        return None;
    }
    let n = piece.len();
    let mut d: usize = 0;
    while d < n && !is_url_delim_exec(piece[d])
        invariant
            n == piece@.len(),
            d <= n,
            first_delim(piece@, 0) == first_delim(piece@, d as int),
        decreases n - d,
    {
        d = d + 1;
    }
    proof {
        assert(first_delim(piece@, 0) == d as int);
    }
    let path = slice_range(piece, 0, d);
    proof {
        assert(path@ =~= piece@.take(first_delim(piece@, 0)));
    }
    if rfind_char(&path, '/').is_none() {
        return None;
    }
    let pl = lower_exec(&path);
    let has_ext = ends_with_exec(&pl, &chars_vec(".jpg")) || ends_with_exec(&pl, &chars_vec(".png"))
        || ends_with_exec(&pl, &chars_vec(".gif"));
    if !has_ext {
        return None;
    }
    let crop = contains_sub(&path, &chars_vec("_16x9")) || contains_sub(&path, &chars_vec("_3x2"))
        || contains_sub(&path, &chars_vec("_4x3")) || contains_sub(&path, &chars_vec("_2x1"))
        || contains_sub(&path, &chars_vec("_2x3")) || contains_sub(&path, &chars_vec("_3x4"))
        || contains_sub(&path, &chars_vec("_square"));
    if crop {
        return None;
    }
    let mut url = chars_vec("https://i.natgeofe.com/n/");
    let mut tail = path;
    url.append(&mut tail);
    Some(string_of_chars(url.as_slice()))
}

/// Whether `v` already holds a string with the characters of `s`.
fn vec_contains_string(v: &Vec<String>, s: &String) -> (b: bool)
    ensures
        b == v.deep_view().contains(s@),
{
    let n = v.len();
    let mut i: usize = 0;
    while i < n
        invariant
            n == v@.len(),
            i <= n,
            forall|k: int| 0 <= k < i ==> v@[k]@ != s@,
        decreases n - i,
    {
        if v[i].eq(s) {
            proof {
                assert(v.deep_view()[i as int] == s@);
            }
            return true;
        }
        i = i + 1;
    }
    proof {
        if v.deep_view().contains(s@) {
            let k = choose|k: int| 0 <= k < v.deep_view().len() && v.deep_view()[k] == s@;
            assert(v.deep_view()[k] == v@[k]@);
        }
    }
    false
}

/// All unique image URLs of the scraped host in a page, in order of first
/// appearance, with crop variants filtered out.
pub fn extract_natgeo_image_urls(body: &str) -> (r: Vec<String>)
    ensures
        r.deep_view() == spec_extract_urls(body@),
{
    let bv = chars_vec(body);
    let pat = chars_vec("https://i.natgeofe.com/n/");
    let n = bv.len();
    let mut urls: Vec<String> = Vec::new();
    let mut pos: usize = 0;
    let mut finished = false;
    proof {
        assert(bv@.subrange(0, n as int) =~= body@);
        assert(urls.deep_view() =~= Seq::<Seq<char>>::empty());
        assert(urls.deep_view() + urls_of_pieces(
            split_pieces(bv@.subrange(0, n as int), pat@),
            urls.deep_view(),
        ) =~= urls_of_pieces(split_pieces(body@, "https://i.natgeofe.com/n/"@), Seq::empty()));
        reveal_strlit("https://i.natgeofe.com/n/");
    }
    while !finished
        invariant
            bv@ == body@,
            pat@ == "https://i.natgeofe.com/n/"@,
            pat@.len() >= 1,
            n == bv@.len(),
            pos <= n,
            !finished ==> spec_extract_urls(body@) == urls.deep_view() + urls_of_pieces(
                split_pieces(bv@.subrange(pos as int, n as int), pat@),
                urls.deep_view(),
            ),
            finished ==> urls.deep_view() == spec_extract_urls(body@),
        decreases n - pos, (if finished {
            0int
        } else {
            1int
        }),
    {
        let ghost suffix = bv@.subrange(pos as int, n as int);
        let ghost pieces = split_pieces(suffix, pat@);
        let ghost seen0 = urls.deep_view();
        proof {
            lemma_first_match_in_suffix(bv@, pat@, pos as int, pos as int);
            lemma_first_match_bounds(suffix, pat@, 0);
        }
        let found = find_from(&bv, &pat, pos);
        let piece = match found {
            Some(i) => slice_range(&bv, pos, i),
            None => slice_range(&bv, pos, n),
        };
        proof {
            match first_match_from(suffix, pat@, 0) {
                Some(j) => {
                    assert(piece@ =~= suffix.take(j));
                    assert(pieces == seq![suffix.take(j)] + split_pieces(
                        suffix.subrange(j + pat@.len(), suffix.len() as int),
                        pat@,
                    ));
                },
                None => {
                    assert(piece@ =~= suffix);
                    assert(pieces == seq![suffix]);
                },
            }
            assert(pieces.len() >= 1);
            assert(pieces[0] == piece@);
        }
        match candidate_of_exec(&piece) {
            Some(u) => {
                if !vec_contains_string(&urls, &u) {
                    urls.push(u);
                    proof {
                        assert(urls.deep_view() =~= seen0.push(u@));
                        assert(seen0 + seq![u@] =~= seen0.push(u@));
                        assert(urls_of_pieces(pieces, seen0) == seq![u@] + urls_of_pieces(
                            pieces.drop_first(),
                            seen0.push(u@),
                        ));
                    }
                }
            },
            None => {
            },
        }
        match found {
            Some(i) => {
                proof {
                    let j = i - pos;
                    assert(suffix.subrange(j + pat@.len(), suffix.len() as int) =~= bv@.subrange(
                        i + pat@.len(),
                        n as int,
                    ));
                    assert(pieces.drop_first() =~= split_pieces(
                        bv@.subrange(i + pat@.len(), n as int),
                        pat@,
                    ));
                }
                pos = i + pat.len();
            },
            None => {
                proof {
                    assert(pieces.drop_first() =~= Seq::<Seq<char>>::empty());
                    assert(urls_of_pieces(Seq::<Seq<char>>::empty(), urls.deep_view())
                        =~= Seq::<Seq<char>>::empty());
                }
                finished = true;
            },
        }
        proof {
            if !finished {
                assert(spec_extract_urls(body@) == urls.deep_view() + urls_of_pieces(
                    split_pieces(bv@.subrange(pos as int, n as int), pat@),
                    urls.deep_view(),
                ));
            } else {
                assert(urls.deep_view() + Seq::<Seq<char>>::empty() =~= urls.deep_view());
            }
        }
    }
    urls
}

/// The display name of a collection page: its `og:title` content when it
/// is substantial, else the last segment of the page URL.
pub open spec fn spec_collection_name(url: Seq<char>, body: Seq<char>) -> Seq<char> {
    let t = spec_og_content(body, "property=\"og:title\""@);
    if t.len() >= 5 {
        t
    } else {
        after_last(url, '/')
    }
}

/// The image URLs of a page that belong to the collection: those whose
/// file-name title matches the collection naming pattern, in order.
pub open spec fn spec_collection_urls(urls: Seq<Seq<char>>) -> Seq<Seq<char>>
    decreases urls.len(),
{
    if urls.len() == 0 {
        Seq::empty()
    } else {
        let rest = spec_collection_urls(urls.drop_first());
        if spec_is_collection_photo(spec_title_from_url(urls[0])) {
            seq![urls[0]] + rest
        } else {
            rest
        }
    }
}

proof fn lemma_collection_urls_push(s: Seq<Seq<char>>, u: Seq<char>)
    ensures
        spec_collection_urls(s.push(u)) == spec_collection_urls(s) + (if spec_is_collection_photo(
            spec_title_from_url(u),
        ) {
            seq![u]
        } else {
            Seq::<Seq<char>>::empty()
        }),
    decreases s.len(),
{
    let tail = if spec_is_collection_photo(spec_title_from_url(u)) {
        seq![u]
    } else {
        Seq::<Seq<char>>::empty()
    };
    if s.len() == 0 {
        assert(s.push(u).drop_first() =~= Seq::<Seq<char>>::empty());
        assert(s.push(u)[0] == u);
        assert(spec_collection_urls(Seq::<Seq<char>>::empty()) == Seq::<Seq<char>>::empty());
        assert(spec_collection_urls(s.push(u)) =~= spec_collection_urls(s) + tail);
    } else {
        assert(s.push(u).drop_first() =~= s.drop_first().push(u));
        lemma_collection_urls_push(s.drop_first(), u);
        assert(s.push(u)[0] == s[0]);
        assert(spec_collection_urls(s.push(u)) =~= spec_collection_urls(s) + tail);
    }
}

/// Read a collection off its page: its name, and one photo per matching
/// image URL, titled by the URL's file name.
///
/// A page without any image URL of the scraped host is rejected, as is one
/// where no URL matches the collection naming pattern.
pub fn get_collection_photos(url: &str, body: &str) -> (r: Result<PhotoCollection, PhotoError>)
    ensures
        r is Ok <==> spec_collection_urls(spec_extract_urls(body@)).len() > 0,
        spec_extract_urls(body@).len() == 0 ==> (r matches Err(e) && e matches PhotoError::NoPhotos(
            m,
        ) && m@ == "No photos found in collection: "@ + url@),
        spec_extract_urls(body@).len() > 0 && spec_collection_urls(spec_extract_urls(body@)).len()
            == 0 ==> (r matches Err(e) && e matches PhotoError::NoPhotos(m) && m@
            == "No collection photos found (matching 'best-pod' pattern) in: "@ + url@),
        r matches Ok(c) ==> {
            &&& c.name@ == spec_collection_name(url@, body@)
            &&& c.photos@.len() == spec_collection_urls(spec_extract_urls(body@)).len()
            &&& forall|i: int|
                0 <= i < c.photos@.len() ==> (#[trigger] c.photos@[i]).image_url@
                    == spec_collection_urls(spec_extract_urls(body@))[i]
            &&& forall|i: int|
                0 <= i < c.photos@.len() ==> (#[trigger] c.photos@[i]).title@
                    == spec_title_from_url(c.photos@[i].image_url@)
        },
{
    let bv = chars_vec(body);
    let name_part = og_content(&bv, &chars_vec("property=\"og:title\""));
    let name = if name_part.len() >= 5 {
        string_of_chars(name_part.as_slice())
    } else {
        extract_collection_name_from_url(url)
    };
    let image_urls = extract_natgeo_image_urls(body);
    let m = image_urls.len();
    if m == 0 {
        proof {
            assert(image_urls.deep_view() =~= Seq::<Seq<char>>::empty());
        }
        return Err(
            PhotoError::NoPhotos(String::from_str("No photos found in collection: ").concat(url)),
        );
    }
    let mut photos: Vec<PhotoInfo> = Vec::new();
    let mut i: usize = 0;
    proof {
        assert(image_urls.deep_view().take(0) =~= Seq::<Seq<char>>::empty());
    }
    while i < m
        invariant
            m == image_urls@.len(),
            i <= m,
            image_urls.deep_view() == spec_extract_urls(body@),
            photos@.len() == spec_collection_urls(image_urls.deep_view().take(i as int)).len(),
            forall|j: int|
                0 <= j < photos@.len() ==> (#[trigger] photos@[j]).image_url@
                    == spec_collection_urls(image_urls.deep_view().take(i as int))[j],
            forall|j: int|
                0 <= j < photos@.len() ==> (#[trigger] photos@[j]).title@ == spec_title_from_url(
                    photos@[j].image_url@,
                ),
        decreases m - i,
    {
        let title = title_from_url(image_urls[i].as_str());
        proof {
            assert(image_urls.deep_view()[i as int] == image_urls@[i as int]@);
            assert(image_urls.deep_view().take(i + 1) =~= image_urls.deep_view().take(
                i as int,
            ).push(image_urls@[i as int]@));
            lemma_collection_urls_push(
                image_urls.deep_view().take(i as int),
                image_urls@[i as int]@,
            );
        }
        if is_collection_photo_filename(title.as_str()) {
            photos.push(PhotoInfo { image_url: image_urls[i].clone(), title });
        }
        i = i + 1;
    }
    proof {
        assert(image_urls.deep_view().take(m as int) =~= image_urls.deep_view());
    }
    if photos.len() == 0 {
        return Err(
            PhotoError::NoPhotos(
                String::from_str("No collection photos found (matching 'best-pod' pattern) in: ")
                    .concat(url),
            ),
        );
    }
    Ok(PhotoCollection { name, photos })
}

/// Whether a URL points at the scraped site.
pub fn is_natgeo_url(url: &str) -> (b: bool)
    ensures
        b == has_sub(url@, "nationalgeographic.com"@),
{
    let v = chars_vec(url);
    contains_sub(&v, &chars_vec("nationalgeographic.com"))
}

/// The file names a downloaded photo may have been stored under, one per
/// supported extension, in the order they are checked.
pub fn downloaded_file_candidates(dir: &str, sanitized_title: &str) -> (v: Vec<String>)
    ensures
        v@.len() == 3,
        v@[0]@ == dir@ + "/"@ + sanitized_title@ + ".jpg"@,
        v@[1]@ == dir@ + "/"@ + sanitized_title@ + ".png"@,
        v@[2]@ == dir@ + "/"@ + sanitized_title@ + ".gif"@,
{
    let mut v: Vec<String> = Vec::new();
    v.push(String::from_str(dir).concat("/").concat(sanitized_title).concat(".jpg"));
    v.push(String::from_str(dir).concat("/").concat(sanitized_title).concat(".png"));
    v.push(String::from_str(dir).concat("/").concat(sanitized_title).concat(".gif"));
    v
}

} // verus!
