//! The photo pool: which files count as photos, and the working order the
//! planner draws from.
//!
//! File discovery itself (walking directories, sorting newest-first) is the
//! caller's job; the library decides which paths qualify and, on request,
//! shuffles the pool.

use rand::seq::SliceRandom;
use vstd::prelude::*;
use vstd::string::StringExecFns;

use crate::errors::PhotoError;
use crate::text::after_last;
use crate::text::chars_vec;
use crate::text::last_index_of;
use crate::text::lemma_last_index_of_bounds;
use crate::text::lower;
use crate::text::lower_exec;
use crate::text::rfind_char;
use crate::text::string_of_chars;

verus! {

/// The extension of a path: what follows the last `.` of the final path
/// segment, unless the segment has no `.` or only a leading one.
pub open spec fn spec_extension(path: Seq<char>) -> Option<Seq<char>> {
    let name = after_last(path, '/');
    let d = last_index_of(name, '.');
    if d <= 0 {
        None
    } else {
        Some(name.subrange(d + 1, name.len() as int))
    }
}

/// Whether a path carries one of the supported image extensions, compared
/// without regard to ASCII case.
pub open spec fn spec_supported_photo(path: Seq<char>) -> bool {
    match spec_extension(path) {
        Some(e) => {
            let l = lower(e);
            l == "jpg"@ || l == "jpeg"@ || l == "png"@ || l == "gif"@
        },
        None => false,
    }
}

/// Whether the file at `path` counts as a photo for the pool.
pub fn is_supported_photo(path: &str) -> (b: bool)
    ensures
        b == spec_supported_photo(path@),
{
    let v = chars_vec(path);
    let name_start: usize = match rfind_char(&v, '/') {
        Some(d) => d + 1,
        None => 0,
    };
    proof {
        lemma_last_index_of_bounds(v@, '/');
    }
    let mut name: Vec<char> = Vec::new();
    let n = v.len();
    let mut i: usize = name_start;
    while i < n
        invariant
            name_start <= i <= n,
            n == v@.len(),
            name@ == v@.subrange(name_start as int, i as int),
        decreases n - i,
    {
        name.push(v[i]);
        proof {
            assert(v@.subrange(name_start as int, i + 1) =~= v@.subrange(
                name_start as int,
                i as int,
            ).push(v@[i as int]));
        }
        i = i + 1;
    }
    proof {
        assert(name@ == after_last(v@, '/'));
    }
    let d = match rfind_char(&name, '.') {
        Some(d) => d,
        None => {
            return false;
        },
    };
    if d == 0 {
        return false;
    }
    proof {
        lemma_last_index_of_bounds(name@, '.');
    }
    let m = name.len();
    let mut ext: Vec<char> = Vec::new();
    let mut j: usize = d + 1;
    while j < m
        invariant
            d + 1 <= j <= m,
            m == name@.len(),
            ext@ == name@.subrange(d + 1 as int, j as int),
        decreases m - j,
    {
        ext.push(name[j]);
        proof {
            assert(name@.subrange(d + 1 as int, j + 1) =~= name@.subrange(
                d + 1 as int,
                j as int,
            ).push(name@[j as int]));
        }
        j = j + 1;
    }
    let low = lower_exec(&ext);
    let ls = string_of_chars(low.as_slice());
    ls == String::from_str("jpg") || ls == String::from_str("jpeg") || ls == String::from_str(
        "png",
    ) || ls == String::from_str("gif")
}

/// Relies on `rand::seq::SliceRandom::shuffle`, seeded from
/// `rand::thread_rng`: an in-place Fisher-Yates pass that permutes the slice
/// by swapping elements, so the contents and the length are kept.
#[verifier::external_body]
fn shuffle_photos(photos: &mut Vec<String>)
    ensures
        final(photos)@.to_multiset() == old(photos)@.to_multiset(),
        final(photos)@.len() == old(photos)@.len(),
{
    photos.shuffle(&mut rand::thread_rng());
}

/// Produce the ordered pool the planner assigns from.
///
/// An empty candidate list is rejected. With `randomize` the pool is an
/// unpredictable permutation of the candidates; without it the caller's
/// order (newest first, by convention) is passed through unchanged.
pub fn select_pool(photos: Vec<String>, randomize: bool) -> (r: Result<Vec<String>, PhotoError>)
    ensures
        photos@.len() == 0 <==> r is Err,
        r matches Err(e) ==> (e matches PhotoError::NoPhotos(m) && m@ == "empty photo pool"@),
        r matches Ok(v) ==> {
            &&& v@.len() == photos@.len()
            &&& v@.to_multiset() == photos@.to_multiset()
            &&& !randomize ==> v@ == photos@
        },
{
    if photos.len() == 0 {
        return Err(PhotoError::NoPhotos(String::from_str("empty photo pool")));
    }
    let mut pool = photos;
    if randomize {
        shuffle_photos(&mut pool);
    }
    Ok(pool)
}

} // verus!
