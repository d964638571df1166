//! Content-addressed names for the files a photograph gives rise to.

use tiny_keccak::Hasher;
use vstd::prelude::*;
use vstd::std_specs::iter::IteratorSpec;
use vstd::string::StrSliceExecFns;
use vstd::string::StringExecFns;

verus! {

/// The index just behind the last `/` of `path`, or 0 where it has none.
pub open spec fn name_start(path: Seq<char>) -> int
    decreases path.len(),
{
    if path.len() == 0 {
        0
    } else if path.last() == '/' {
        path.len() as int
    } else {
        name_start(path.drop_last())
    }
}

/// The index of the first `.` of `name`, or its length where it has none.
pub open spec fn stem_len(name: Seq<char>) -> int
    decreases name.len(),
{
    if name.len() == 0 {
        0
    } else if name.first() == '.' {
        0
    } else {
        1 + stem_len(name.drop_first())
    }
}

/// The base name of a path: what follows its last `/`, up to the first `.`
/// of that.
pub open spec fn basename_of(path: Seq<char>) -> Seq<char> {
    let name = path.subrange(name_start(path), path.len() as int);
    name.subrange(0, stem_len(name))
}

/// `name_start` lies inside the path, behind a `/` or at the beginning, and
/// no `/` follows it.
pub proof fn lemma_name_start(path: Seq<char>)
    ensures
        0 <= name_start(path) <= path.len(),
        name_start(path) > 0 ==> path[name_start(path) - 1] == '/',
        forall|i: int| name_start(path) <= i < path.len() ==> path[i] != '/',
    decreases path.len(),
{
    if path.len() > 0 && path.last() != '/' {
        let front = path.drop_last();
        lemma_name_start(front);
        assert forall|i: int| name_start(path) <= i < path.len() implies path[i] != '/' by {
            if i < front.len() {
                assert(path[i] == front[i]);
            }
        }
    }
}

/// `stem_len` lies inside the name, at a `.` or at the end, and no `.`
/// comes before it.
pub proof fn lemma_stem_len(name: Seq<char>)
    ensures
        0 <= stem_len(name) <= name.len(),
        stem_len(name) < name.len() ==> name[stem_len(name)] == '.',
        forall|i: int| 0 <= i < stem_len(name) ==> name[i] != '.',
    decreases name.len(),
{
    if name.len() > 0 && name.first() != '.' {
        let rest = name.drop_first();
        lemma_stem_len(rest);
        assert forall|i: int| 0 <= i < stem_len(name) implies name[i] != '.' by {
            if i > 0 {
                assert(name[i] == rest[i - 1]);
            }
        }
    }
}

/// Any index with the three properties of [`lemma_stem_len`] is `stem_len`.
pub proof fn lemma_stem_len_unique(name: Seq<char>, k: int)
    requires
        0 <= k <= name.len(),
        k < name.len() ==> name[k] == '.',
        forall|i: int| 0 <= i < k ==> name[i] != '.',
    ensures
        stem_len(name) == k,
    decreases name.len(),
{
    if name.len() > 0 && name.first() != '.' {
        let rest = name.drop_first();
        lemma_stem_len_unique(rest, k - 1);
    }
}

/// The base name of `path`: the directory, up to and with the last `/`,
/// is dropped, and so is everything from the first `.` of what is left.
pub fn basename(path: &str) -> (name: String)
    ensures
        name@ == basename_of(path@),
{
    let mut start: usize = 0;
    let mut dot: Option<usize> = None;
    let mut i: usize = 0;
    let total = path.unicode_len();
    let chars = path.chars();
    for c in it: chars
        invariant
            it.seq() == path@,
            total == path@.len(),
            i == it.index(),
            start == name_start(path@.take(i as int)),
            start <= i,
            match dot {
                Some(d) => start <= d < i && path@[d as int] == '.',
                None => true,
            },
            forall|j: int| start <= j < (match dot { Some(d) => d, None => i }) ==> path@[j] != '.',
    {
        proof {
            assert(path@.take(i + 1).drop_last() == path@.take(i as int));
        }
        if c == '/' {
            start = i + 1;
            dot = None;
        } else if c == '.' && dot.is_none() {
            dot = Some(i);
        }
        i = i + 1;
    }
    let end = match dot {
        Some(d) => d,
        None => i,
    };
    proof {
        assert(path@.take(i as int) == path@);
        let tail = path@.subrange(start as int, path@.len() as int);
        lemma_stem_len_unique(tail, end - start);
    }
    String::from_str(path.substring_char(start, end))
}

/// How many bytes of the content hash go into a name.
pub const HASH_PREFIX_BYTES: usize = 6;

/// How many bytes of hash are asked for.
pub const HASH_BYTES: usize = 16;

/// The block size the content hash is computed with.
pub const HASH_BLOCK_SIZE: usize = 8192;

/// ParallelHash128 of SP 800-185, over `data`, with customization string
/// `custom`, blocks of `block_size` bytes and `out_len` bytes of output.
pub uninterp spec fn parallel_hash128(
    custom: Seq<u8>,
    block_size: int,
    data: Seq<u8>,
    out_len: int,
) -> Seq<u8>;

/// The slug that `slug::slugify` makes of a string.
pub uninterp spec fn slugified(text: Seq<char>) -> Seq<char>;

/// Whether a character may stand in a slug.
pub open spec fn is_slug_char(c: char) -> bool {
    ('a' <= c && c <= 'z') || ('0' <= c && c <= '9') || c == '-'
}

/// The two lower-case hexadecimal digits of each byte, in order.
pub open spec fn hex_lower(bytes: Seq<u8>) -> Seq<char> {
    Seq::new(
        2 * bytes.len(),
        |i: int|
            "0123456789abcdef"@[if i % 2 == 0 {
                bytes[i / 2] as int / 16
            } else {
                bytes[i / 2] as int % 16
            }],
    )
}

/// The prefix shared by all files derived from one photograph: the first
/// [`HASH_PREFIX_BYTES`] bytes of the hash of its upright pixels, in
/// hexadecimal, an underscore, and the slug of the upload's base name.
pub open spec fn content_prefix(pixels: Seq<u8>, file_name: Seq<char>) -> Seq<char> {
    hex_lower(
        parallel_hash128(seq![], HASH_BLOCK_SIZE as int, pixels, HASH_BYTES as int).subrange(
            0,
            HASH_PREFIX_BYTES as int,
        ),
    ) + "_"@ + slugified(basename_of(file_name))
}

/// The decimal digit for `d`.
pub open spec fn digit(d: int) -> char {
    "0123456789"@[d]
}

/// The decimal numeral of `n`, without leading zeros.
pub open spec fn decimal(n: nat) -> Seq<char>
    decreases n,
{
    if n < 10 {
        seq![digit(n as int)]
    } else {
        decimal(n / 10).push(digit((n % 10) as int))
    }
}

/// The name of the rendition of `width` pixels: prefix, width and extension,
/// joined by dots.
pub open spec fn rendition_name_of(prefix: Seq<char>, width: nat, ext: Seq<char>) -> Seq<char> {
    prefix + "."@ + decimal(width) + "."@ + ext
}

/// `tiny_keccak::ParallelHash::v128`, fed `data` in one piece and finalized
/// into `out_len` bytes: the result is the ParallelHash128 value that
/// [`parallel_hash128`] names, and has the length asked for.
#[verifier::external_body]
fn parallel_hash_v128(custom: &[u8], block_size: usize, data: &[u8], out_len: usize) -> (out: Vec<
    u8,
>)
    requires
        block_size > 0,
    ensures
        out@ == parallel_hash128(custom@, block_size as int, data@, out_len as int),
        out@.len() == out_len,
{
    let mut hasher = tiny_keccak::ParallelHash::v128(custom, block_size);
    hasher.update(data);
    let mut out = vec![0u8; out_len];
    hasher.finalize(&mut out);
    out
}

/// `hex::encode`: two lower-case hexadecimal digits for each byte.
#[verifier::external_body]
fn hex_encode(bytes: &[u8]) -> (text: String)
    ensures
        text@ == hex_lower(bytes@),
{
    hex::encode(bytes)
}

/// `slug::slugify`: the result is the slug that [`slugified`] names; it
/// holds nothing but the letters a to z, digits and hyphens.
#[verifier::external_body]
fn slugify(text: &str) -> (slug: String)
    ensures
        slug@ == slugified(text@),
        forall|i: int| 0 <= i < slug@.len() ==> is_slug_char(#[trigger] slug@[i]),
{
    slug::slugify(text)
}

/// Names the family of files derived from a photograph with upright
/// samples `pixels`, uploaded as `file_name`. Equal samples and equal file
/// names give equal prefixes.
pub fn file_prefix(pixels: &[u8], file_name: &str) -> (prefix: String)
    ensures
        prefix@ == content_prefix(pixels@, file_name@),
{
    let none: [u8; 0] = [];
    let hash = parallel_hash_v128(&none, HASH_BLOCK_SIZE, pixels, HASH_BYTES);
    let head = vstd::slice::slice_subrange(hash.as_slice(), 0, HASH_PREFIX_BYTES);
    let mut prefix = hex_encode(head);
    let base = basename(file_name);
    let slug = slugify(base.as_str());
    prefix.append("_");
    prefix.append(slug.as_str());
    assert(none@ =~= seq![]);
    prefix
}

/// The one-character string of a decimal digit.
fn digit_str(d: u32) -> (s: &'static str)
    requires
        d < 10,
    ensures
        s@ == seq![digit(d as int)],
{
    proof {
        reveal_strlit("0123456789");
        reveal_strlit("0");
        reveal_strlit("1");
        reveal_strlit("2");
        reveal_strlit("3");
        reveal_strlit("4");
        reveal_strlit("5");
        reveal_strlit("6");
        reveal_strlit("7");
        reveal_strlit("8");
        reveal_strlit("9");
    }
    match d {
        0 => "0",
        1 => "1",
        2 => "2",
        3 => "3",
        4 => "4",
        5 => "5",
        6 => "6",
        7 => "7",
        8 => "8",
        _ => "9",
    }
}

/// Writes `n` in decimal.
pub fn decimal_string(n: u32) -> (text: String)
    ensures
        text@ == decimal(n as nat),
    decreases n,
{
    if n < 10 {
        String::from_str(digit_str(n))
    } else {
        let mut text = decimal_string(n / 10);
        text.append(digit_str(n % 10));
        text
    }
}

/// The file name of a rendition: `<prefix>.<width>.<ext>`.
pub fn rendition_name(prefix: &str, width: u32, ext: &str) -> (name: String)
    ensures
        name@ == rendition_name_of(prefix@, width as nat, ext@),
{
    let mut name = String::from_str(prefix);
    let digits = decimal_string(width);
    name.append(".");
    name.append(digits.as_str());
    name.append(".");
    name.append(ext);
    name
}

/// A decimal numeral is never empty and holds digits only.
pub proof fn lemma_decimal_digits(n: nat)
    ensures
        decimal(n).len() >= 1,
        forall|i: int| 0 <= i < decimal(n).len() ==> '0' <= #[trigger] decimal(n)[i] <= '9',
    decreases n,
{
    reveal_strlit("0123456789");
    if n >= 10 {
        lemma_decimal_digits(n / 10);
    }
}

} // verus!
