//! Extension filters: comma-separated lists of file extensions, and the
//! extension of a path.

use vstd::prelude::*;

verus! {

/// The extension of `path` as `std::path::Path::extension` reports it, without
/// the leading dot; `None` where the path has none.
pub uninterp spec fn path_extension(path: Seq<char>) -> Option<Seq<char>>;

/// The text that stands for the extension of `path` when it is compared with a
/// filter: the extension itself, or the empty text for a path without one.
pub open spec fn extension_text(path: Seq<char>) -> Seq<char> {
    match path_extension(path) {
        Some(e) => e,
        None => Seq::empty(),
    }
}

/// The characters with the Unicode property `White_Space`.
pub open spec fn is_whitespace(c: char) -> bool {
    let n = c as u32;
    ||| 0x09 <= n <= 0x0D
    ||| n == 0x20
    ||| n == 0x85
    ||| n == 0xA0
    ||| n == 0x1680
    ||| 0x2000 <= n <= 0x200A
    ||| n == 0x2028
    ||| n == 0x2029
    ||| n == 0x202F
    ||| n == 0x205F
    ||| n == 0x3000
}

/// `s` without its leading and trailing whitespace.
pub open spec fn trimmed(s: Seq<char>) -> Seq<char>
    decreases s.len(),
{
    if s.len() > 0 && is_whitespace(s.first()) {
        trimmed(s.drop_first())
    } else if s.len() > 0 && is_whitespace(s.last()) {
        trimmed(s.drop_last())
    } else {
        s
    }
}

/// `list[lo..hi]` is one entry of the comma-separated `list`: it holds no
/// comma, and a comma or an end of the list stands on either side of it.
pub open spec fn is_entry(list: Seq<char>, lo: int, hi: int) -> bool {
    &&& 0 <= lo <= hi <= list.len()
    &&& (lo == 0 || list[lo - 1] == ',')
    &&& (hi == list.len() || list[hi] == ',')
    &&& forall|k: int| lo <= k < hi ==> list[k] != ','
}

/// Some entry of the comma-separated `list`, once trimmed, is exactly `ext`.
/// The comparison is case-sensitive.
pub open spec fn lists(list: Seq<char>, ext: Seq<char>) -> bool {
    exists|lo: int, hi: int| #[trigger]
        is_entry(list, lo, hi) && trimmed(list.subrange(lo, hi)) == ext
}

/// Calls `std::path::Path::extension` on `path`. The contract gives the result
/// the name `path_extension`; nothing else is claimed of it.
#[verifier::external_body]
fn file_extension(path: &str) -> (ext: Option<String>)
    ensures
        match ext {
            Some(e) => path_extension(path@) == Some(e@),
            None => path_extension(path@) is None,
        },
{
    match std::path::Path::new(path).extension() {
        Some(e) => Some(e.to_string_lossy().into_owned()),
        None => None,
    }
}

/// The extension of `path` for comparison with a filter.
pub fn extension_of(path: &str) -> (ext: String)
    ensures
        ext@ == extension_text(path@),
{
    match file_extension(path) {
        Some(e) => e,
        None => String::new(),
    }
}

/// Whether `c` is whitespace.
pub fn is_space(c: char) -> (r: bool)
    ensures
        r == is_whitespace(c),
{
    let n: u32 = c as u32;
    (0x09 <= n && n <= 0x0D) || n == 0x20 || n == 0x85 || n == 0xA0 || n == 0x1680 || (0x2000
        <= n && n <= 0x200A) || n == 0x2028 || n == 0x2029 || n == 0x202F || n == 0x205F || n
        == 0x3000
}

/// The characters of `s`, in order.
pub fn chars_of(s: &str) -> (v: Vec<char>)
    ensures
        v@ == s@,
{
    let mut v: Vec<char> = Vec::new();
    for c in it: s.chars()
        invariant
            v@ == it.seq().take(it.index() as int),
            it.seq() == s@,
    {
        v.push(c);
    }
    v
}

/// The end of the entry that starts at `lo`: the next comma, or the end of the
/// list.
fn entry_end(list: &Vec<char>, lo: usize) -> (hi: usize)
    requires
        lo <= list.len(),
    ensures
        lo <= hi <= list.len(),
        hi == list.len() || list[hi as int] == ',',
        forall|k: int| lo <= k < hi ==> list[k] != ',',
{
    let mut hi: usize = lo;
    while hi < list.len() && list[hi] != ','
        invariant
            lo <= hi <= list.len(),
            forall|k: int| lo <= k < hi ==> list[k] != ',',
        decreases list.len() - hi,
    {
        hi += 1;
    }
    hi
}

/// Whether `list[lo..hi]`, trimmed, is `ext`.
fn entry_equals(list: &Vec<char>, lo: usize, hi: usize, ext: &Vec<char>) -> (r: bool)
    requires
        lo <= hi <= list.len(),
    ensures
        r == (trimmed(list@.subrange(lo as int, hi as int)) == ext@),
{
    let ghost entry = list@.subrange(lo as int, hi as int);
    let mut a: usize = lo;
    while a < hi && is_space(list[a])
        invariant
            lo <= a <= hi <= list.len(),
            trimmed(entry) == trimmed(list@.subrange(a as int, hi as int)),
        decreases hi - a,
    {
        proof {
            let s = list@.subrange(a as int, hi as int);
            assert(s.drop_first() =~= list@.subrange(a + 1, hi as int));
        }
        a += 1;
    }
    let mut b: usize = hi;
    while a < b && is_space(list[b - 1])
        invariant
            lo <= a <= b <= hi <= list.len(),
            a == b || !is_whitespace(list[a as int]),
            trimmed(entry) == trimmed(list@.subrange(a as int, b as int)),
        decreases b - a,
    {
        proof {
            let s = list@.subrange(a as int, b as int);
            assert(s.drop_last() =~= list@.subrange(a as int, b - 1));
        }
        b -= 1;
    }
    let ghost core = list@.subrange(a as int, b as int);
    assert(trimmed(core) == core);
    if b - a != ext.len() {
        return false;
    }
    let mut i: usize = 0;
    while i < ext.len()
        invariant
            a <= b <= list.len(),
            b - a == ext.len(),
            i <= ext.len(),
            core == list@.subrange(a as int, b as int),
            trimmed(list@.subrange(lo as int, hi as int)) == core,
            forall|k: int| 0 <= k < i ==> core[k] == ext[k],
        decreases ext.len() - i,
    {
        if list[a + i] != ext[i] {
            assert(core[i as int] != ext[i as int]);
            return false;
        }
        i += 1;
    }
    assert(core =~= ext@);
    true
}

/// Whether the comma-separated `list` holds `ext`.
pub(crate) fn listed(list: &Vec<char>, ext: &Vec<char>) -> (r: bool)
    ensures
        r == lists(list@, ext@),
{
    let mut lo: usize = 0;
    loop
        invariant
            lo <= list.len(),
            lo == 0 || list[lo - 1] == ',',
            forall|a: int, b: int| #[trigger]
                is_entry(list@, a, b) && a < lo ==> trimmed(list@.subrange(a, b)) != ext@,
        decreases list.len() - lo,
    {
        let hi = entry_end(list, lo);
        assert(is_entry(list@, lo as int, hi as int));
        if entry_equals(list, lo, hi, ext) {
            return true;
        }
        assert forall|a: int, b: int| #[trigger]
            is_entry(list@, a, b) && a <= hi implies trimmed(list@.subrange(a, b)) != ext@ by {
            if a == lo {
                assert(b == hi);
            } else if a > lo {
                assert(list[a - 1] == ',');
            }
        }
        if hi == list.len() {
            return false;
        }
        lo = hi + 1;
    }
}

/// Whether the comma-separated `list` of extensions holds `ext`: whether some
/// entry of it, once trimmed, is exactly `ext`.
pub fn extension_listed(list: &str, ext: &str) -> (r: bool)
    ensures
        r == lists(list@, ext@),
{
    let list_chars = chars_of(list);
    let ext_chars = chars_of(ext);
    listed(&list_chars, &ext_chars)
}

} // verus!
