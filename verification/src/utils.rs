//! Page identifiers and the links that carry them.
//!
//! A page link is the site's address, a slash, and a path. The path is
//! either the page's identifier alone or a readable title that ends in a
//! hyphen and the identifier. A query string and one closing slash may
//! follow; neither belongs to the path.

use vstd::prelude::*;
use vstd::string::*;

pub mod json;

pub use json::{
    fault_message, outcome_is, parsed_json, pretty_outcome, pretty_print_json, pretty_print_parsed,
    pretty_text, JsonError, JsonErrorView,
};

verus! {

/// Number of characters in a page identifier.
pub const NOTION_ID_LEN: usize = 32;

/// What every page link starts with.
pub const PAGE_URL_PREFIX: &'static str = "https://www.notion.so/";

/// `c` is one of `0-9`, `a-f`, `A-F`.
pub open spec fn is_hex_digit(c: char) -> bool {
    ('0' <= c && c <= '9') || ('a' <= c && c <= 'f') || ('A' <= c && c <= 'F')
}

/// A well-formed identifier: exactly 32 characters, each a hexadecimal digit.
pub open spec fn valid_id(s: Seq<char>) -> bool {
    &&& s.len() == NOTION_ID_LEN
    &&& forall|i: int| 0 <= i < s.len() ==> is_hex_digit(#[trigger] s[i])
}

/// Position of the first `c` in `s`, or the length of `s` where it has none.
pub open spec fn first_index(s: Seq<char>, c: char) -> nat
    decreases s.len(),
{
    if s.len() == 0 || s[0] == c {
        0
    } else {
        1 + first_index(s.drop_first(), c)
    }
}

/// Position just behind the last hyphen of `s`, or 0 where it has none.
pub open spec fn last_piece_start(s: Seq<char>) -> nat
    decreases s.len(),
{
    if s.len() == 0 {
        0
    } else if s.last() == '-' {
        s.len()
    } else {
        last_piece_start(s.drop_last())
    }
}

/// `s` up to its first `?`.
pub open spec fn before_query(s: Seq<char>) -> Seq<char> {
    s.take(first_index(s, '?') as int)
}

/// `s` without one closing slash.
pub open spec fn trim_slash(s: Seq<char>) -> Seq<char> {
    if s.len() > 0 && s.last() == '/' {
        s.drop_last()
    } else {
        s
    }
}

/// What follows the last hyphen of `s`; all of `s` where it has none.
pub open spec fn last_piece(s: Seq<char>) -> Seq<char> {
    s.skip(last_piece_start(s) as int)
}

/// The path of a page link: what stands between the prefix and the query,
/// less one closing slash.
pub open spec fn page_path(url: Seq<char>) -> Seq<char> {
    trim_slash(before_query(url.skip(PAGE_URL_PREFIX@.len() as int)))
}

/// The identifier that a page link carries, if it carries one: the path
/// itself where that is an identifier, else the path's last hyphen-separated
/// piece where that is one.
pub open spec fn extracted_id(url: Seq<char>) -> Option<Seq<char>> {
    if !PAGE_URL_PREFIX@.is_prefix_of(url) {
        None
    } else if valid_id(page_path(url)) {
        Some(page_path(url))
    } else if valid_id(last_piece(page_path(url))) {
        Some(last_piece(page_path(url)))
    } else {
        None
    }
}

/// `first_index` is the one position before which `c` does not occur and at
/// which it does, or the end.
pub proof fn lemma_first_index(s: Seq<char>, c: char, k: int)
    requires
        0 <= k <= s.len(),
        forall|j: int| 0 <= j < k ==> s[j] != c,
        k < s.len() ==> s[k] == c,
    ensures
        first_index(s, c) == k,
    decreases s.len(),
{
    if k > 0 {
        let t = s.drop_first();
        assert forall|j: int| 0 <= j < k - 1 implies t[j] != c by {
            assert(t[j] == s[j + 1]);
        }
        lemma_first_index(t, c, k - 1);
    }
}

/// `last_piece_start` is the one position from which on no hyphen occurs and
/// before which one stands, or the start.
pub proof fn lemma_last_piece_start(s: Seq<char>, k: int)
    requires
        0 <= k <= s.len(),
        forall|j: int| k <= j < s.len() ==> s[j] != '-',
        k > 0 ==> s[k - 1] == '-',
    ensures
        last_piece_start(s) == k,
    decreases s.len(),
{
    if k < s.len() {
        let t = s.drop_last();
        assert forall|j: int| k <= j < t.len() implies t[j] != '-' by {
            assert(t[j] == s[j]);
        }
        lemma_last_piece_start(t, k);
    }
}

/// A hexadecimal digit is none of the characters that shape a link.
proof fn lemma_id_has_no_marks(id: Seq<char>)
    requires
        valid_id(id),
    ensures
        forall|j: int| 0 <= j < id.len() ==> id[j] != '?' && id[j] != '/' && id[j] != '-',
{
    assert forall|j: int| 0 <= j < id.len() implies id[j] != '?' && id[j] != '/' && id[j] != '-' by {
        assert(is_hex_digit(id[j]));
    }
}

/// A link made of the prefix, a path without `?`, and a tail that is empty or
/// starts with `?`, has that path, less one closing slash, as its path.
proof fn lemma_page_path(path: Seq<char>, tail: Seq<char>)
    requires
        forall|j: int| 0 <= j < path.len() ==> path[j] != '?',
        tail.len() > 0 ==> tail[0] == '?',
    ensures
        PAGE_URL_PREFIX@.is_prefix_of(PAGE_URL_PREFIX@ + path + tail),
        page_path(PAGE_URL_PREFIX@ + path + tail) == trim_slash(path),
{
    let prefix = PAGE_URL_PREFIX@;
    let url = prefix + path + tail;
    let rest = url.skip(prefix.len() as int);
    assert(url.subrange(0, prefix.len() as int) =~= prefix);
    assert(rest =~= path + tail);
    lemma_first_index(rest, '?', path.len() as int);
    assert(before_query(rest) =~= path);
}

/// A string of any other length than 32 is no identifier.
pub proof fn lemma_wrong_length_is_invalid(s: Seq<char>)
    requires
        s.len() != 32,
    ensures
        !valid_id(s),
{
}

/// A string of 32 hexadecimal digits, of either case, is an identifier.
pub proof fn lemma_hex_digits_are_valid(s: Seq<char>)
    requires
        s.len() == 32,
        forall|i: int| 0 <= i < 32 ==> is_hex_digit(s[i]),
    ensures
        valid_id(s),
{
}

/// A string of 32 characters, one of which is no hexadecimal digit, is no
/// identifier.
pub proof fn lemma_other_character_is_invalid(s: Seq<char>, i: int)
    requires
        s.len() == 32,
        0 <= i < 32,
        !is_hex_digit(s[i]),
    ensures
        !valid_id(s),
{
}

/// The prefix followed by an identifier carries that identifier.
pub proof fn lemma_bare_id(id: Seq<char>)
    requires
        valid_id(id),
    ensures
        extracted_id(PAGE_URL_PREFIX@ + id) == Some(id),
{
    lemma_id_has_no_marks(id);
    lemma_page_path(id, Seq::empty());
    assert(PAGE_URL_PREFIX@ + id + Seq::<char>::empty() =~= PAGE_URL_PREFIX@ + id);
}

/// A closing slash behind the identifier changes nothing.
pub proof fn lemma_trailing_slash(id: Seq<char>)
    requires
        valid_id(id),
    ensures
        extracted_id(PAGE_URL_PREFIX@ + id + seq!['/']) == Some(id),
{
    lemma_id_has_no_marks(id);
    let path = id + seq!['/'];
    lemma_page_path(path, Seq::empty());
    assert(PAGE_URL_PREFIX@ + path + Seq::<char>::empty() =~= PAGE_URL_PREFIX@ + id + seq!['/']);
    assert(path.drop_last() =~= id);
}

/// A query string behind the identifier is ignored, whatever it holds.
pub proof fn lemma_query_is_ignored(id: Seq<char>, query: Seq<char>)
    requires
        valid_id(id),
    ensures
        extracted_id(PAGE_URL_PREFIX@ + id + seq!['?'] + query) == Some(id),
{
    lemma_id_has_no_marks(id);
    let tail = seq!['?'] + query;
    lemma_page_path(id, tail);
    assert(PAGE_URL_PREFIX@ + id + tail =~= PAGE_URL_PREFIX@ + id + seq!['?'] + query);
}

/// A title, a hyphen and an identifier carry that identifier, whatever the
/// title holds but `?`: a `?` in the title would start the query.
pub proof fn lemma_slug(title: Seq<char>, id: Seq<char>)
    requires
        valid_id(id),
        forall|j: int| 0 <= j < title.len() ==> title[j] != '?',
    ensures
        extracted_id(PAGE_URL_PREFIX@ + title + seq!['-'] + id) == Some(id),
{
    lemma_id_has_no_marks(id);
    let path = title + seq!['-'] + id;
    lemma_page_path(path, Seq::empty());
    assert(PAGE_URL_PREFIX@ + path + Seq::<char>::empty() =~= PAGE_URL_PREFIX@ + title + seq!['-']
        + id);
    assert(path.last() == id.last());
    lemma_last_piece_start(path, title.len() as int + 1);
    assert(last_piece(path) =~= id);
}

/// A string that does not start with the prefix carries no identifier.
pub proof fn lemma_other_prefix(url: Seq<char>)
    requires
        !PAGE_URL_PREFIX@.is_prefix_of(url),
    ensures
        extracted_id(url) is None,
{
}

/// What a link carries is an identifier, and the end of the link's path.
pub proof fn lemma_extracted_is_valid(url: Seq<char>)
    requires
        extracted_id(url) is Some,
    ensures
        valid_id(extracted_id(url)->0),
        PAGE_URL_PREFIX@.is_prefix_of(url),
        extracted_id(url)->0.is_suffix_of(page_path(url)),
{
    let path = page_path(url);
    assert(path.skip(path.len() - path.len()) =~= path);
    let piece = last_piece(path);
    assert(last_piece_start(path) <= path.len()) by {
        lemma_last_piece_start_bound(path);
    }
    assert(path.skip(path.len() - piece.len()) =~= piece);
}

/// A link whose path is shorter than an identifier carries none.
pub proof fn lemma_short_path(url: Seq<char>)
    requires
        page_path(url).len() < 32,
    ensures
        extracted_id(url) is None,
{
    lemma_last_piece_start_bound(page_path(url));
}

/// The last piece starts inside the string.
proof fn lemma_last_piece_start_bound(s: Seq<char>)
    ensures
        last_piece_start(s) <= s.len(),
    decreases s.len(),
{
    if s.len() > 0 && s.last() != '-' {
        lemma_last_piece_start_bound(s.drop_last());
    }
}

fn hex_digit(c: char) -> (r: bool)
    ensures
        r == is_hex_digit(c),
{
    ('0' <= c && c <= '9') || ('a' <= c && c <= 'f') || ('A' <= c && c <= 'F')
}

/// The characters of `s`, in one pass.
fn chars_of(s: &str) -> (v: Vec<char>)
    ensures
        v@ == s@,
{
    broadcast use vstd::string::group_string_axioms;

    let mut v: Vec<char> = Vec::new();
    for c in it: s.chars()
        invariant
            v@.len() == it.index(),
            forall|j: int| 0 <= j < v@.len() ==> v@[j] == it.seq()[j],
            it.seq() == s@,
    {
        v.push(c);
    }
    assert(v@ =~= s@);
    v
}

fn starts_with(s: &Vec<char>, p: &Vec<char>) -> (r: bool)
    ensures
        r == p@.is_prefix_of(s@),
{
    if p.len() > s.len() {
        return false;
    }
    let mut i: usize = 0;
    while i < p.len()
        invariant
            i <= p.len() <= s.len(),
            forall|j: int| 0 <= j < i ==> s@[j] == p@[j],
        decreases p.len() - i,
    {
        if s[i] != p[i] {
            assert(s@.subrange(0, p@.len() as int)[i as int] != p@[i as int]);
            return false;
        }
        i += 1;
    }
    assert(p@ =~= s@.subrange(0, p@.len() as int));
    true
}

/// Where the path that starts at `from` ends: at the first `?`, or at the
/// end of `s`.
fn query_start(s: &Vec<char>, from: usize) -> (r: usize)
    requires
        from <= s.len(),
    ensures
        r == from + first_index(s@.skip(from as int), '?'),
        from <= r <= s.len(),
{
    let mut i: usize = from;
    while i < s.len() && s[i] != '?'
        invariant
            from <= i <= s.len(),
            forall|j: int| from <= j < i ==> s@[j] != '?',
        decreases s.len() - i,
    {
        i += 1;
    }
    proof {
        lemma_first_index(s@.skip(from as int), '?', i - from);
    }
    i
}

/// Where the last hyphen-separated piece of `s[lo..hi]` starts.
fn piece_start(s: &Vec<char>, lo: usize, hi: usize) -> (r: usize)
    requires
        lo <= hi <= s.len(),
    ensures
        r == lo + last_piece_start(s@.subrange(lo as int, hi as int)),
        lo <= r <= hi,
{
    let mut i: usize = hi;
    while i > lo && s[i - 1] != '-'
        invariant
            lo <= i <= hi <= s.len(),
            forall|j: int| i <= j < hi ==> s@[j] != '-',
        decreases i,
    {
        i -= 1;
    }
    proof {
        lemma_last_piece_start(s@.subrange(lo as int, hi as int), i - lo);
    }
    i
}

/// Whether `id` has the shape of a page identifier: 32 characters, each a
/// hexadecimal digit of either case.
pub fn is_valid_notion_id(id: &str) -> (r: bool)
    ensures
        r == valid_id(id@),
{
    let len: usize = id.unicode_len();
    if len != NOTION_ID_LEN {
        return false;
    }
    let mut i: usize = 0;
    while i < len
        invariant
            len == id@.len(),
            i <= len,
            forall|j: int| 0 <= j < i ==> is_hex_digit(#[trigger] id@[j]),
        decreases len - i,
    {
        if !hex_digit(id.get_char(i)) {
            return false;
        }
        i += 1;
    }
    true
}

/// The identifier of the page that `url` points at, or `None` where `url` is
/// no page link or its path holds no identifier.
pub fn extract_page_id_from_url(url: &str) -> (r: Option<String>)
    ensures
        r is Some <==> extracted_id(url@) is Some,
        r is Some ==> extracted_id(url@) == Some(r->0@),
{
    let chars = chars_of(url);
    let prefix = chars_of(PAGE_URL_PREFIX);
    if !starts_with(&chars, &prefix) {
        return None;
    }
    let start: usize = prefix.len();
    let stop: usize = query_start(&chars, start);
    let end: usize = if stop > start && chars[stop - 1] == '/' {
        stop - 1
    } else {
        stop
    };
    let ghost rest = url@.skip(start as int);
    assert(before_query(rest) =~= url@.subrange(start as int, stop as int));
    assert(page_path(url@) =~= url@.subrange(start as int, end as int));

    let segment = url.substring_char(start, end);
    if is_valid_notion_id(segment) {
        return Some(segment.to_owned());
    }
    let cut: usize = piece_start(&chars, start, end);
    assert(last_piece(page_path(url@)) =~= url@.subrange(cut as int, end as int));
    let piece = url.substring_char(cut, end);
    if is_valid_notion_id(piece) {
        return Some(piece.to_owned());
    }
    None
}

} // verus!
