//! Clean-up of the text a chat-completion model returns as its translation.
use vstd::prelude::*;
use vstd::string::*;

use crate::segmenter::occurs_in;
use crate::text::{
    char_width, chars_of, contains, find, find_chars, lemma_find_from_facts, replace_all, replace_str,
    string_of_range, trim, trim_str, utf8_len, utf8_len_exceeds,
};

verus! {

/// The lowercase form of `s` as `str::to_lowercase` computes it (Unicode `Lowercase` mapping).
pub uninterp spec fn lowercase(s: Seq<char>) -> Seq<char>;

/// The lowercase form of a string.
///
/// Trusted: calls `str::to_lowercase`, whose result depends on its argument
/// alone and is named `lowercase`; nothing more of it is stated (the mapping
/// is Unicode's and may change the number of characters and of bytes).
#[verifier::external_body]
pub(crate) fn to_lowercase(s: &str) -> (r: String)
    ensures
        r@ == lowercase(s@),
{
    s.to_lowercase()
}

/// The separators text is split on.
#[derive(Clone, Copy, PartialEq, Eq, Structural, Debug)]
pub enum SepKind {
    /// `.`, `!` and `?`
    SentenceEnd,
    /// `"`
    Quote,
}

/// Whether `c` is a separator of the given kind.
pub open spec fn is_sep(kind: SepKind, c: char) -> bool {
    match kind {
        SepKind::SentenceEnd => c == '.' || c == '!' || c == '?',
        SepKind::Quote => c == '"',
    }
}

fn sep_holds(kind: SepKind, c: char) -> (b: bool)
    ensures
        b == is_sep(kind, c),
{
    match kind {
        SepKind::SentenceEnd => c == '.' || c == '!' || c == '?',
        SepKind::Quote => c == '"',
    }
}

/// The first position at or after `i` of a separator of the given kind.
pub open spec fn first_sep(s: Seq<char>, kind: SepKind, i: int) -> Option<int>
    decreases s.len() - i,
{
    if i < 0 || i >= s.len() {
        None
    } else if is_sep(kind, s[i]) {
        Some(i)
    } else {
        first_sep(s, kind, i + 1)
    }
}

/// What `first_sep` returns: the first separator at or after `i`, if any.
pub proof fn lemma_first_sep_facts(s: Seq<char>, kind: SepKind, i: int)
    requires
        0 <= i,
    ensures
        first_sep(s, kind, i) matches Some(k) ==> i <= k < s.len() && is_sep(kind, s[k])
            && forall|j: int| i <= j < k ==> !is_sep(kind, #[trigger] s[j]),
        first_sep(s, kind, i) is None ==> forall|j: int| i <= j < s.len() ==> !is_sep(kind, #[trigger] s[j]),
    decreases s.len() - i,
{
    if i < s.len() && !is_sep(kind, s[i]) {
        lemma_first_sep_facts(s, kind, i + 1);
    }
}

/// The pieces of `s[i..]` between separators of the given kind (`str::split`
/// with a character pattern: `n` separators give `n + 1` pieces).
pub open spec fn split_from(s: Seq<char>, kind: SepKind, i: int) -> Seq<Seq<char>>
    decreases s.len() + 1 - i,
{
    if i < 0 || i > s.len() {
        Seq::empty()
    } else {
        match first_sep(s, kind, i) {
            None => seq![s.subrange(i, s.len() as int)],
            Some(k) => {
                proof {
                    lemma_first_sep_facts(s, kind, i);
                }
                seq![s.subrange(i, k)] + split_from(s, kind, k + 1)
            },
        }
    }
}

/// The views of a list of strings.
pub open spec fn views(v: Seq<String>) -> Seq<Seq<char>> {
    v.map_values(|s: String| s@)
}

fn first_sep_exec(v: &Vec<char>, kind: SepKind, from: usize) -> (r: Option<usize>)
    requires
        from <= v.len(),
    ensures
        r matches Some(k) ==> first_sep(v@, kind, from as int) == Some(k as int),
        r is None ==> first_sep(v@, kind, from as int) is None,
{
    let mut i = from;
    proof {
        lemma_first_sep_facts(v@, kind, from as int);
    }
    while i < v.len()
        invariant
            from <= i <= v.len(),
            forall|j: int| from <= j < i ==> !is_sep(kind, #[trigger] v@[j]),
            first_sep(v@, kind, from as int) matches Some(k) ==> from <= k < v@.len() && is_sep(kind, v@[k])
                && forall|j: int| from <= j < k ==> !is_sep(kind, #[trigger] v@[j]),
            first_sep(v@, kind, from as int) is None ==> forall|j: int|
                from <= j < v@.len() ==> !is_sep(kind, #[trigger] v@[j]),
        decreases v.len() - i,
    {
        if sep_holds(kind, v[i]) {
            return Some(i);
        }
        i += 1;
    }
    None
}

/// Splits `v` on separators of the given kind.
pub fn split_chars(v: &Vec<char>, kind: SepKind) -> (parts: Vec<String>)
    ensures
        views(parts@) == split_from(v@, kind, 0),
{
    let mut parts: Vec<String> = Vec::new();
    let mut start: usize = 0;
    loop
        invariant
            start <= v.len(),
            views(parts@) + split_from(v@, kind, start as int) == split_from(v@, kind, 0),
        decreases v.len() - start,
    {
        proof {
            lemma_first_sep_facts(v@, kind, start as int);
        }
        match first_sep_exec(v, kind, start) {
            None => {
                let piece = string_of_range(v, start, v.len());
                let ghost before = views(parts@);
                parts.push(piece);
                proof {
                    assert(views(parts@) =~= before.push(piece@));
                    assert(split_from(v@, kind, start as int) == seq![v@.subrange(start as int, v@.len() as int)]);
                    assert(before.push(piece@) =~= before + split_from(v@, kind, start as int));
                }
                return parts;
            },
            Some(k) => {
                let piece = string_of_range(v, start, k);
                let ghost before = views(parts@);
                parts.push(piece);
                proof {
                    assert(views(parts@) =~= before.push(piece@));
                    assert(split_from(v@, kind, start as int) == seq![v@.subrange(start as int, k as int)]
                        + split_from(v@, kind, k + 1));
                    assert(before.push(piece@) + split_from(v@, kind, k + 1) =~= before + split_from(
                        v@,
                        kind,
                        start as int,
                    ));
                }
                start = k + 1;
            },
        }
    }
}

/// `s` without its leading `"` characters.
pub open spec fn strip_quotes_start(s: Seq<char>) -> Seq<char>
    decreases s.len(),
{
    if s.len() > 0 && s[0] == '"' { strip_quotes_start(s.drop_first()) } else { s }
}

/// `s` without its trailing `"` characters.
pub open spec fn strip_quotes_end(s: Seq<char>) -> Seq<char>
    decreases s.len(),
{
    if s.len() > 0 && s.last() == '"' { strip_quotes_end(s.drop_last()) } else { s }
}

/// `s` without leading and trailing `"` characters (`str::trim_matches('"')`).
pub open spec fn strip_quotes(s: Seq<char>) -> Seq<char> {
    strip_quotes_end(strip_quotes_start(s))
}

proof fn lemma_strip_start_skip(s: Seq<char>, i: int)
    requires
        0 <= i <= s.len(),
        forall|k: int| 0 <= k < i ==> #[trigger] s[k] == '"',
    ensures
        strip_quotes_start(s) == strip_quotes_start(s.skip(i)),
    decreases i,
{
    if i > 0 {
        assert(s[0] == '"');
        assert(s.skip(1) == s.drop_first());
        lemma_strip_start_skip(s.drop_first(), i - 1);
        assert(s.drop_first().skip(i - 1) == s.skip(i));
    } else {
        assert(s.skip(0) == s);
    }
}

proof fn lemma_strip_end_take(s: Seq<char>, j: int)
    requires
        0 <= j <= s.len(),
        forall|k: int| j <= k < s.len() ==> #[trigger] s[k] == '"',
    ensures
        strip_quotes_end(s) == strip_quotes_end(s.take(j)),
    decreases s.len() - j,
{
    if j < s.len() {
        assert(s.take(s.len() - 1) == s.drop_last());
        lemma_strip_end_take(s.drop_last(), j);
        assert(s.drop_last().take(j) == s.take(j));
    } else {
        assert(s.take(j) == s);
    }
}

/// Removes leading and trailing `"` characters.
pub fn strip_quotes_str(s: &str) -> (r: String)
    ensures
        r@ == strip_quotes(s@),
{
    let v = chars_of(s);
    let mut i: usize = 0;
    while i < v.len() && v[i] == '"'
        invariant
            v@ == s@,
            i <= v.len(),
            forall|k: int| 0 <= k < i ==> #[trigger] v@[k] == '"',
        decreases v.len() - i,
    {
        i += 1;
    }
    let mut j: usize = v.len();
    while j > i && v[j - 1] == '"'
        invariant
            v@ == s@,
            i <= j <= v.len(),
            forall|k: int| j <= k < v.len() ==> #[trigger] v@[k] == '"',
        decreases j - i,
    {
        j -= 1;
    }
    proof {
        lemma_strip_start_skip(v@, i as int);
        let t = v@.skip(i as int);
        if i < v.len() {
            assert(t[0] == v@[i as int]);
        }
        assert(strip_quotes_start(t) == t);
        assert forall|k: int| j - i <= k < t.len() implies #[trigger] t[k] == '"' by {
            assert(t[k] == v@[k + i]);
        }
        lemma_strip_end_take(t, j - i);
        let u = t.take(j - i);
        assert(u == v@.subrange(i as int, j as int));
        if j > i {
            assert(u.last() == v@[j - 1]);
        }
        assert(strip_quotes_end(u) == u);
    }
    string_of_range(&v, i, j)
}

} // verus!

verus! {

/// Whether `p` occurs in `s`.
pub fn contains_str(s: &str, p: &str) -> (b: bool)
    ensures
        b == contains(s@, p@),
{
    let v = chars_of(s);
    let pv = chars_of(p);
    find_chars(&v, &pv, 0).is_some()
}

/// Whether lowercased model output reads like commentary rather than a bare translation.
pub open spec fn is_verbose(lower: Seq<char>) -> bool {
    ||| contains(lower, "okay"@)
    ||| contains(lower, "let's see"@)
    ||| contains(lower, "the user said"@)
    ||| contains(lower, "the user wrote"@)
    ||| contains(lower, "translates to"@)
    ||| contains(lower, "breaking it down"@)
    ||| contains(lower, "first,"@)
    ||| contains(lower, "i need to"@)
    ||| contains(lower, "putting it together"@)
    ||| contains(lower, "let me break"@)
}

/// Output that mentions any of the ten commentary phrases counts as
/// commentary, and output that mentions none of them does not.
pub proof fn law_commentary_phrases(lower: Seq<char>)
    ensures
        contains(lower, "okay"@) ==> is_verbose(lower),
        contains(lower, "let's see"@) ==> is_verbose(lower),
        contains(lower, "the user said"@) ==> is_verbose(lower),
        contains(lower, "the user wrote"@) ==> is_verbose(lower),
        contains(lower, "translates to"@) ==> is_verbose(lower),
        contains(lower, "breaking it down"@) ==> is_verbose(lower),
        contains(lower, "first,"@) ==> is_verbose(lower),
        contains(lower, "i need to"@) ==> is_verbose(lower),
        contains(lower, "putting it together"@) ==> is_verbose(lower),
        contains(lower, "let me break"@) ==> is_verbose(lower),
        !contains(lower, "okay"@) && !contains(lower, "let's see"@) && !contains(lower, "the user said"@) && !contains(
            lower,
            "the user wrote"@,
        ) && !contains(lower, "translates to"@) && !contains(lower, "breaking it down"@) && !contains(lower, "first,"@)
            && !contains(lower, "i need to"@) && !contains(lower, "putting it together"@) && !contains(
            lower,
            "let me break"@,
        ) ==> !is_verbose(lower),
{
}

fn verbose(lower: &str) -> (b: bool)
    ensures
        b == is_verbose(lower@),
{
    contains_str(lower, "okay") || contains_str(lower, "let's see") || contains_str(lower, "the user said")
        || contains_str(lower, "the user wrote") || contains_str(lower, "translates to")
        || contains_str(lower, "breaking it down") || contains_str(lower, "first,")
        || contains_str(lower, "i need to") || contains_str(lower, "putting it together")
        || contains_str(lower, "let me break")
}

/// The position `j` of `t` whose prefix `t[..j]` takes exactly `b` bytes
/// (where `&t[b..]` may cut), searched from `j`; `None` when `b` is not a
/// character boundary of `t` (where slicing there panics).
pub open spec fn cut_from(t: Seq<char>, b: int, j: int) -> Option<int>
    decreases t.len() - j,
{
    if j < 0 || j > t.len() {
        None
    } else if utf8_len(t.take(j)) == b {
        Some(j)
    } else if utf8_len(t.take(j)) > b || j == t.len() {
        None
    } else {
        cut_from(t, b, j + 1)
    }
}

/// The bytes of the first `n` characters of `v`.
fn utf8_prefix_len(v: &Vec<char>, n: usize) -> (r: u128)
    requires
        n <= v.len(),
    ensures
        r == utf8_len(v@.take(n as int)),
        r <= 4 * n,
{
    let mut acc: u128 = 0;
    let mut i: usize = 0;
    while i < n
        invariant
            i <= n <= v.len(),
            acc == utf8_len(v@.take(i as int)),
            acc <= 4 * i,
        decreases n - i,
    {
        assert(v@.take(i + 1).drop_last() == v@.take(i as int));
        acc = acc + char_width(v[i]) as u128;
        i += 1;
    }
    acc
}

fn byte_cut(v: &Vec<char>, b: u128) -> (r: Option<usize>)
    requires
        b < 0x1_0000_0000_0000_0000_0000_0000,
    ensures
        r matches Some(j) ==> cut_from(v@, b as int, 0) == Some(j as int),
        r is None ==> cut_from(v@, b as int, 0) is None,
{
    let mut acc: u128 = 0;
    let mut j: usize = 0;
    loop
        invariant
            j <= v.len(),
            acc == utf8_len(v@.take(j as int)),
            acc <= b + 4,
            b < 0x1_0000_0000_0000_0000_0000_0000,
            cut_from(v@, b as int, 0) == cut_from(v@, b as int, j as int),
        decreases v.len() - j,
    {
        if acc == b {
            return Some(j);
        }
        if acc > b || j == v.len() {
            return None;
        }
        assert(v@.take(j + 1).drop_last() == v@.take(j as int));
        acc = acc + char_width(v[j]) as u128;
        j += 1;
    }
}

/// The text between the first two `"` of `after`, if it has two.
pub open spec fn first_quoted(after: Seq<char>) -> Option<Seq<char>> {
    match first_sep(after, SepKind::Quote, 0) {
        None => None,
        Some(q1) => {
            let rest = after.skip(q1 + 1);
            match first_sep(rest, SepKind::Quote, 0) {
                None => None,
                Some(q2) => Some(rest.take(q2)),
            }
        },
    }
}

/// `after` up to its first sentence end.
pub open spec fn first_piece(after: Seq<char>) -> Seq<char> {
    match first_sep(after, SepKind::SentenceEnd, 0) {
        None => after,
        Some(k) => after.take(k),
    }
}

/// What follows "translates to" yields: the quoted text if there is one,
/// else the first sentence trimmed and unquoted, unless that is empty.
pub open spec fn after_cut(after: Seq<char>) -> Option<Seq<char>> {
    match first_quoted(after) {
        Some(q) => Some(q),
        None => {
            let fs = strip_quotes(trim(first_piece(after)));
            if fs.len() > 0 { Some(fs) } else { None }
        },
    }
}

/// The trimmed pieces that are not empty.
pub open spec fn nonblank_trimmed(pieces: Seq<Seq<char>>) -> Seq<Seq<char>>
    decreases pieces.len(),
{
    if pieces.len() == 0 {
        Seq::empty()
    } else {
        let rest = nonblank_trimmed(pieces.drop_last());
        let x = trim(pieces.last());
        if x.len() > 0 { rest.push(x) } else { rest }
    }
}

/// A sentence free of commentary phrases and of quotes.
pub open spec fn is_plain(s: Seq<char>) -> bool {
    !is_verbose(lowercase(s)) && !contains(s, "\""@)
}

/// The last plain sentence, if any.
pub open spec fn last_plain(ss: Seq<Seq<char>>) -> Option<Seq<char>>
    decreases ss.len(),
{
    if ss.len() == 0 {
        None
    } else if is_plain(ss.last()) {
        Some(ss.last())
    } else {
        last_plain(ss.drop_last())
    }
}

/// The clean-up of a trimmed output `t` that has no usable "translates to" part.
pub open spec fn clean_rest(t: Seq<char>) -> Seq<char> {
    let parts = split_from(t, SepKind::Quote, 0);
    let cand = trim(parts.last());
    if parts.len() >= 3 && cand.len() > 0 && utf8_len(cand) < 100 {
        cand
    } else if is_verbose(lowercase(t)) {
        let sentences = nonblank_trimmed(split_from(t, SepKind::SentenceEnd, 0));
        match last_plain(sentences) {
            Some(s) => trim(s),
            None => if sentences.len() > 0 { trim(sentences.last()) } else { Seq::empty() },
        }
    } else {
        t
    }
}

/// The phrase that introduces a translation inside commentary.
pub open spec fn needle() -> Seq<char> {
    "translates to"@
}

/// Whether the clean-up can cut the trimmed output `t` where it looks for
/// the text after "translates to" (found in the lowercase form `lower`):
/// `&t[pos + 13..]` takes a byte position of `lower`, which must also be a
/// character boundary of `t`.
pub open spec fn cut_ok(t: Seq<char>, lower: Seq<char>) -> bool {
    match find(lower, needle()) {
        Some(ci) => cut_from(t, utf8_len(lower.take(ci)) + 13int, 0) is Some,
        None => true,
    }
}

/// The clean-up of model output: the text after "translates to" (its quoted
/// part, else its first sentence), else the last quoted segment when short,
/// else, for commentary, its last plain sentence, else the trimmed output.
pub open spec fn clean_spec(text: Seq<char>) -> Seq<char> {
    let t = trim(text);
    let lower = lowercase(t);
    match find(lower, needle()) {
        Some(ci) => match cut_from(t, utf8_len(lower.take(ci)) + 13int, 0) {
            Some(j) => match after_cut(t.skip(j)) {
                Some(r) => r,
                None => clean_rest(t),
            },
            None => t,
        },
        None => clean_rest(t),
    }
}

} // verus!

verus! {

fn first_quoted_exec(after: &Vec<char>) -> (r: Option<String>)
    ensures
        r is None <==> first_quoted(after@) is None,
        r matches Some(q) ==> first_quoted(after@) == Some(q@),
{
    match first_sep_exec(after, SepKind::Quote, 0) {
        None => None,
        Some(q1) => {
            proof {
                lemma_first_sep_facts(after@, SepKind::Quote, 0);
            }
            assert(first_sep(after@, SepKind::Quote, 0) == Some(q1 as int));
            assert(q1 < after.len());
            let rest_s = string_of_range(after, q1 + 1, after.len());
            let rest = chars_of(rest_s.as_str());
            assert(rest@ == after@.skip(q1 + 1));
            match first_sep_exec(&rest, SepKind::Quote, 0) {
                None => None,
                Some(q2) => {
                    proof {
                        lemma_first_sep_facts(rest@, SepKind::Quote, 0);
                    }
                    let q = string_of_range(&rest, 0, q2);
                    assert(rest@.subrange(0, q2 as int) == rest@.take(q2 as int));
                    Some(q)
                },
            }
        },
    }
}

fn first_piece_exec(after: &Vec<char>) -> (r: String)
    ensures
        r@ == first_piece(after@),
{
    match first_sep_exec(after, SepKind::SentenceEnd, 0) {
        None => {
            let r = string_of_range(after, 0, after.len());
            assert(after@.subrange(0, after@.len() as int) == after@);
            r
        },
        Some(k) => {
            proof {
                lemma_first_sep_facts(after@, SepKind::SentenceEnd, 0);
            }
            let r = string_of_range(after, 0, k);
            assert(after@.subrange(0, k as int) == after@.take(k as int));
            r
        },
    }
}

fn after_cut_exec(after: &Vec<char>) -> (r: Option<String>)
    ensures
        r is None <==> after_cut(after@) is None,
        r matches Some(q) ==> after_cut(after@) == Some(q@),
{
    match first_quoted_exec(after) {
        Some(q) => Some(q),
        None => {
            let piece = first_piece_exec(after);
            let trimmed = trim_str(piece.as_str());
            let fs = strip_quotes_str(trimmed.as_str());
            if fs.as_str().unicode_len() > 0 {
                Some(fs)
            } else {
                None
            }
        },
    }
}

fn nonblank_trimmed_exec(pieces: &Vec<String>) -> (r: Vec<String>)
    ensures
        views(r@) == nonblank_trimmed(views(pieces@)),
{
    let mut r: Vec<String> = Vec::new();
    let mut i: usize = 0;
    while i < pieces.len()
        invariant
            i <= pieces.len(),
            views(r@) == nonblank_trimmed(views(pieces@).take(i as int)),
        decreases pieces.len() - i,
    {
        let x = trim_str(pieces[i].as_str());
        let ghost before = views(r@);
        proof {
            let pre = views(pieces@).take(i + 1);
            assert(pre.drop_last() == views(pieces@).take(i as int));
            assert(pre.last() == pieces@[i as int]@);
        }
        if x.as_str().unicode_len() > 0 {
            let ghost xv = x@;
            r.push(x);
            assert(views(r@) =~= before.push(xv));
        }
        i += 1;
    }
    assert(views(pieces@).take(pieces@.len() as int) == views(pieces@));
    r
}

fn last_plain_exec(ss: &Vec<String>) -> (r: Option<String>)
    ensures
        r is None <==> last_plain(views(ss@)) is None,
        r matches Some(s) ==> last_plain(views(ss@)) == Some(s@),
{
    let mut n: usize = ss.len();
    assert(views(ss@).take(ss@.len() as int) == views(ss@));
    while n > 0
        invariant
            n <= ss.len(),
            last_plain(views(ss@)) == last_plain(views(ss@).take(n as int)),
        decreases n,
    {
        let s = &ss[n - 1];
        let lower = to_lowercase(s.as_str());
        let plain = !verbose(lower.as_str()) && !contains_str(s.as_str(), "\"");
        proof {
            let pre = views(ss@).take(n as int);
            assert(pre.last() == s@);
            assert(pre.drop_last() == views(ss@).take(n - 1));
        }
        if plain {
            return Some(s.clone());
        }
        n -= 1;
    }
    None
}

fn clean_rest_exec(t: &str) -> (r: String)
    ensures
        r@ == clean_rest(t@),
{
    let v = chars_of(t);
    let parts = split_chars(&v, SepKind::Quote);
    proof {
        assert(split_from(v@, SepKind::Quote, 0).len() >= 1) by {
            lemma_first_sep_facts(v@, SepKind::Quote, 0);
        }
    }
    let cand = trim_str(parts[parts.len() - 1].as_str());
    assert(views(parts@).last() == parts@[parts.len() - 1]@);
    if parts.len() >= 3 && cand.as_str().unicode_len() > 0 && !utf8_len_exceeds(cand.as_str(), 99) {
        return cand;
    }
    let lower = to_lowercase(t);
    if verbose(lower.as_str()) {
        let pieces = split_chars(&v, SepKind::SentenceEnd);
        let sentences = nonblank_trimmed_exec(&pieces);
        match last_plain_exec(&sentences) {
            Some(s) => trim_str(s.as_str()),
            None => if sentences.len() > 0 {
                assert(views(sentences@).last() == sentences@[sentences.len() - 1]@);
                trim_str(sentences[sentences.len() - 1].as_str())
            } else {
                String::new()
            },
        }
    } else {
        t.to_string()
    }
}

} // verus!

verus! {

/// The result of the clean-up on the trimmed output `t`, whose lowercase
/// form is `lower`, or `None` where cutting `t` at the byte position found in
/// `lower` would split a character (slicing a `str` there panics).
fn clean_trimmed(t: &str, lower: &str) -> (r: Option<String>)
    requires
        lower@ == lowercase(t@),
        t@ == trim(t@),
    ensures
        r is Some <==> cut_ok(t@, lower@),
        r matches Some(s) ==> s@ == clean_spec(t@),
{
    let lv = chars_of(lower);
    let nv = chars_of("translates to");
    proof {
        assert(nv@ == needle());
        lemma_trim_idempotent(t@);
    }
    match find_chars(&lv, &nv, 0) {
        None => Some(clean_rest_exec(t)),
        Some(ci) => {
            proof {
                lemma_find_from_facts(lv@, nv@, 0);
                reveal_strlit("translates to");
            }
            let prefix = utf8_prefix_len(&lv, ci);
            let b: u128 = prefix + 13;
            let tv = chars_of(t);
            match byte_cut(&tv, b) {
                None => None,
                Some(j) => {
                    proof {
                        assert(cut_from(tv@, b as int, 0) == Some(j as int));
                        assert(j <= tv@.len()) by {
                            lemma_cut_from_range(tv@, b as int, 0);
                        }
                    }
                    let after_s = string_of_range(&tv, j, tv.len());
                    let after = chars_of(after_s.as_str());
                    assert(after@ == t@.skip(j as int));
                    match after_cut_exec(&after) {
                        Some(r) => Some(r),
                        None => Some(clean_rest_exec(t)),
                    }
                },
            }
        },
    }
}

proof fn lemma_cut_from_range(t: Seq<char>, b: int, j: int)
    ensures
        cut_from(t, b, j) matches Some(k) ==> j <= k <= t.len(),
    decreases t.len() - j,
{
    if 0 <= j && j <= t.len() && utf8_len(t.take(j)) != b && !(utf8_len(t.take(j)) > b || j == t.len()) {
        lemma_cut_from_range(t, b, j + 1);
    }
}

/// Trimming twice is trimming once.
pub proof fn lemma_trim_idempotent(s: Seq<char>)
    ensures
        trim(trim(s)) == trim(s),
{
    crate::text::lemma_trim_start_head(s);
    let a = crate::text::trim_start(s);
    lemma_trim_end_keeps_head(a);
    let t = crate::text::trim_end(a);
    if t.len() > 0 {
        assert(crate::text::trim_start(t) == t);
        lemma_trim_end_tail(a);
        assert(crate::text::trim_end(t) == t);
    } else {
        assert(crate::text::trim_start(t) == t);
        assert(crate::text::trim_end(t) == t);
    }
}

proof fn lemma_trim_end_keeps_head(a: Seq<char>)
    ensures
        crate::text::trim_end(a).len() > 0 ==> crate::text::trim_end(a)[0] == a[0],
        crate::text::trim_end(a).len() <= a.len(),
    decreases a.len(),
{
    if a.len() > 0 && crate::text::is_ws(a.last()) {
        lemma_trim_end_keeps_head(a.drop_last());
    }
}

proof fn lemma_trim_end_tail(a: Seq<char>)
    ensures
        crate::text::trim_end(a).len() > 0 ==> !crate::text::is_ws(crate::text::trim_end(a).last()),
    decreases a.len(),
{
    if a.len() > 0 && crate::text::is_ws(a.last()) {
        lemma_trim_end_tail(a.drop_last());
    }
}

/// Cleans up the text a chat-completion model returned as a translation:
/// keeps the text after "translates to" (its quoted part, else its first
/// sentence), else the last quoted segment when it is short, else, for
/// commentary, its last plain sentence; otherwise the trimmed text.
pub fn clean_groq_output(text: &str) -> (r: String)
    requires
        cut_ok(trim(text@), lowercase(trim(text@))),
    ensures
        r@ == clean_spec(text@),
{
    let t = trim_str(text);
    let lower = to_lowercase(t.as_str());
    proof {
        lemma_trim_idempotent(text@);
        assert(clean_spec(t@) == clean_spec(text@));
    }
    match clean_trimmed(t.as_str(), lower.as_str()) {
        Some(r) => r,
        None => t,
    }
}

/// The clean-up, or `None` for an output on which the clean-up's cut after
/// "translates to" does not fall on a character boundary (where the
/// clean-up panics).
pub fn try_clean_groq_output(text: &str) -> (r: Option<String>)
    ensures
        r is Some <==> cut_ok(trim(text@), lowercase(trim(text@))),
        r matches Some(s) ==> s@ == clean_spec(text@),
{
    let t = trim_str(text);
    let lower = to_lowercase(t.as_str());
    proof {
        lemma_trim_idempotent(text@);
    }
    if clean_trimmed(t.as_str(), lower.as_str()).is_some() {
        Some(clean_groq_output(text))
    } else {
        None
    }
}

} // verus!

verus! {

/// The view of an optional string.
pub open spec fn opt_view(o: Option<String>) -> Option<Seq<char>> {
    match o {
        Some(s) => Some(s@),
        None => None,
    }
}

/// The text a completion's first choice carries, made ready for clean-up:
/// trimmed, with `<think>` and `</think>` tags removed.
pub open spec fn completion_text(content: Option<Seq<char>>) -> Seq<char> {
    let c = match content {
        Some(c) => trim(c),
        None => Seq::empty(),
    };
    replace_all(replace_all(c, "<think>"@, Seq::empty()), "</think>"@, Seq::empty())
}

/// The translation taken from a completion's first choice (the empty text
/// stands for a missing choice), or `None` where the clean-up panics.
pub fn completion_translation(content: Option<String>) -> (r: Option<String>)
    ensures
        r is Some <==> cut_ok(
            trim(completion_text(opt_view(content))),
            lowercase(trim(completion_text(opt_view(content)))),
        ),
        r matches Some(s) ==> s@ == clean_spec(completion_text(opt_view(content))),
{
    let ghost cv = opt_view(content);
    let c = match content {
        Some(c) => trim_str(c.as_str()),
        None => String::new(),
    };
    assert(c@ == (match cv {
        Some(x) => trim(x),
        None => Seq::<char>::empty(),
    }));
    proof {
        reveal_strlit("<think>");
        reveal_strlit("</think>");
        reveal_strlit("");
    }
    let c1 = replace_str(c.as_str(), "<think>", "");
    let c2 = replace_str(c1.as_str(), "</think>", "");
    assert(""@ == Seq::<char>::empty());
    assert(c2@ == completion_text(cv));
    try_clean_groq_output(c2.as_str())
}

} // verus!

verus! {

/// Whether `s` holds no sentence end (`.`, `!`, `?`).
pub open spec fn one_sentence(s: Seq<char>) -> bool {
    forall|k: int| 0 <= k < s.len() ==> !is_sep(SepKind::SentenceEnd, #[trigger] s[k])
}

proof fn lemma_trim_keeps_one_sentence(s: Seq<char>)
    requires
        one_sentence(s),
    ensures
        one_sentence(crate::text::trim_start(s)),
        one_sentence(crate::text::trim_end(s)),
        one_sentence(trim(s)),
    decreases s.len(),
{
    if s.len() > 0 {
        assert(one_sentence(s.drop_first())) by {
            assert forall|k: int| 0 <= k < s.drop_first().len() implies !is_sep(SepKind::SentenceEnd, #[trigger] s.drop_first()[k]) by {
                assert(s.drop_first()[k] == s[k + 1]);
            }
        }
        assert(one_sentence(s.drop_last())) by {
            assert forall|k: int| 0 <= k < s.drop_last().len() implies !is_sep(SepKind::SentenceEnd, #[trigger] s.drop_last()[k]) by {
                assert(s.drop_last()[k] == s[k]);
            }
        }
        lemma_trim_keeps_one_sentence(s.drop_first());
        lemma_trim_keeps_one_sentence(s.drop_last());
    }
    lemma_trim_end_keeps_one_sentence(crate::text::trim_start(s));
}

proof fn lemma_trim_end_keeps_one_sentence(s: Seq<char>)
    requires
        one_sentence(s),
    ensures
        one_sentence(crate::text::trim_end(s)),
    decreases s.len(),
{
    if s.len() > 0 {
        assert(one_sentence(s.drop_last())) by {
            assert forall|k: int| 0 <= k < s.drop_last().len() implies !is_sep(SepKind::SentenceEnd, #[trigger] s.drop_last()[k]) by {
                assert(s.drop_last()[k] == s[k]);
            }
        }
        lemma_trim_end_keeps_one_sentence(s.drop_last());
    }
}

proof fn lemma_sentences_are_single(s: Seq<char>, i: int)
    requires
        0 <= i,
    ensures
        forall|p: int| 0 <= p < split_from(s, SepKind::SentenceEnd, i).len() ==> one_sentence(
            #[trigger] split_from(s, SepKind::SentenceEnd, i)[p],
        ),
    decreases s.len() + 1 - i,
{
    if i <= s.len() {
        lemma_first_sep_facts(s, SepKind::SentenceEnd, i);
        match first_sep(s, SepKind::SentenceEnd, i) {
            None => {
                let piece = s.subrange(i, s.len() as int);
                assert forall|k: int| 0 <= k < piece.len() implies !is_sep(SepKind::SentenceEnd, #[trigger] piece[k]) by {
                    assert(piece[k] == s[i + k]);
                }
                assert(split_from(s, SepKind::SentenceEnd, i) == seq![piece]);
            },
            Some(e) => {
                let piece = s.subrange(i, e);
                assert forall|k: int| 0 <= k < piece.len() implies !is_sep(SepKind::SentenceEnd, #[trigger] piece[k]) by {
                    assert(piece[k] == s[i + k]);
                }
                lemma_sentences_are_single(s, e + 1);
                let rest = split_from(s, SepKind::SentenceEnd, e + 1);
                assert(split_from(s, SepKind::SentenceEnd, i) == seq![piece] + rest);
                assert forall|p: int| 0 <= p < split_from(s, SepKind::SentenceEnd, i).len() implies one_sentence(
                    #[trigger] split_from(s, SepKind::SentenceEnd, i)[p],
                ) by {
                    if p > 0 {
                        assert(split_from(s, SepKind::SentenceEnd, i)[p] == rest[p - 1]);
                    }
                }
            },
        }
    }
}

proof fn lemma_nonblank_single(pieces: Seq<Seq<char>>)
    requires
        forall|p: int| 0 <= p < pieces.len() ==> one_sentence(#[trigger] pieces[p]),
    ensures
        forall|p: int| 0 <= p < nonblank_trimmed(pieces).len() ==> one_sentence(#[trigger] nonblank_trimmed(pieces)[p]),
    decreases pieces.len(),
{
    if pieces.len() > 0 {
        assert(one_sentence(pieces[pieces.len() - 1]));
        assert forall|p: int| 0 <= p < pieces.drop_last().len() implies one_sentence(#[trigger] pieces.drop_last()[p]) by {
            assert(pieces.drop_last()[p] == pieces[p]);
        }
        lemma_nonblank_single(pieces.drop_last());
        lemma_trim_keeps_one_sentence(pieces.last());
        let rest = nonblank_trimmed(pieces.drop_last());
        let all = nonblank_trimmed(pieces);
        assert forall|p: int| 0 <= p < all.len() implies one_sentence(#[trigger] all[p]) by {
            if p < rest.len() {
                assert(all[p] == rest[p]);
            }
        }
    }
}

proof fn lemma_last_plain_member(ss: Seq<Seq<char>>)
    ensures
        last_plain(ss) matches Some(s) ==> exists|p: int| 0 <= p < ss.len() && #[trigger] ss[p] == s,
    decreases ss.len(),
{
    if ss.len() > 0 && !is_plain(ss.last()) {
        lemma_last_plain_member(ss.drop_last());
        if let Some(s) = last_plain(ss.drop_last()) {
            let p = choose|p: int| 0 <= p < ss.drop_last().len() && #[trigger] ss.drop_last()[p] == s;
            assert(ss[p] == s);
        }
    } else if ss.len() > 0 {
        assert(ss[ss.len() - 1] == ss.last());
    }
}

/// Commentary is cut down to a single sentence: when the trimmed output has
/// no quotes, does not say "translates to", and reads as commentary, what is
/// kept holds no sentence end.
pub proof fn law_commentary_keeps_one_sentence(text: Seq<char>)
    requires
        forall|k: int| 0 <= k < trim(text).len() ==> #[trigger] trim(text)[k] != '"',
        find(lowercase(trim(text)), needle()) is None,
        is_verbose(lowercase(trim(text))),
    ensures
        one_sentence(clean_spec(text)),
{
    let t = trim(text);
    lemma_first_sep_facts(t, SepKind::Quote, 0);
    assert(first_sep(t, SepKind::Quote, 0) is None);
    assert(split_from(t, SepKind::Quote, 0).len() == 1);
    let sentences = nonblank_trimmed(split_from(t, SepKind::SentenceEnd, 0));
    lemma_sentences_are_single(t, 0);
    lemma_nonblank_single(split_from(t, SepKind::SentenceEnd, 0));
    lemma_last_plain_member(sentences);
    match last_plain(sentences) {
        Some(s) => {
            let p = choose|p: int| 0 <= p < sentences.len() && #[trigger] sentences[p] == s;
            assert(one_sentence(sentences[p]));
            lemma_trim_keeps_one_sentence(s);
        },
        None => {
            if sentences.len() > 0 {
                assert(one_sentence(sentences[sentences.len() - 1]));
                lemma_trim_keeps_one_sentence(sentences.last());
            }
        },
    }
}

} // verus!

verus! {

proof fn lemma_piece_trans(a: Seq<char>, b: Seq<char>, c: Seq<char>)
    requires
        occurs_in(a, b),
        occurs_in(b, c),
    ensures
        occurs_in(a, c),
{
    let i = choose|i: int| 0 <= i && i + a.len() <= b.len() && #[trigger] b.subrange(i, i + a.len()) == a;
    let k = choose|k: int| 0 <= k && k + b.len() <= c.len() && #[trigger] c.subrange(k, k + b.len()) == b;
    assert(c.subrange(k + i, k + i + a.len()) =~= a);
}

proof fn lemma_piece_subrange(s: Seq<char>, i: int, j: int)
    requires
        0 <= i <= j <= s.len(),
    ensures
        occurs_in(s.subrange(i, j), s),
{
    assert(s.subrange(i, i + s.subrange(i, j).len()) == s.subrange(i, j));
}

proof fn lemma_piece_self(s: Seq<char>)
    ensures
        occurs_in(s, s),
{
    assert(s.subrange(0int, 0int + s.len()) =~= s);
}

proof fn lemma_trim_start_piece(s: Seq<char>)
    ensures
        occurs_in(crate::text::trim_start(s), s),
    decreases s.len(),
{
    if s.len() > 0 && crate::text::is_ws(s[0]) {
        lemma_trim_start_piece(s.drop_first());
        lemma_piece_subrange(s, 1, s.len() as int);
        assert(s.subrange(1, s.len() as int) =~= s.drop_first());
        lemma_piece_trans(crate::text::trim_start(s), s.drop_first(), s);
    } else {
        lemma_piece_self(s);
    }
}

proof fn lemma_trim_end_piece(s: Seq<char>)
    ensures
        occurs_in(crate::text::trim_end(s), s),
    decreases s.len(),
{
    if s.len() > 0 && crate::text::is_ws(s.last()) {
        lemma_trim_end_piece(s.drop_last());
        lemma_piece_subrange(s, 0, s.len() - 1);
        assert(s.subrange(0, s.len() - 1) =~= s.drop_last());
        lemma_piece_trans(crate::text::trim_end(s), s.drop_last(), s);
    } else {
        lemma_piece_self(s);
    }
}

proof fn lemma_trim_piece(s: Seq<char>)
    ensures
        occurs_in(trim(s), s),
{
    lemma_trim_start_piece(s);
    lemma_trim_end_piece(crate::text::trim_start(s));
    lemma_piece_trans(trim(s), crate::text::trim_start(s), s);
}

proof fn lemma_strip_start_piece(s: Seq<char>)
    ensures
        occurs_in(strip_quotes_start(s), s),
    decreases s.len(),
{
    if s.len() > 0 && s[0] == '"' {
        lemma_strip_start_piece(s.drop_first());
        lemma_piece_subrange(s, 1, s.len() as int);
        assert(s.subrange(1, s.len() as int) =~= s.drop_first());
        lemma_piece_trans(strip_quotes_start(s), s.drop_first(), s);
    } else {
        lemma_piece_self(s);
    }
}

proof fn lemma_strip_end_piece(s: Seq<char>)
    ensures
        occurs_in(strip_quotes_end(s), s),
    decreases s.len(),
{
    if s.len() > 0 && s.last() == '"' {
        lemma_strip_end_piece(s.drop_last());
        lemma_piece_subrange(s, 0, s.len() - 1);
        assert(s.subrange(0, s.len() - 1) =~= s.drop_last());
        lemma_piece_trans(strip_quotes_end(s), s.drop_last(), s);
    } else {
        lemma_piece_self(s);
    }
}

proof fn lemma_strip_quotes_piece(s: Seq<char>)
    ensures
        occurs_in(strip_quotes(s), s),
{
    lemma_strip_start_piece(s);
    lemma_strip_end_piece(strip_quotes_start(s));
    lemma_piece_trans(strip_quotes(s), strip_quotes_start(s), s);
}

proof fn lemma_split_pieces(s: Seq<char>, kind: SepKind, i: int)
    requires
        0 <= i,
    ensures
        forall|p: int| 0 <= p < split_from(s, kind, i).len() ==> occurs_in(#[trigger] split_from(s, kind, i)[p], s),
    decreases s.len() + 1 - i,
{
    if i <= s.len() {
        lemma_first_sep_facts(s, kind, i);
        match first_sep(s, kind, i) {
            None => {
                lemma_piece_subrange(s, i, s.len() as int);
                assert(split_from(s, kind, i) == seq![s.subrange(i, s.len() as int)]);
            },
            Some(e) => {
                lemma_piece_subrange(s, i, e);
                lemma_split_pieces(s, kind, e + 1);
                let rest = split_from(s, kind, e + 1);
                assert(split_from(s, kind, i) == seq![s.subrange(i, e)] + rest);
                assert forall|p: int| 0 <= p < split_from(s, kind, i).len() implies occurs_in(
                    #[trigger] split_from(s, kind, i)[p],
                    s,
                ) by {
                    if p > 0 {
                        assert(split_from(s, kind, i)[p] == rest[p - 1]);
                    }
                }
            },
        }
    }
}

proof fn lemma_nonblank_pieces(pieces: Seq<Seq<char>>, s: Seq<char>)
    requires
        forall|p: int| 0 <= p < pieces.len() ==> occurs_in(#[trigger] pieces[p], s),
    ensures
        forall|p: int| 0 <= p < nonblank_trimmed(pieces).len() ==> occurs_in(#[trigger] nonblank_trimmed(pieces)[p], s),
    decreases pieces.len(),
{
    if pieces.len() > 0 {
        assert(occurs_in(pieces[pieces.len() - 1], s));
        assert forall|p: int| 0 <= p < pieces.drop_last().len() implies occurs_in(#[trigger] pieces.drop_last()[p], s) by {
            assert(pieces.drop_last()[p] == pieces[p]);
        }
        lemma_nonblank_pieces(pieces.drop_last(), s);
        lemma_trim_piece(pieces.last());
        lemma_piece_trans(trim(pieces.last()), pieces.last(), s);
        let rest = nonblank_trimmed(pieces.drop_last());
        let all = nonblank_trimmed(pieces);
        assert forall|p: int| 0 <= p < all.len() implies occurs_in(#[trigger] all[p], s) by {
            if p < rest.len() {
                assert(all[p] == rest[p]);
            }
        }
    }
}

proof fn lemma_empty_piece(s: Seq<char>)
    ensures
        occurs_in(Seq::<char>::empty(), s),
{
    assert(s.subrange(0int, 0int + Seq::<char>::empty().len()) =~= Seq::<char>::empty());
}

proof fn lemma_after_cut_piece(after: Seq<char>)
    ensures
        after_cut(after) matches Some(r) ==> occurs_in(r, after),
{
    match first_quoted(after) {
        Some(q) => {
            lemma_first_sep_facts(after, SepKind::Quote, 0);
            let q1 = first_sep(after, SepKind::Quote, 0)->0;
            let rest = after.skip(q1 + 1);
            lemma_first_sep_facts(rest, SepKind::Quote, 0);
            let q2 = first_sep(rest, SepKind::Quote, 0)->0;
            lemma_piece_subrange(rest, 0, q2);
            assert(rest.subrange(0, q2) =~= rest.take(q2));
            lemma_piece_subrange(after, q1 + 1, after.len() as int);
            assert(after.subrange(q1 + 1, after.len() as int) =~= rest);
            lemma_piece_trans(q, rest, after);
        },
        None => {
            lemma_first_sep_facts(after, SepKind::SentenceEnd, 0);
            let fp = first_piece(after);
            match first_sep(after, SepKind::SentenceEnd, 0) {
                Some(k) => {
                    lemma_piece_subrange(after, 0, k);
                    assert(after.subrange(0, k) =~= after.take(k));
                },
                None => {
                    lemma_piece_self(after);
                },
            }
            lemma_trim_piece(fp);
            lemma_strip_quotes_piece(trim(fp));
            lemma_piece_trans(strip_quotes(trim(fp)), trim(fp), fp);
            lemma_piece_trans(strip_quotes(trim(fp)), fp, after);
        },
    }
}

proof fn lemma_clean_rest_piece(t: Seq<char>)
    ensures
        occurs_in(clean_rest(t), t),
{
    let parts = split_from(t, SepKind::Quote, 0);
    let cand = trim(parts.last());
    lemma_split_pieces(t, SepKind::Quote, 0);
    if parts.len() >= 3 && cand.len() > 0 && utf8_len(cand) < 100 {
        assert(occurs_in(parts[parts.len() - 1], t));
        lemma_trim_piece(parts.last());
        lemma_piece_trans(cand, parts.last(), t);
    } else if is_verbose(lowercase(t)) {
        let pieces = split_from(t, SepKind::SentenceEnd, 0);
        let sentences = nonblank_trimmed(pieces);
        lemma_split_pieces(t, SepKind::SentenceEnd, 0);
        lemma_nonblank_pieces(pieces, t);
        lemma_last_plain_member(sentences);
        match last_plain(sentences) {
            Some(s) => {
                let p = choose|p: int| 0 <= p < sentences.len() && #[trigger] sentences[p] == s;
                assert(occurs_in(sentences[p], t));
                lemma_trim_piece(s);
                lemma_piece_trans(trim(s), s, t);
            },
            None => {
                if sentences.len() > 0 {
                    assert(occurs_in(sentences[sentences.len() - 1], t));
                    lemma_trim_piece(sentences.last());
                    lemma_piece_trans(trim(sentences.last()), sentences.last(), t);
                } else {
                    lemma_empty_piece(t);
                }
            },
        }
    } else {
        lemma_piece_self(t);
    }
}

/// The clean-up never invents text: what it returns is a contiguous piece of
/// the model's output.
pub proof fn law_cleanup_takes_a_piece(text: Seq<char>)
    ensures
        occurs_in(clean_spec(text), text),
{
    let t = trim(text);
    let lower = lowercase(t);
    lemma_trim_piece(text);
    match find(lower, needle()) {
        Some(ci) => {
            let b = utf8_len(lower.take(ci)) + 13int;
            lemma_cut_from_range(t, b, 0);
            match cut_from(t, b, 0) {
                Some(j) => {
                    let after = t.skip(j);
                    lemma_piece_subrange(t, j, t.len() as int);
                    assert(t.subrange(j, t.len() as int) =~= after);
                    lemma_after_cut_piece(after);
                    match after_cut(after) {
                        Some(r) => {
                            lemma_piece_trans(r, after, t);
                        },
                        None => {
                            lemma_clean_rest_piece(t);
                        },
                    }
                },
                None => {
                    lemma_piece_self(t);
                },
            }
        },
        None => {
            lemma_clean_rest_piece(t);
        },
    }
    lemma_piece_trans(clean_spec(text), t, text);
}

} // verus!
