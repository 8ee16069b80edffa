//! Character-level text operations with exact contracts over `Seq<char>`.
//!
//! Every function here speaks of a string through its view, the sequence of
//! its characters. Byte offsets never appear, so no operation can split a
//! character.

use vstd::prelude::*;
use vstd::string::StringExecFns;

verus! {

/// The views of a sequence of strings, in order.
pub open spec fn texts(v: Seq<String>) -> Seq<Seq<char>> {
    Seq::new(v.len(), |i: int| v[i]@)
}

/// The views of a sequence of character vectors, in order.
pub open spec fn rows(v: Seq<Vec<char>>) -> Seq<Seq<char>> {
    Seq::new(v.len(), |i: int| v[i]@)
}

/// Unicode `White_Space`: the characters that trimming and word splitting skip.
pub open spec fn is_space(c: char) -> bool {
    let n = c as u32;
    (9 <= n <= 13) || n == 32 || n == 0x85 || n == 0xA0 || n == 0x1680 || (0x2000 <= n <= 0x200A)
        || n == 0x2028 || n == 0x2029 || n == 0x202F || n == 0x205F || n == 0x3000
}

/// `s` without its leading white space.
pub open spec fn trim_start_spec(s: Seq<char>) -> Seq<char>
    decreases s.len(),
{
    if s.len() > 0 && is_space(s[0]) {
        trim_start_spec(s.drop_first())
    } else {
        s
    }
}

/// `s` without its trailing white space.
pub open spec fn trim_end_spec(s: Seq<char>) -> Seq<char>
    decreases s.len(),
{
    if s.len() > 0 && is_space(s.last()) {
        trim_end_spec(s.drop_last())
    } else {
        s
    }
}

/// `s` without leading and trailing white space.
pub open spec fn trim_spec(s: Seq<char>) -> Seq<char> {
    trim_end_spec(trim_start_spec(s))
}

/// True when every character of `s` is white space (so also for the empty text).
pub open spec fn is_blank(s: Seq<char>) -> bool {
    trim_spec(s).len() == 0
}

/// The pieces of `s` between delimiter characters. There is always at least
/// one piece; two adjacent delimiters enclose an empty piece.
pub open spec fn split_spec(s: Seq<char>, delims: Set<char>) -> Seq<Seq<char>>
    decreases s.len(),
{
    if s.len() == 0 {
        seq![Seq::<char>::empty()]
    } else {
        let before = split_spec(s.drop_last(), delims);
        if delims.contains(s.last()) {
            before.push(Seq::<char>::empty())
        } else {
            before.drop_last().push(before.last().push(s.last()))
        }
    }
}

/// The white-space characters as a set.
pub open spec fn space_set() -> Set<char> {
    Set::new(|c: char| is_space(c))
}

/// The maximal runs of characters of `s` that hold no white space.
pub open spec fn words_spec(s: Seq<char>) -> Seq<Seq<char>> {
    split_spec(s, space_set()).filter(|w: Seq<char>| w.len() > 0)
}

/// `parts` written one after the other with `sep` between neighbours.
pub open spec fn join_spec(parts: Seq<Seq<char>>, sep: Seq<char>) -> Seq<char>
    decreases parts.len(),
{
    if parts.len() == 0 {
        Seq::<char>::empty()
    } else if parts.len() == 1 {
        parts[0]
    } else {
        join_spec(parts.drop_last(), sep) + sep + parts.last()
    }
}

/// `needle` stands in `hay` at offset `at`.
pub open spec fn occurs_at(hay: Seq<char>, needle: Seq<char>, at: int) -> bool {
    0 <= at && at + needle.len() <= hay.len() && hay.subrange(at, at + needle.len()) == needle
}

/// `needle` stands somewhere in `hay`.
pub open spec fn contains_spec(hay: Seq<char>, needle: Seq<char>) -> bool {
    exists|at: int| occurs_at(hay, needle, at)
}

/// `hay` begins with `prefix`.
pub open spec fn starts_with_spec(hay: Seq<char>, prefix: Seq<char>) -> bool {
    occurs_at(hay, prefix, 0)
}

/// `hay` ends with `suffix`.
pub open spec fn ends_with_spec(hay: Seq<char>, suffix: Seq<char>) -> bool {
    occurs_at(hay, suffix, hay.len() - suffix.len())
}

/// The first `n` characters of `s`, or all of it when it is shorter.
pub open spec fn prefix_spec(s: Seq<char>, n: nat) -> Seq<char> {
    if n <= s.len() {
        s.take(n as int)
    } else {
        s
    }
}

/// The lower-case form of one ASCII letter; any other character unchanged.
pub open spec fn ascii_lower(c: char) -> char {
    if 'A' <= c && c <= 'Z' {
        ((c as u8 + 32) as u8) as char
    } else {
        c
    }
}

/// `s` with each ASCII capital letter replaced by its lower-case form.
pub open spec fn ascii_lower_spec(s: Seq<char>) -> Seq<char> {
    Seq::new(s.len(), |i: int| ascii_lower(s[i]))
}

/// The decimal digit for `d`, which is below ten.
pub open spec fn digit_char(d: nat) -> char {
    ((48 + d) as u8) as char
}

/// The decimal numeral of `n`, without leading zeros.
pub open spec fn decimal_spec(n: nat) -> Seq<char>
    decreases n,
{
    if n < 10 {
        seq![digit_char(n)]
    } else {
        decimal_spec(n / 10).push(digit_char(n % 10))
    }
}

/// The decimal numeral of `n`, with one leading zero when it is below ten.
pub open spec fn decimal2_spec(n: nat) -> Seq<char> {
    if n < 10 {
        seq!['0'] + decimal_spec(n)
    } else {
        decimal_spec(n)
    }
}

/// Each piece trimmed, and the pieces that are then empty left out.
pub open spec fn trimmed_pieces(pieces: Seq<Seq<char>>) -> Seq<Seq<char>> {
    pieces.map_values(|p: Seq<char>| trim_spec(p)).filter(|p: Seq<char>| p.len() > 0)
}

/// The white-space-separated words of `s` joined by single spaces.
pub open spec fn collapse_spec(s: Seq<char>) -> Seq<char> {
    join_spec(words_spec(s), seq![' '])
}

/// Whether two texts are equal once ASCII capitals are lowered.
pub open spec fn eq_ignore_ascii_case_spec(a: Seq<char>, b: Seq<char>) -> bool {
    ascii_lower_spec(a) == ascii_lower_spec(b)
}

/// `line` without one trailing carriage return.
pub open spec fn strip_cr(line: Seq<char>) -> Seq<char> {
    if line.len() > 0 && line.last() == '\r' {
        line.drop_last()
    } else {
        line
    }
}

/// The lines of `s`: split at line feeds, a carriage return before a line
/// feed dropped with it, and no empty line after a final line feed.
pub open spec fn lines_spec(s: Seq<char>) -> Seq<Seq<char>> {
    let pieces = split_spec(s, seq!['\n'].to_set());
    let ended = pieces.drop_last().map_values(|p: Seq<char>| strip_cr(p));
    if pieces.last().len() > 0 {
        ended.push(pieces.last())
    } else {
        ended
    }
}

/// `s` without its trailing slashes.
pub open spec fn trim_end_slash_spec(s: Seq<char>) -> Seq<char>
    decreases s.len(),
{
    if s.len() > 0 && s.last() == '/' {
        trim_end_slash_spec(s.drop_last())
    } else {
        s
    }
}

/// The view of an optional string.
pub open spec fn opt_text(o: Option<String>) -> Option<Seq<char>> {
    match o {
        Some(s) => Some(s@),
        None => None,
    }
}

/// What `str::to_lowercase` returns for the text `s` (full Unicode case mapping).
pub uninterp spec fn lowercase_of(s: Seq<char>) -> Seq<char>;

/// What `str::to_uppercase` returns for the text `s` (full Unicode case mapping).
pub uninterp spec fn uppercase_of(s: Seq<char>) -> Seq<char>;

/// `str::to_lowercase` of std: the result is a function of the characters
/// alone, named `lowercase_of`.
pub assume_specification[ str::to_lowercase ](s: &str) -> (out: String)
    ensures
        out@ == lowercase_of(s@),
;

/// `str::to_uppercase` of std: the result is a function of the characters
/// alone, named `uppercase_of`.
pub assume_specification[ str::to_uppercase ](s: &str) -> (out: String)
    ensures
        out@ == uppercase_of(s@),
;

/// `String::push` of std appends one character.
pub assume_specification[ String::push ](s: &mut String, c: char)
    ensures
        final(s)@ == old(s)@.push(c),
;

/// The characters of `s`, in order.
pub fn chars_of(s: &str) -> (out: Vec<char>)
    ensures
        out@ == s@,
{
    let mut out: Vec<char> = Vec::new();
    for c in it: s.chars()
        invariant
            out@ == it.seq().take(it.index()),
            it.seq() == s@,
    {
        out.push(c);
    }
    out
}

/// The string whose characters are `chars[from..to]`.
pub fn string_of_range(chars: &Vec<char>, from: usize, to: usize) -> (out: String)
    requires
        from <= to <= chars.len(),
    ensures
        out@ == chars@.subrange(from as int, to as int),
{
    let mut out = String::new();
    let mut i: usize = from;
    while i < to
        invariant
            from <= i <= to <= chars.len(),
            out@ == chars@.subrange(from as int, i as int),
        decreases to - i,
    {
        out.push(chars[i]);
        i += 1;
    }
    out
}

/// The string whose characters are `chars`, in order.
pub fn string_of(chars: &Vec<char>) -> (out: String)
    ensures
        out@ == chars@,
{
    let out = string_of_range(chars, 0, chars.len());
    assert(chars@.subrange(0, chars@.len() as int) =~= chars@);
    out
}

/// A copy of `s`.
pub fn copy_str(s: &str) -> (out: String)
    ensures
        out@ == s@,
{
    let chars = chars_of(s);
    string_of(&chars)
}

/// Whether `c` is white space.
pub fn is_whitespace(c: char) -> (r: bool)
    ensures
        r == is_space(c),
{
    let n: u32 = c as u32;
    (9 <= n && n <= 13) || n == 32 || n == 0x85 || n == 0xA0 || n == 0x1680 || (0x2000 <= n && n
        <= 0x200A) || n == 0x2028 || n == 0x2029 || n == 0x202F || n == 0x205F || n == 0x3000
}

/// Whether two texts hold the same characters.
pub fn same_text(a: &str, b: &str) -> (r: bool)
    ensures
        r == (a@ == b@),
{
    let x = chars_of(a);
    let y = chars_of(b);
    same_chars(&x, &y)
}

/// Whether two character vectors are equal.
pub fn same_chars(x: &Vec<char>, y: &Vec<char>) -> (r: bool)
    ensures
        r == (x@ == y@),
{
    if x.len() != y.len() {
        return false;
    }
    let mut i: usize = 0;
    while i < x.len()
        invariant
            i <= x.len(),
            x.len() == y.len(),
            x@.take(i as int) == y@.take(i as int),
        decreases x.len() - i,
    {
        if x[i] != y[i] {
            return false;
        }
        assert(x@.take(i + 1) =~= x@.take(i as int).push(x@[i as int]));
        assert(y@.take(i + 1) =~= y@.take(i as int).push(y@[i as int]));
        i += 1;
    }
    assert(x@.take(x@.len() as int) =~= x@);
    assert(y@.take(y@.len() as int) =~= y@);
    true
}

proof fn lemma_trim_start_skips(s: Seq<char>, i: int)
    requires
        0 <= i <= s.len(),
        forall|k: int| 0 <= k < i ==> is_space(s[k]),
    ensures
        trim_start_spec(s) == trim_start_spec(s.subrange(i, s.len() as int)),
    decreases i,
{
    if i == 0 {
        assert(s.subrange(0, s.len() as int) =~= s);
    } else {
        lemma_trim_start_skips(s, i - 1);
        let t = s.subrange(i - 1, s.len() as int);
        assert(t.len() > 0 && is_space(t[0]));
        assert(t.drop_first() =~= s.subrange(i, s.len() as int));
    }
}

proof fn lemma_trim_end_skips(s: Seq<char>, j: int)
    requires
        0 <= j <= s.len(),
        forall|k: int| j <= k < s.len() ==> is_space(s[k]),
    ensures
        trim_end_spec(s) == trim_end_spec(s.take(j)),
    decreases s.len() - j,
{
    if j == s.len() {
        assert(s.take(j) =~= s);
    } else {
        lemma_trim_end_skips(s, j + 1);
        let t = s.take(j + 1);
        assert(t.len() > 0 && is_space(t.last()));
        assert(t.drop_last() =~= s.take(j));
    }
}

/// The bounds of the trimmed part of `chars`.
pub fn trim_bounds(chars: &Vec<char>) -> (r: (usize, usize))
    ensures
        r.0 <= r.1 <= chars.len(),
        trim_spec(chars@) == chars@.subrange(r.0 as int, r.1 as int),
{
    let n = chars.len();
    let mut i: usize = 0;
    while i < n && is_whitespace(chars[i])
        invariant
            i <= n,
            n == chars.len(),
            forall|k: int| 0 <= k < i ==> is_space(chars@[k]),
        decreases n - i,
    {
        i += 1;
    }
    let mut j: usize = n;
    while j > i && is_whitespace(chars[j - 1])
        invariant
            i <= j <= n,
            n == chars.len(),
            forall|k: int| j <= k < n ==> is_space(chars@[k]),
        decreases j,
    {
        j -= 1;
    }
    proof {
        let s = chars@;
        let rest = s.subrange(i as int, n as int);
        lemma_trim_start_skips(s, i as int);
        assert(trim_start_spec(rest) == rest);
        assert forall|k: int| j - i <= k < rest.len() implies is_space(rest[k]) by {
            assert(rest[k] == s[k + i]);
        }
        lemma_trim_end_skips(rest, j - i);
        let kept = rest.take(j - i);
        assert(kept =~= s.subrange(i as int, j as int));
        assert(trim_end_spec(kept) == kept);
    }
    (i, j)
}

/// What is left of a text without its trailing white space is the text's
/// beginning, and does not end in white space.
pub proof fn lemma_trim_end_is_prefix(s: Seq<char>)
    ensures
        trim_end_spec(s).len() <= s.len(),
        trim_end_spec(s) == s.take(trim_end_spec(s).len() as int),
        trim_end_spec(s).len() == 0 || !is_space(trim_end_spec(s).last()),
    decreases s.len(),
{
    if s.len() > 0 && is_space(s.last()) {
        lemma_trim_end_is_prefix(s.drop_last());
        let t = trim_end_spec(s.drop_last());
        assert(s.drop_last().take(t.len() as int) =~= s.take(t.len() as int));
    } else {
        assert(s.take(s.len() as int) =~= s);
    }
}

/// A text without its leading white space does not begin with white space.
pub proof fn lemma_trim_start_is_trimmed(s: Seq<char>)
    ensures
        trim_start_spec(s).len() == 0 || !is_space(trim_start_spec(s)[0]),
    decreases s.len(),
{
    if s.len() > 0 && is_space(s[0]) {
        lemma_trim_start_is_trimmed(s.drop_first());
    }
}

/// A trimmed text neither begins nor ends with white space.
pub proof fn lemma_trimmed_has_no_white_ends(s: Seq<char>)
    ensures
        trim_spec(s).len() == 0 || (!is_space(trim_spec(s)[0]) && !is_space(trim_spec(s).last())),
{
    let t = trim_start_spec(s);
    lemma_trim_start_is_trimmed(s);
    lemma_trim_end_is_prefix(t);
}

/// Where the first `upto` characters of `chars`, without their trailing
/// white space, end.
pub fn trim_end_bound(chars: &Vec<char>, upto: usize) -> (end: usize)
    requires
        upto <= chars.len(),
    ensures
        end <= upto,
        trim_end_spec(chars@.take(upto as int)) == chars@.take(end as int),
{
    let ghost head = chars@.take(upto as int);
    let mut j: usize = upto;
    while j > 0 && is_whitespace(chars[j - 1])
        invariant
            j <= upto <= chars.len(),
            head == chars@.take(upto as int),
            forall|k: int| j <= k < upto ==> is_space(chars@[k]),
        decreases j,
    {
        j -= 1;
    }
    proof {
        assert forall|k: int| j <= k < head.len() implies is_space(head[k]) by {
            assert(head[k] == chars@[k]);
        }
        lemma_trim_end_skips(head, j as int);
        let kept = head.take(j as int);
        assert(kept =~= chars@.take(j as int));
        if kept.len() > 0 {
            assert(kept.last() == chars@[j - 1]);
        }
        assert(trim_end_spec(kept) == kept);
    }
    j
}

/// `s` without leading and trailing white space.
pub fn trim(s: &str) -> (out: String)
    ensures
        out@ == trim_spec(s@),
{
    let chars = chars_of(s);
    let (i, j) = trim_bounds(&chars);
    string_of_range(&chars, i, j)
}

/// `chars` without leading and trailing white space.
pub fn trim_chars(chars: &Vec<char>) -> (out: Vec<char>)
    ensures
        out@ == trim_spec(chars@),
{
    let (i, j) = trim_bounds(chars);
    let mut out: Vec<char> = Vec::new();
    let mut k: usize = i;
    while k < j
        invariant
            i <= k <= j <= chars.len(),
            out@ == chars@.subrange(i as int, k as int),
        decreases j - k,
    {
        out.push(chars[k]);
        k += 1;
    }
    out
}

/// Whether `s` holds nothing but white space.
pub fn is_blank_str(s: &str) -> (r: bool)
    ensures
        r == is_blank(s@),
{
    let chars = chars_of(s);
    let (i, j) = trim_bounds(&chars);
    i == j
}

/// The pieces of `chars` between characters of `delims`.
pub fn split_chars(chars: &Vec<char>, delims: &Vec<char>) -> (out: Vec<Vec<char>>)
    ensures
        rows(out@) == split_spec(chars@, delims@.to_set()),
{
    let ghost d = delims@.to_set();
    let mut done: Vec<Vec<char>> = Vec::new();
    let mut piece: Vec<char> = Vec::new();
    let mut i: usize = 0;
    assert(chars@.take(0) =~= Seq::<char>::empty());
    assert(rows(done@).push(piece@) =~= seq![Seq::<char>::empty()]);
    while i < chars.len()
        invariant
            i <= chars.len(),
            d == delims@.to_set(),
            rows(done@).push(piece@) == split_spec(chars@.take(i as int), d),
        decreases chars.len() - i,
    {
        let c = chars[i];
        let hit = has_char(delims, c);
        proof {
            let next = chars@.take(i + 1);
            assert(next.drop_last() =~= chars@.take(i as int));
            assert(next.last() == c);
            assert(d.contains(c) == hit);
        }
        let ghost before = rows(done@).push(piece@);
        if hit {
            let ghost old_done = rows(done@);
            done.push(piece);
            piece = Vec::new();
            assert(rows(done@) =~= old_done.push(before.last()));
            assert(rows(done@).push(piece@) =~= before.push(Seq::<char>::empty()));
        } else {
            piece.push(c);
            assert(rows(done@).push(piece@) =~= before.drop_last().push(
                before.last().push(c),
            ));
        }
        i += 1;
    }
    assert(chars@.take(chars@.len() as int) =~= chars@);
    let ghost old_done = rows(done@);
    let ghost last = piece@;
    done.push(piece);
    assert(rows(done@) =~= old_done.push(last));
    done
}

/// Whether `c` is one of `set`.
pub fn has_char(set: &Vec<char>, c: char) -> (r: bool)
    ensures
        r == set@.contains(c),
        r == set@.to_set().contains(c),
{
    let mut i: usize = 0;
    while i < set.len()
        invariant
            i <= set.len(),
            forall|k: int| 0 <= k < i ==> set@[k] != c,
        decreases set.len() - i,
    {
        if set[i] == c {
            return true;
        }
        i += 1;
    }
    false
}

/// Whether some character of `chars` is one of `set`.
pub fn has_any_char(chars: &Vec<char>, set: &Vec<char>) -> (r: bool)
    ensures
        r == exists|k: int| 0 <= k < chars@.len() && set@.contains(#[trigger] chars@[k]),
{
    let mut i: usize = 0;
    while i < chars.len()
        invariant
            i <= chars.len(),
            forall|k: int| 0 <= k < i ==> !set@.contains(#[trigger] chars@[k]),
        decreases chars.len() - i,
    {
        if has_char(set, chars[i]) {
            return true;
        }
        i += 1;
    }
    false
}

/// `a` followed by `b`.
pub fn concat2(a: &str, b: &str) -> (out: String)
    ensures
        out@ == a@ + b@,
{
    let mut out = String::new();
    out.append(a);
    out.append(b);
    assert(Seq::<char>::empty() + a@ =~= a@);
    out
}

/// `a`, `b` and `c` one after the other.
pub fn concat3(a: &str, b: &str, c: &str) -> (out: String)
    ensures
        out@ == a@ + b@ + c@,
{
    let mut out = concat2(a, b);
    out.append(c);
    out
}

/// The strings whose characters are the rows of `pieces`.
pub fn strings_of(pieces: &Vec<Vec<char>>) -> (out: Vec<String>)
    ensures
        texts(out@) == rows(pieces@),
{
    let mut out: Vec<String> = Vec::new();
    let mut i: usize = 0;
    while i < pieces.len()
        invariant
            i <= pieces.len(),
            texts(out@) == rows(pieces@).take(i as int),
        decreases pieces.len() - i,
    {
        let ghost before = texts(out@);
        let s = string_of(&pieces[i]);
        out.push(s);
        assert(texts(out@) =~= before.push(pieces@[i as int]@));
        assert(rows(pieces@).take(i + 1) =~= rows(pieces@).take(i as int).push(pieces@[i as int]@));
        i += 1;
    }
    assert(rows(pieces@).take(pieces@.len() as int) =~= rows(pieces@));
    out
}

/// Whether `needle` stands in `hay` at offset `at`.
pub fn occurs_at_chars(hay: &Vec<char>, needle: &Vec<char>, at: usize) -> (r: bool)
    ensures
        r == occurs_at(hay@, needle@, at as int),
{
    if at > hay.len() || needle.len() > hay.len() - at {
        return false;
    }
    let mut k: usize = 0;
    while k < needle.len()
        invariant
            k <= needle.len(),
            at + needle.len() <= hay.len(),
            forall|j: int| 0 <= j < k ==> hay@[at + j] == needle@[j],
        decreases needle.len() - k,
    {
        if hay[at + k] != needle[k] {
            assert(hay@.subrange(at as int, at + needle@.len())[k as int] == hay@[at + k]);
            return false;
        }
        k += 1;
    }
    assert(hay@.subrange(at as int, at + needle@.len()) =~= needle@);
    true
}

/// Whether `needle` stands somewhere in `hay`.
pub fn contains_chars(hay: &Vec<char>, needle: &Vec<char>) -> (r: bool)
    ensures
        r == contains_spec(hay@, needle@),
{
    if needle.len() > hay.len() {
        return false;
    }
    let last: usize = hay.len() - needle.len();
    let mut at: usize = 0;
    while at < last
        invariant
            at <= last,
            last == hay.len() - needle.len(),
            forall|j: int| 0 <= j < at ==> !occurs_at(hay@, needle@, j),
        decreases last - at,
    {
        if occurs_at_chars(hay, needle, at) {
            return true;
        }
        at += 1;
    }
    occurs_at_chars(hay, needle, at)
}

/// Whether `needle` stands somewhere in `hay`.
pub fn contains(hay: &str, needle: &str) -> (r: bool)
    ensures
        r == contains_spec(hay@, needle@),
{
    let h = chars_of(hay);
    let n = chars_of(needle);
    contains_chars(&h, &n)
}

/// Whether `hay` begins with `prefix`.
pub fn starts_with(hay: &str, prefix: &str) -> (r: bool)
    ensures
        r == starts_with_spec(hay@, prefix@),
{
    let h = chars_of(hay);
    let n = chars_of(prefix);
    occurs_at_chars(&h, &n, 0)
}

/// Whether `hay` ends with `suffix`.
pub fn ends_with(hay: &str, suffix: &str) -> (r: bool)
    ensures
        r == ends_with_spec(hay@, suffix@),
{
    let h = chars_of(hay);
    let n = chars_of(suffix);
    if n.len() > h.len() {
        return false;
    }
    occurs_at_chars(&h, &n, h.len() - n.len())
}

/// The first `n` characters of `s`, or all of it when it is shorter.
pub fn prefix(s: &str, n: usize) -> (out: String)
    ensures
        out@ == prefix_spec(s@, n as nat),
{
    let chars = chars_of(s);
    if n <= chars.len() {
        string_of_range(&chars, 0, n)
    } else {
        string_of(&chars)
    }
}

proof fn lemma_trimmed_pieces_step(pieces: Seq<Seq<char>>, i: int)
    requires
        0 <= i < pieces.len(),
    ensures
        trimmed_pieces(pieces.take(i + 1)) == if trim_spec(pieces[i]).len() > 0 {
            trimmed_pieces(pieces.take(i)).push(trim_spec(pieces[i]))
        } else {
            trimmed_pieces(pieces.take(i))
        },
{
    reveal(Seq::filter);
    let f = |p: Seq<char>| trim_spec(p);
    let mapped = pieces.take(i + 1).map_values(f);
    assert(mapped.drop_last() =~= pieces.take(i).map_values(f));
    assert(mapped.last() == trim_spec(pieces[i]));
}

/// Pieces that are trimmed already, none of them empty, stay as they are.
pub proof fn lemma_trimmed_pieces_of_trimmed(pieces: Seq<Seq<char>>)
    requires
        forall|i: int|
            0 <= i < pieces.len() ==> pieces[i].len() > 0 && trim_spec(#[trigger] pieces[i])
                == pieces[i],
    ensures
        trimmed_pieces(pieces) == pieces,
    decreases pieces.len(),
{
    if pieces.len() == 0 {
        reveal(Seq::filter);
        assert(pieces.map_values(|p: Seq<char>| trim_spec(p)) =~= Seq::empty());
        assert(trimmed_pieces(pieces) =~= pieces);
    } else {
        let n = pieces.len() - 1;
        let before = pieces.take(n);
        assert forall|i: int| 0 <= i < before.len() implies before[i].len() > 0 && trim_spec(
            #[trigger] before[i],
        ) == before[i] by {
            assert(before[i] == pieces[i]);
        }
        lemma_trimmed_pieces_of_trimmed(before);
        lemma_trimmed_pieces_step(pieces, n);
        assert(pieces.take(n + 1) =~= pieces);
        assert(before.push(pieces[n]) =~= pieces);
    }
}

/// Each piece trimmed, and the pieces that are then empty left out.
pub fn trim_pieces(pieces: &Vec<Vec<char>>) -> (out: Vec<Vec<char>>)
    ensures
        rows(out@) == trimmed_pieces(rows(pieces@)),
{
    let mut out: Vec<Vec<char>> = Vec::new();
    let mut i: usize = 0;
    proof {
        reveal(Seq::filter);
        assert(rows(pieces@).take(0).map_values(|p: Seq<char>| trim_spec(p)) =~= Seq::empty());
        assert(rows(out@) =~= Seq::empty());
    }
    while i < pieces.len()
        invariant
            i <= pieces.len(),
            rows(out@) == trimmed_pieces(rows(pieces@).take(i as int)),
        decreases pieces.len() - i,
    {
        let ghost before = rows(out@);
        let t = trim_chars(&pieces[i]);
        proof {
            lemma_trimmed_pieces_step(rows(pieces@), i as int);
        }
        if t.len() > 0 {
            out.push(t);
            assert(rows(out@) =~= before.push(trim_spec(pieces@[i as int]@)));
        }
        i += 1;
    }
    assert(rows(pieces@).take(pieces@.len() as int) =~= rows(pieces@));
    out
}

/// The pieces of `s` between characters of `delims`, each trimmed, the empty ones left out.
pub fn split_trimmed(s: &str, delims: &str) -> (out: Vec<String>)
    ensures
        texts(out@) == trimmed_pieces(split_spec(s@, delims@.to_set())),
{
    let chars = chars_of(s);
    let d = chars_of(delims);
    let pieces = split_chars(&chars, &d);
    let kept = trim_pieces(&pieces);
    strings_of(&kept)
}

proof fn lemma_join_push(parts: Seq<Seq<char>>, sep: Seq<char>, next: Seq<char>)
    ensures
        join_spec(parts.push(next), sep) == if parts.len() == 0 {
            next
        } else {
            join_spec(parts, sep) + sep + next
        },
{
    let all = parts.push(next);
    assert(all.drop_last() =~= parts);
    assert(all.last() == next);
    if parts.len() == 0 {
        assert(all[0] == next);
    }
}

/// `parts` written one after the other with `sep` between neighbours.
pub fn join_chars(parts: &Vec<Vec<char>>, sep: &Vec<char>) -> (out: Vec<char>)
    ensures
        out@ == join_spec(rows(parts@), sep@),
{
    let mut out: Vec<char> = Vec::new();
    let mut i: usize = 0;
    assert(rows(parts@).take(0) =~= Seq::empty());
    while i < parts.len()
        invariant
            i <= parts.len(),
            out@ == join_spec(rows(parts@).take(i as int), sep@),
        decreases parts.len() - i,
    {
        proof {
            lemma_join_push(rows(parts@).take(i as int), sep@, parts@[i as int]@);
            assert(rows(parts@).take(i + 1) =~= rows(parts@).take(i as int).push(parts@[i as int]@));
        }
        if i > 0 {
            push_all(&mut out, sep);
        }
        push_all(&mut out, &parts[i]);
        proof {
            if i == 0 {
                assert(Seq::<char>::empty() + parts@[0]@ =~= parts@[0]@);
            }
        }
        i += 1;
    }
    assert(rows(parts@).take(parts@.len() as int) =~= rows(parts@));
    out
}

/// Appends the characters of `more` to `out`.
pub fn push_all(out: &mut Vec<char>, more: &Vec<char>)
    ensures
        final(out)@ == old(out)@ + more@,
{
    let ghost start = out@;
    let mut i: usize = 0;
    while i < more.len()
        invariant
            i <= more.len(),
            out@ == start + more@.take(i as int),
        decreases more.len() - i,
    {
        out.push(more[i]);
        assert(more@.take(i + 1) =~= more@.take(i as int).push(more@[i as int]));
        assert(out@ =~= start + more@.take(i + 1));
        i += 1;
    }
    assert(more@.take(more@.len() as int) =~= more@);
    assert(start + Seq::<char>::empty() =~= start) by {
    }
}

/// The character vectors of `parts`.
pub fn rows_of(parts: &Vec<String>) -> (out: Vec<Vec<char>>)
    ensures
        rows(out@) == texts(parts@),
{
    let mut out: Vec<Vec<char>> = Vec::new();
    let mut i: usize = 0;
    while i < parts.len()
        invariant
            i <= parts.len(),
            rows(out@) == texts(parts@).take(i as int),
        decreases parts.len() - i,
    {
        let ghost before = rows(out@);
        let r = chars_of(parts[i].as_str());
        out.push(r);
        assert(rows(out@) =~= before.push(parts@[i as int]@));
        assert(texts(parts@).take(i + 1) =~= texts(parts@).take(i as int).push(parts@[i as int]@));
        i += 1;
    }
    assert(texts(parts@).take(parts@.len() as int) =~= texts(parts@));
    out
}

/// `parts` written one after the other with `sep` between neighbours.
pub fn join(parts: &Vec<String>, sep: &str) -> (out: String)
    ensures
        out@ == join_spec(texts(parts@), sep@),
{
    let r = rows_of(parts);
    let s = chars_of(sep);
    let joined = join_chars(&r, &s);
    string_of(&joined)
}

/// The white-space-separated words of `chars`.
pub fn words_chars(chars: &Vec<char>) -> (out: Vec<Vec<char>>)
    ensures
        rows(out@) == words_spec(chars@),
{
    let mut done: Vec<Vec<char>> = Vec::new();
    let mut piece: Vec<char> = Vec::new();
    let mut i: usize = 0;
    let ghost keep = |w: Seq<char>| w.len() > 0;
    proof {
        reveal(Seq::filter);
        assert(chars@.take(0) =~= Seq::<char>::empty());
        assert(split_spec(chars@.take(0), space_set()).drop_last() =~= Seq::empty());
        assert(rows(done@) =~= Seq::empty());
    }
    while i < chars.len()
        invariant
            i <= chars.len(),
            keep == |w: Seq<char>| w.len() > 0,
            rows(done@) == split_spec(chars@.take(i as int), space_set()).drop_last().filter(keep),
            piece@ == split_spec(chars@.take(i as int), space_set()).last(),
            split_spec(chars@.take(i as int), space_set()).len() > 0,
        decreases chars.len() - i,
    {
        let c = chars[i];
        let ghost before = split_spec(chars@.take(i as int), space_set());
        proof {
            reveal(Seq::filter);
            let next = chars@.take(i + 1);
            assert(next.drop_last() =~= chars@.take(i as int));
            assert(next.last() == c);
            assert(space_set().contains(c) == is_space(c));
        }
        if is_whitespace(c) {
            let ghost old_done = rows(done@);
            proof {
                assert(before.push(Seq::<char>::empty()).drop_last() =~= before);
                assert(before.drop_last().push(before.last()) =~= before);
                assert(before.drop_last() =~= before.drop_last());
            }
            if piece.len() > 0 {
                done.push(piece);
                assert(rows(done@) =~= old_done.push(before.last()));
            }
            piece = Vec::new();
        } else {
            piece.push(c);
            proof {
                let after = before.drop_last().push(before.last().push(c));
                assert(after.drop_last() =~= before.drop_last());
            }
        }
        i += 1;
    }
    proof {
        reveal(Seq::filter);
        assert(chars@.take(chars@.len() as int) =~= chars@);
        let all = split_spec(chars@, space_set());
        assert(all.drop_last().push(all.last()) =~= all);
    }
    let ghost old_done = rows(done@);
    let ghost last = piece@;
    if piece.len() > 0 {
        done.push(piece);
        assert(rows(done@) =~= old_done.push(last));
    }
    done
}

/// The white-space-separated words of `s` joined by single spaces.
pub fn collapse_whitespace(s: &str) -> (out: String)
    ensures
        out@ == collapse_spec(s@),
{
    let chars = chars_of(s);
    let w = words_chars(&chars);
    let mut sep: Vec<char> = Vec::new();
    sep.push(' ');
    assert(sep@ =~= seq![' ']);
    let joined = join_chars(&w, &sep);
    string_of(&joined)
}

/// The lower-case form of one ASCII letter; any other character unchanged.
pub fn lower_ascii(c: char) -> (r: char)
    ensures
        r == ascii_lower(c),
{
    if c >= 'A' && c <= 'Z' {
        let b: u8 = c as u8;
        (b + 32) as char
    } else {
        c
    }
}

/// Whether two texts are equal once ASCII capitals are lowered.
pub fn eq_ignore_ascii_case(a: &Vec<char>, b: &Vec<char>) -> (r: bool)
    ensures
        r == eq_ignore_ascii_case_spec(a@, b@),
{
    if a.len() != b.len() {
        assert(ascii_lower_spec(a@).len() != ascii_lower_spec(b@).len());
        return false;
    }
    let mut i: usize = 0;
    while i < a.len()
        invariant
            i <= a.len(),
            a.len() == b.len(),
            forall|k: int| 0 <= k < i ==> ascii_lower(a@[k]) == ascii_lower(b@[k]),
        decreases a.len() - i,
    {
        if lower_ascii(a[i]) != lower_ascii(b[i]) {
            assert(ascii_lower_spec(a@)[i as int] != ascii_lower_spec(b@)[i as int]);
            return false;
        }
        i += 1;
    }
    assert(ascii_lower_spec(a@) =~= ascii_lower_spec(b@));
    true
}

/// The decimal numeral of `n` as characters.
pub fn decimal_chars(n: u64) -> (out: Vec<char>)
    ensures
        out@ == decimal_spec(n as nat),
    decreases n,
{
    if n < 10 {
        let d: u8 = 48 + (n as u8);
        let mut out: Vec<char> = Vec::new();
        out.push(d as char);
        assert(out@ =~= seq![digit_char(n as nat)]);
        out
    } else {
        let mut out = decimal_chars(n / 10);
        let d: u8 = 48 + ((n % 10) as u8);
        out.push(d as char);
        out
    }
}

/// The decimal numeral of `n`.
pub fn decimal(n: u64) -> (out: String)
    ensures
        out@ == decimal_spec(n as nat),
{
    let chars = decimal_chars(n);
    string_of(&chars)
}

/// The decimal numeral of `n`, with one leading zero when it is below ten.
pub fn decimal2(n: u64) -> (out: String)
    ensures
        out@ == decimal2_spec(n as nat),
{
    let digits = decimal_chars(n);
    if n < 10 {
        let mut out: Vec<char> = Vec::new();
        out.push('0');
        assert(out@ =~= seq!['0']);
        push_all(&mut out, &digits);
        string_of(&out)
    } else {
        string_of(&digits)
    }
}

/// The lines of `s`.
pub fn lines(s: &str) -> (out: Vec<String>)
    ensures
        texts(out@) == lines_spec(s@),
{
    let chars = chars_of(s);
    let mut nl: Vec<char> = Vec::new();
    nl.push('\n');
    assert(nl@ =~= seq!['\n']);
    let pieces = split_chars(&chars, &nl);
    let ghost all = rows(pieces@);
    let ghost strip = |p: Seq<char>| strip_cr(p);
    let mut out: Vec<String> = Vec::new();
    let n = pieces.len();
    assert(n > 0) by {
        lemma_split_nonempty(chars@, nl@.to_set());
    }
    let mut i: usize = 0;
    assert(texts(out@) =~= all.drop_last().map_values(strip).take(0));
    while i + 1 < n
        invariant
            i + 1 <= n,
            n == pieces.len(),
            all == rows(pieces@),
            strip == |p: Seq<char>| strip_cr(p),
            texts(out@) == all.drop_last().map_values(strip).take(i as int),
        decreases n - i,
    {
        let p = &pieces[i];
        let ghost before = texts(out@);
        let m = p.len();
        let line = if m > 0 && p[m - 1] == '\r' {
            assert(p@.drop_last() =~= p@.subrange(0, m - 1));
            string_of_range(p, 0, m - 1)
        } else {
            string_of(p)
        };
        out.push(line);
        proof {
            assert(texts(out@) =~= before.push(strip_cr(p@)));
            let mapped = all.drop_last().map_values(strip);
            assert(mapped.take(i + 1) =~= mapped.take(i as int).push(strip_cr(p@)));
        }
        i += 1;
    }
    proof {
        let mapped = all.drop_last().map_values(strip);
        assert(mapped.take(mapped.len() as int) =~= mapped);
    }
    if pieces[n - 1].len() > 0 {
        let ghost before = texts(out@);
        let tail = string_of(&pieces[n - 1]);
        out.push(tail);
        assert(texts(out@) =~= before.push(pieces@[n - 1]@));
    }
    out
}

/// Splitting always yields at least one piece.
pub proof fn lemma_split_nonempty(s: Seq<char>, delims: Set<char>)
    ensures
        split_spec(s, delims).len() > 0,
    decreases s.len(),
{
    if s.len() > 0 {
        lemma_split_nonempty(s.drop_last(), delims);
    }
}

/// A copy of each string of `items`.
pub fn copy_strings(items: &Vec<String>) -> (out: Vec<String>)
    ensures
        texts(out@) == texts(items@),
        out@.len() == items@.len(),
{
    let mut out: Vec<String> = Vec::new();
    let mut i: usize = 0;
    while i < items.len()
        invariant
            i <= items.len(),
            out@.len() == i,
            texts(out@) == texts(items@).take(i as int),
        decreases items.len() - i,
    {
        let ghost before = texts(out@);
        out.push(items[i].clone());
        assert(texts(out@) =~= before.push(items@[i as int]@));
        assert(texts(items@).take(i + 1) =~= texts(items@).take(i as int).push(items@[i as int]@));
        i += 1;
    }
    assert(texts(items@).take(items@.len() as int) =~= texts(items@));
    out
}

/// A copy of an optional string.
pub fn copy_opt(item: &Option<String>) -> (out: Option<String>)
    ensures
        opt_text(out) == opt_text(*item),
{
    match item {
        Some(s) => Some(s.clone()),
        None => None,
    }
}

/// The first `n` strings of `items`, or all of them when there are fewer.
pub fn first_strings(items: &Vec<String>, n: usize) -> (out: Vec<String>)
    ensures
        texts(out@) == if n <= items@.len() {
            texts(items@).take(n as int)
        } else {
            texts(items@)
        },
{
    let m = if n <= items.len() {
        n
    } else {
        items.len()
    };
    let mut out: Vec<String> = Vec::new();
    let mut i: usize = 0;
    while i < m
        invariant
            i <= m <= items.len(),
            texts(out@) == texts(items@).take(i as int),
        decreases m - i,
    {
        let ghost before = texts(out@);
        out.push(items[i].clone());
        assert(texts(out@) =~= before.push(items@[i as int]@));
        assert(texts(items@).take(i + 1) =~= texts(items@).take(i as int).push(items@[i as int]@));
        i += 1;
    }
    assert(texts(items@).take(items@.len() as int) =~= texts(items@));
    out
}

/// The upper-case form of `s` without its surrounding white space.
pub fn trimmed_upper(s: &str) -> (out: String)
    ensures
        out@ == uppercase_of(trim_spec(s@)),
{
    let t = trim(s);
    t.as_str().to_uppercase()
}

/// The lower-case form of `s` without its surrounding white space.
pub fn trimmed_lower(s: &str) -> (out: String)
    ensures
        out@ == lowercase_of(trim_spec(s@)),
{
    let t = trim(s);
    t.as_str().to_lowercase()
}

/// `s` without its leading white space.
pub fn trim_start(s: &str) -> (out: String)
    ensures
        out@ == trim_start_spec(s@),
{
    let chars = chars_of(s);
    let n = chars.len();
    let mut i: usize = 0;
    while i < n && is_whitespace(chars[i])
        invariant
            i <= n,
            n == chars.len(),
            forall|k: int| 0 <= k < i ==> is_space(chars@[k]),
        decreases n - i,
    {
        i += 1;
    }
    proof {
        lemma_trim_start_skips(chars@, i as int);
        let rest = chars@.subrange(i as int, n as int);
        assert(trim_start_spec(rest) == rest);
    }
    string_of_range(&chars, i, n)
}

/// Appends a copy of `s` to `items`.
pub fn push_text(items: &mut Vec<String>, s: &str)
    ensures
        texts(final(items)@) == texts(old(items)@).push(s@),
        final(items)@.len() == old(items)@.len() + 1,
{
    let ghost before = texts(items@);
    items.push(copy_str(s));
    assert(texts(items@) =~= before.push(s@));
}

/// The two texts `a` and `b` as a list.
pub fn list2(a: &str, b: &str) -> (out: Vec<String>)
    ensures
        texts(out@) == seq![a@, b@],
{
    let mut out: Vec<String> = Vec::new();
    assert(texts(out@) =~= Seq::empty());
    push_text(&mut out, a);
    push_text(&mut out, b);
    assert(texts(out@) =~= seq![a@, b@]);
    out
}

/// The three texts `a`, `b` and `c` as a list.
pub fn list3(a: &str, b: &str, c: &str) -> (out: Vec<String>)
    ensures
        texts(out@) == seq![a@, b@, c@],
{
    let mut out = list2(a, b);
    push_text(&mut out, c);
    assert(texts(out@) =~= seq![a@, b@, c@]);
    out
}

/// The four texts `a`, `b`, `c` and `d` as a list.
pub fn list4(a: &str, b: &str, c: &str, d: &str) -> (out: Vec<String>)
    ensures
        texts(out@) == seq![a@, b@, c@, d@],
{
    let mut out = list3(a, b, c);
    push_text(&mut out, d);
    assert(texts(out@) =~= seq![a@, b@, c@, d@]);
    out
}

/// `s` without its trailing slashes.
pub fn trim_end_matches_slash(s: &str) -> (out: String)
    ensures
        out@ == trim_end_slash_spec(s@),
{
    let chars = chars_of(s);
    let mut j: usize = chars.len();
    assert(chars@.take(j as int) =~= chars@);
    while j > 0 && chars[j - 1] == '/'
        invariant
            j <= chars@.len(),
            trim_end_slash_spec(chars@) == trim_end_slash_spec(chars@.take(j as int)),
        decreases j,
    {
        assert(chars@.take(j as int).drop_last() =~= chars@.take(j - 1));
        j -= 1;
    }
    assert(chars@.take(j as int) =~= chars@.subrange(0, j as int));
    string_of_range(&chars, 0, j)
}

} // verus!
