//! Text: what std promises of the string functions used here, and the small
//! formatting functions that the screen is built from.

use vstd::prelude::*;
use vstd::string::*;
use vstd::utf8::*;

verus! {

/// An ASCII character in lower case.
pub open spec fn ascii_lower(c: char) -> char {
    if 'A' <= c <= 'Z' {
        (c as u32 + 32) as char
    } else {
        c
    }
}

/// An ASCII text in lower case, character by character.
pub open spec fn ascii_lowercase(text: Seq<char>) -> Seq<char> {
    Seq::new(text.len(), |i: int| ascii_lower(text[i]))
}

/// What `str::to_lowercase` gives for a text that is not all ASCII.
pub uninterp spec fn unicode_lowercase(text: Seq<char>) -> Seq<char>;

/// `str::to_lowercase` of std: an ASCII text is lowered character by character, and for any
/// other text the result depends on the text alone.
pub assume_specification[ str::to_lowercase ](s: &str) -> (r: String)
    ensures
        is_ascii_chars(s@) ==> r@ == ascii_lowercase(s@),
        !is_ascii_chars(s@) ==> r@ == unicode_lowercase(s@),
;

/// A text in lower case.
pub open spec fn lowercase(text: Seq<char>) -> Seq<char> {
    if is_ascii_chars(text) {
        ascii_lowercase(text)
    } else {
        unicode_lowercase(text)
    }
}

/// Lowering an ASCII text again changes nothing.
pub proof fn lowering_twice(text: Seq<char>)
    requires
        is_ascii_chars(text),
    ensures
        lowercase(lowercase(text)) == lowercase(text),
        lowercase(text).len() == text.len(),
{
    let low = ascii_lowercase(text);
    assert forall|i: int| 0 <= i < low.len() implies '\0' <= #[trigger] low[i] <= '\u{7f}' && ascii_lower(
        low[i],
    ) == low[i] by {
        assert('\0' <= text[i] <= '\u{7f}');
    }
    assert(ascii_lowercase(low) =~= low);
}

/// Two ASCII texts, one behind the other, are lowered each by itself.
pub proof fn lowering_in_parts(front: Seq<char>, back: Seq<char>)
    requires
        is_ascii_chars(front),
        is_ascii_chars(back),
    ensures
        lowercase(front + back) == lowercase(front) + lowercase(back),
{
    is_ascii_chars_concat(front + back, front, back);
    assert(ascii_lowercase(front + back) =~= ascii_lowercase(front) + ascii_lowercase(back));
}

/// `String::push` of std: appends one character.
pub assume_specification[ String::push ](s: &mut String, ch: char)
    ensures
        final(s)@ == old(s)@.push(ch),
;

/// `String::pop` of std: takes the last character off, if there is one.
pub assume_specification[ String::pop ](s: &mut String) -> (r: Option<char>)
    ensures
        old(s)@.len() == 0 ==> r is None && final(s)@ == old(s)@,
        old(s)@.len() > 0 ==> r == Some(old(s)@.last()) && final(s)@ == old(s)@.drop_last(),
;

/// `needle` stands in `hay` from position `at` on.
pub open spec fn occurs_at(needle: Seq<char>, hay: Seq<char>, at: int) -> bool {
    0 <= at <= hay.len() - needle.len() && hay.subrange(at, at + needle.len()) == needle
}

/// `needle` is a contiguous part of `hay`.
pub open spec fn occurs_in(needle: Seq<char>, hay: Seq<char>) -> bool {
    exists|at: int| occurs_at(needle, hay, at)
}

/// `str::contains` of std with a text as the pattern: whether the pattern is a
/// sub-slice of the text.
#[verifier::external_body]
pub(crate) fn contains_text(hay: &str, needle: &str) -> (r: bool)
    ensures
        r == occurs_in(needle@, hay@),
{
    hay.contains(needle)
}

/// `a` comes before `b` in the lexicographic order of code points.
pub open spec fn precedes(a: Seq<char>, b: Seq<char>) -> bool
    decreases a.len(),
{
    if b.len() == 0 {
        false
    } else if a.len() == 0 {
        true
    } else if a[0] == b[0] {
        precedes(a.drop_first(), b.drop_first())
    } else {
        a[0] < b[0]
    }
}

/// The `<` of std on `str`: texts are ordered lexicographically by their bytes,
/// which orders them by code points.
#[verifier::external_body]
pub(crate) fn text_precedes(a: &str, b: &str) -> (r: bool)
    ensures
        r == precedes(a@, b@),
{
    a < b
}

/// No text precedes itself.
pub proof fn precedes_irreflexive(a: Seq<char>)
    ensures
        !precedes(a, a),
    decreases a.len(),
{
    if a.len() > 0 {
        precedes_irreflexive(a.drop_first());
    }
}

/// If `a` precedes `b`, then any text `c` comes after `a` or before `b`.
pub proof fn precedes_separates(a: Seq<char>, b: Seq<char>, c: Seq<char>)
    requires
        precedes(a, b),
    ensures
        precedes(a, c) || precedes(c, b),
    decreases a.len(),
{
    if a.len() > 0 && b.len() > 0 && c.len() > 0 {
        if a[0] == b[0] && a[0] == c[0] {
            precedes_separates(a.drop_first(), b.drop_first(), c.drop_first());
        }
    }
}

/// Of two texts at most one precedes the other.
pub proof fn precedes_asymmetric(a: Seq<char>, b: Seq<char>)
    requires
        precedes(a, b),
    ensures
        !precedes(b, a),
    decreases a.len(),
{
    if a.len() > 0 && b.len() > 0 && a[0] == b[0] {
        precedes_asymmetric(a.drop_first(), b.drop_first());
    }
}

/// `n` blanks.
pub open spec fn blanks(n: nat) -> Seq<char> {
    Seq::new(n, |i: int| ' ')
}

/// `text`, moved to the right edge of a field of `width` characters.
pub open spec fn right_aligned(text: Seq<char>, width: nat) -> Seq<char> {
    if text.len() >= width {
        text
    } else {
        blanks((width - text.len()) as nat) + text
    }
}

/// Pads `text` on the left to `width` characters; a longer text is kept whole.
pub fn pad_left(text: &str, width: usize) -> (r: String)
    ensures
        r@ == right_aligned(text@, width as nat),
{
    let len: usize = text.unicode_len();
    let mut out = String::new();
    let mut filled: usize = len;
    while filled < width
        invariant
            len == text@.len(),
            len <= filled,
            filled <= width || filled == len,
            out@ == blanks((filled - len) as nat),
        decreases width - filled,
    {
        out.push(' ');
        filled = filled + 1;
        assert(out@ =~= blanks((filled - len) as nat));
    }
    out.append(text);
    assert(len >= width ==> out@ =~= text@);
    out
}

/// The character of a decimal digit.
pub open spec fn digit(d: nat) -> char {
    if d == 0 {
        '0'
    } else if d == 1 {
        '1'
    } else if d == 2 {
        '2'
    } else if d == 3 {
        '3'
    } else if d == 4 {
        '4'
    } else if d == 5 {
        '5'
    } else if d == 6 {
        '6'
    } else if d == 7 {
        '7'
    } else if d == 8 {
        '8'
    } else {
        '9'
    }
}

/// `n` in decimal, without leading zeros.
pub open spec fn decimal_text(n: nat) -> Seq<char>
    decreases n,
{
    if n < 10 {
        seq![digit(n)]
    } else {
        decimal_text(n / 10).push(digit(n % 10))
    }
}

fn digit_char(d: u128) -> (r: char)
    requires
        d < 10,
    ensures
        r == digit(d as nat),
{
    match d {
        0 => '0',
        1 => '1',
        2 => '2',
        3 => '3',
        4 => '4',
        5 => '5',
        6 => '6',
        7 => '7',
        8 => '8',
        _ => '9',
    }
}

/// Writes `n` in decimal.
pub fn decimal(n: u128) -> (r: String)
    ensures
        r@ == decimal_text(n as nat),
    decreases n,
{
    if n < 10 {
        let mut out = String::new();
        out.push(digit_char(n));
        assert(out@ =~= seq![digit(n as nat)]);
        out
    } else {
        let mut out = decimal(n / 10);
        out.push(digit_char(n % 10));
        out
    }
}

/// The views of a sequence of strings.
pub open spec fn texts(parts: Seq<String>) -> Seq<Seq<char>> {
    Seq::new(parts.len(), |i: int| parts[i]@)
}

/// The view of a text, if there is one.
pub open spec fn opt_text(text: Option<String>) -> Option<Seq<char>> {
    match text {
        Some(t) => Some(t@),
        None => None,
    }
}

/// `parts` one after the other, with `sep` between neighbours.
pub open spec fn joined(parts: Seq<Seq<char>>, sep: Seq<char>) -> Seq<char>
    decreases parts.len(),
{
    if parts.len() == 0 {
        Seq::empty()
    } else if parts.len() == 1 {
        parts[0]
    } else {
        parts[0] + sep + joined(parts.drop_first(), sep)
    }
}

/// One part more, and the joined text goes on with the separator and that part.
pub proof fn joined_push(parts: Seq<Seq<char>>, sep: Seq<char>, last: Seq<char>)
    requires
        parts.len() > 0,
    ensures
        joined(parts.push(last), sep) == joined(parts, sep) + sep + last,
    decreases parts.len(),
{
    reveal_with_fuel(joined, 2);
    let more = parts.push(last);
    assert(more.drop_first() =~= parts.drop_first().push(last));
    if parts.len() == 1 {
        assert(more.drop_first() =~= seq![last]);
        assert(joined(more, sep) =~= parts[0] + sep + last);
    } else {
        joined_push(parts.drop_first(), sep, last);
        assert(joined(more, sep) =~= joined(parts, sep) + sep + last);
    }
}

/// Joins `parts` with `sep` between them.
pub fn join(parts: &Vec<String>, sep: &str) -> (r: String)
    ensures
        r@ == joined(texts(parts@), sep@),
{
    let mut out = String::new();
    let mut i: usize = 0;
    assert(texts(parts@).take(0) =~= Seq::empty());
    while i < parts.len()
        invariant
            i <= parts.len(),
            out@ == joined(texts(parts@).take(i as int), sep@),
        decreases parts.len() - i,
    {
        let ghost done = texts(parts@).take(i as int);
        assert(texts(parts@).take(i + 1) =~= done.push(parts@[i as int]@));
        if i > 0 {
            proof {
                joined_push(done, sep@, parts@[i as int]@);
            }
            out.append(sep);
            out.append(parts[i].as_str());
        } else {
            out.append(parts[i].as_str());
            assert(out@ =~= parts@[0]@);
        }
        i = i + 1;
    }
    assert(texts(parts@).take(i as int) =~= texts(parts@));
    out
}

/// The first `n` characters of `text`, or all of it if it is shorter.
pub open spec fn first_chars(text: Seq<char>, n: nat) -> Seq<char> {
    if text.len() <= n {
        text
    } else {
        text.take(n as int)
    }
}

/// Copies the first `n` characters of `text`.
pub fn take_chars(text: &str, n: usize) -> (r: String)
    ensures
        r@ == first_chars(text@, n as nat),
{
    if text.unicode_len() <= n {
        text.to_owned()
    } else {
        text.substring_char(0, n).to_owned()
    }
}

/// `text` without the slashes that it begins with.
pub open spec fn without_leading_slashes(text: Seq<char>) -> Seq<char>
    decreases text.len(),
{
    if text.len() > 0 && text[0] == '/' {
        without_leading_slashes(text.drop_first())
    } else {
        text
    }
}

/// Drops the slashes that `text` begins with.
pub fn trim_slashes(text: &str) -> (r: &str)
    ensures
        r@ == without_leading_slashes(text@),
{
    let len: usize = text.unicode_len();
    let mut start: usize = 0;
    assert(text@.skip(0) =~= text@);
    while start < len && text.get_char(start) == '/'
        invariant
            len == text@.len(),
            start <= len,
            without_leading_slashes(text@) == without_leading_slashes(text@.skip(start as int)),
        decreases len - start,
    {
        assert(text@.skip(start as int).drop_first() =~= text@.skip(start + 1));
        start = start + 1;
    }
    assert(text@.subrange(start as int, len as int) =~= text@.skip(start as int));
    text.substring_char(start, len)
}

/// How many bytes of an identifier are shown.
pub const SHORT_ID_BYTES: usize = 12;

/// The text that the first bytes of an identifier encode.
pub open spec fn leading_bytes(id: Seq<char>) -> Seq<char> {
    decode_utf8(encode_utf8(id).subrange(0, SHORT_ID_BYTES as int))
}

/// An identifier can be cut behind its first bytes: they are there and end with a whole
/// character, as they do in any ASCII text that is long enough.
pub open spec fn can_cut(id: Seq<char>) -> bool {
    ||| is_ascii_chars(id) && id.len() >= SHORT_ID_BYTES
    ||| is_char_boundary(encode_utf8(id), SHORT_ID_BYTES as int)
}

/// The short form of an identifier: its first bytes, or all of it if it has no more.
pub open spec fn short_form(id: Seq<char>) -> Seq<char> {
    if encode_utf8(id).len() > SHORT_ID_BYTES {
        leading_bytes(id)
    } else {
        id
    }
}

/// An identifier has a short form: a long one can be cut.
pub open spec fn short_id_defined(id: Seq<char>) -> bool {
    is_ascii_chars(id) || (encode_utf8(id).len() > SHORT_ID_BYTES ==> can_cut(id))
}

proof fn ascii_boundary(text: Seq<char>, at: int)
    requires
        is_ascii_chars(text),
        0 <= at <= text.len(),
    ensures
        is_char_boundary(encode_utf8(text), at),
    decreases at,
{
    encode_utf8_valid_utf8(text);
    if at > 0 {
        let rest = text.drop_first();
        is_ascii_chars_encode_utf8(text);
        encode_utf8_first_scalar(text);
        assert(pop_first_scalar(encode_utf8(text)) =~= encode_utf8(rest));
        ascii_boundary(rest, at - 1);
    }
}

/// An identifier that can be cut has a character boundary behind its first bytes.
pub proof fn cut_at_boundary(id: Seq<char>)
    requires
        can_cut(id),
    ensures
        is_char_boundary(encode_utf8(id), SHORT_ID_BYTES as int),
{
    if is_ascii_chars(id) && id.len() >= SHORT_ID_BYTES {
        ascii_boundary(id, SHORT_ID_BYTES as int);
    }
}

/// What is cut off the front of an ASCII identifier are its first characters, and so is
/// its short form.
pub proof fn ascii_ids_are_cut_by_characters(id: Seq<char>)
    requires
        is_ascii_chars(id),
    ensures
        id.len() >= SHORT_ID_BYTES ==> leading_bytes(id) == id.take(SHORT_ID_BYTES as int),
        short_form(id) == first_chars(id, SHORT_ID_BYTES as nat),
{
    let n = SHORT_ID_BYTES as int;
    is_ascii_chars_encode_utf8(id);
    if id.len() >= n {
        is_ascii_chars_encode_utf8(id.take(n));
        assert(encode_utf8(id).subrange(0, n) =~= encode_utf8(id.take(n)));
        encode_utf8_decode_utf8(id.take(n));
    }
}

/// Whether an identifier can be cut behind its first bytes.
pub fn cuttable(id: &str) -> (r: bool)
    ensures
        r == can_cut(id@),
{
    proof {
        if can_cut(id@) {
            cut_at_boundary(id@);
        }
    }
    id.is_char_boundary(SHORT_ID_BYTES)
}

/// Cuts an identifier behind its first bytes.
pub fn cut_id(id: &str) -> (r: &str)
    requires
        can_cut(id@),
    ensures
        r@ == leading_bytes(id@),
        is_ascii_chars(id@) ==> r@ == id@.take(SHORT_ID_BYTES as int),
{
    proof {
        cut_at_boundary(id@);
        encode_utf8_valid_utf8(id@);
        if is_ascii_chars(id@) {
            is_ascii_chars_encode_utf8(id@);
            ascii_ids_are_cut_by_characters(id@);
        }
    }
    let (head, _) = id.split_at(SHORT_ID_BYTES);
    proof {
        encode_utf8_decode_utf8(head@);
    }
    head
}

/// The identifier in its short form.
pub fn short_id(id: &str) -> (r: &str)
    requires
        short_id_defined(id@),
    ensures
        r@ == short_form(id@),
        is_ascii_chars(id@) ==> r@ == first_chars(id@, SHORT_ID_BYTES as nat),
{
    proof {
        if is_ascii_chars(id@) {
            is_ascii_chars_encode_utf8(id@);
            ascii_ids_are_cut_by_characters(id@);
        }
    }
    if id.as_bytes().len() > SHORT_ID_BYTES {
        cut_id(id)
    } else {
        id
    }
}

} // verus!
