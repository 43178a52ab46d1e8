//! What callers can count on of the texts: whatever the functions of `text`, `sizes` and
//! `percent` return, told of their arguments and results alone.

use crate::percent::{check_number, severity_color, smaller};
use crate::rows::Sort;
use crate::sizes::{mem_reading, usage_text};
use crate::style::Color;
use crate::text::{
    ascii_ids_are_cut_by_characters, can_cut, cut_at_boundary, cut_id, cuttable, decimal,
    decimal_text, join, joined, joined_push, leading_bytes, pad_left, short_id, take_chars, texts,
    trim_slashes, without_leading_slashes,
};
use vstd::prelude::*;
use vstd::utf8::*;

verus! {

/// `shown` is `text` moved to the right edge of `width` cells by blanks; a longer text is kept.
pub open spec fn padded(text: Seq<char>, width: nat, shown: Seq<char>) -> bool {
    &&& shown.len() == if text.len() < width {
        width
    } else {
        text.len()
    }
    &&& shown.skip(shown.len() - text.len()) == text
    &&& forall|i: int| 0 <= i < shown.len() - text.len() ==> #[trigger] shown[i] == ' '
}

/// Padding puts blanks in front and leaves the text whole.
pub proof fn padding_keeps_the_text(text: &str, width: usize, r: String)
    requires
        call_ensures(pad_left, (text, width), r),
    ensures
        padded(text@, width as nat, r@),
{
    assert(r@.skip(r@.len() - text@.len()) =~= text@);
}

/// The number that a row of digits stands for.
pub open spec fn value(digits: Seq<char>) -> int
    decreases digits.len(),
{
    if digits.len() == 0 {
        0
    } else {
        10 * value(digits.drop_last()) + (digits.last() as int - '0' as int)
    }
}

/// `text` is the number `n` in decimal digits, without leading zeros.
pub open spec fn numeral(text: Seq<char>, n: int) -> bool {
    &&& text.len() > 0
    &&& forall|i: int| 0 <= i < text.len() ==> '0' <= #[trigger] text[i] <= '9'
    &&& value(text) == n
    &&& text[0] == '0' ==> text.len() == 1
}

/// A number in decimal reads as that number.
pub proof fn decimal_text_is_numeral(n: nat)
    ensures
        numeral(decimal_text(n), n as int),
        n > 0 ==> decimal_text(n)[0] != '0',
    decreases n,
{
    let text = decimal_text(n);
    if n < 10 {
        assert(text.drop_last() =~= Seq::empty());
        assert(value(Seq::<char>::empty()) == 0);
    } else {
        let front = decimal_text(n / 10);
        decimal_text_is_numeral(n / 10);
        assert(text.drop_last() =~= front);
        assert(text[0] == front[0]);
        assert forall|i: int| 0 <= i < text.len() implies '0' <= #[trigger] text[i] <= '9' by {
            if i < front.len() {
                assert(text[i] == front[i]);
            }
        }
    }
}

/// A number is written in digits that read as the number.
pub proof fn decimals_read_back(n: u128, r: String)
    requires
        call_ensures(decimal, (n,), r),
    ensures
        numeral(r@, n as int),
{
    decimal_text_is_numeral(n as nat);
}

/// The texts one behind the other, with `sep` before each but the first.
pub open spec fn strung(parts: Seq<Seq<char>>, sep: Seq<char>) -> Seq<char>
    decreases parts.len(),
{
    if parts.len() == 0 {
        Seq::empty()
    } else if parts.len() == 1 {
        parts[0]
    } else {
        strung(parts.drop_last(), sep) + sep + parts.last()
    }
}

/// Joined texts are strung one behind the other.
pub proof fn joined_is_strung(parts: Seq<Seq<char>>, sep: Seq<char>)
    ensures
        joined(parts, sep) == strung(parts, sep),
    decreases parts.len(),
{
    if parts.len() > 1 {
        let front = parts.drop_last();
        joined_is_strung(front, sep);
        joined_push(front, sep, parts.last());
        assert(front.push(parts.last()) =~= parts);
    }
}

/// Joining strings the parts one behind the other, each of them whole.
pub proof fn joining_strings_the_parts(parts: Vec<String>, sep: &str, r: String)
    requires
        call_ensures(join, (&parts, sep), r),
    ensures
        r@ == strung(Seq::new(parts@.len(), |i: int| parts@[i]@), sep@),
{
    joined_is_strung(texts(parts@), sep@);
    assert(texts(parts@) =~= Seq::new(parts@.len(), |i: int| parts@[i]@));
}

/// One part more at the end, and the joined text goes on with the separator and that part;
/// a single part stands alone, and no parts give no text.
pub proof fn joining_goes_on(
    front: Vec<String>,
    last: String,
    whole: Vec<String>,
    sep: &str,
    f: String,
    w: String,
)
    requires
        call_ensures(join, (&front, sep), f),
        call_ensures(join, (&whole, sep), w),
        whole@ == front@.push(last),
    ensures
        front@.len() == 0 ==> f@.len() == 0 && w@ == last@,
        front@.len() > 0 ==> w@ == f@ + sep@ + last@,
{
    assert(texts(whole@) =~= texts(front@).push(last@));
    if front@.len() > 0 {
        joined_push(texts(front@), sep@, last@);
    }
}

/// What is taken of a text is its beginning, as long as asked for or as the text is.
pub proof fn taking_gives_the_beginning(text: &str, n: usize, r: String)
    requires
        call_ensures(take_chars, (text, n), r),
    ensures
        r@.len() == if text@.len() < n {
            text@.len()
        } else {
            n as nat
        },
        forall|i: int| 0 <= i < r@.len() ==> #[trigger] r@[i] == text@[i],
{
}

/// `rest` is `text` without all the slashes that it begins with, and with nothing else missing.
pub open spec fn trimmed(text: Seq<char>, rest: Seq<char>) -> bool {
    &&& rest.len() <= text.len()
    &&& rest == text.skip(text.len() - rest.len())
    &&& forall|i: int| 0 <= i < text.len() - rest.len() ==> #[trigger] text[i] == '/'
    &&& rest.len() > 0 ==> rest[0] != '/'
}

/// A text without leading slashes is the text but for them.
pub proof fn slashes_are_trimmed(text: Seq<char>)
    ensures
        trimmed(text, without_leading_slashes(text)),
    decreases text.len(),
{
    let rest = without_leading_slashes(text);
    if text.len() > 0 && text[0] == '/' {
        let tail = text.drop_first();
        slashes_are_trimmed(tail);
        assert(text.skip(text.len() - rest.len()) =~= tail.skip(tail.len() - rest.len()));
        assert forall|i: int| 0 <= i < text.len() - rest.len() implies #[trigger] text[i] == '/' by {
            if i > 0 {
                assert(tail[i - 1] == text[i]);
            }
        }
    } else {
        assert(text.skip(0) =~= text);
    }
}

/// Trimming takes off the slashes in front and nothing else.
pub proof fn trimming_takes_slashes_only(text: &str, r: &str)
    requires
        call_ensures(trim_slashes, (text,), r),
    ensures
        trimmed(text@, r@),
{
    slashes_are_trimmed(text@);
}

/// `front` is what the first twelve bytes of `id` encode.
pub open spec fn first_twelve_bytes(id: Seq<char>, front: Seq<char>) -> bool {
    encode_utf8(id).len() >= 12 && encode_utf8(front) == encode_utf8(id).subrange(0, 12)
}

/// The front of an identifier that can be cut is what its first twelve bytes encode; of an
/// ASCII identifier these are its first twelve characters.
pub proof fn cutting_gives_twelve_bytes(id: &str, r: &str)
    requires
        is_char_boundary(encode_utf8(id@), 12),
        call_ensures(cut_id, (id,), r),
    ensures
        first_twelve_bytes(id@, r@),
        is_ascii_chars(id@) ==> r@ == id@.take(12),
{
    leading_bytes_are_twelve(id@);
}

/// The front of an identifier that can be cut is what its first twelve bytes encode.
pub proof fn leading_bytes_are_twelve(id: Seq<char>)
    requires
        is_char_boundary(encode_utf8(id), 12),
    ensures
        first_twelve_bytes(id, leading_bytes(id)),
        is_ascii_chars(id) ==> leading_bytes(id) == id.take(12),
{
    let bytes = encode_utf8(id);
    encode_utf8_valid_utf8(id);
    is_char_boundary_start_end_of_seq(bytes);
    valid_utf8_split(bytes, 12);
    decode_utf8_encode_utf8(bytes.subrange(0, 12));
    if is_ascii_chars(id) {
        is_ascii_chars_encode_utf8(id);
        ascii_ids_are_cut_by_characters(id);
    }
}

/// An identifier can be cut exactly if its first twelve bytes are there and end with a
/// character.
pub proof fn cuttable_at_a_boundary(id: &str, r: bool)
    requires
        call_ensures(cuttable, (id,), r),
    ensures
        r == is_char_boundary(encode_utf8(id@), 12),
{
    if can_cut(id@) {
        cut_at_boundary(id@);
    }
}

/// The short form of an identifier: all of it up to twelve bytes, else its first twelve bytes.
pub proof fn short_ids_have_twelve_bytes(id: &str, r: &str)
    requires
        encode_utf8(id@).len() > 12 ==> is_char_boundary(encode_utf8(id@), 12),
        call_ensures(short_id, (id,), r),
    ensures
        encode_utf8(id@).len() <= 12 ==> r@ == id@,
        encode_utf8(id@).len() > 12 ==> first_twelve_bytes(id@, r@),
        is_ascii_chars(id@) && id@.len() > 12 ==> r@ == id@.take(12),
        is_ascii_chars(id@) && id@.len() <= 12 ==> r@ == id@,
{
    if is_ascii_chars(id@) {
        is_ascii_chars_encode_utf8(id@);
    }
    if encode_utf8(id@).len() > 12 {
        leading_bytes_are_twelve(id@);
    }
}

/// A usage is told as the size in use, a slash and the size that there is.
pub proof fn usage_is_told(used: &str, limit: &str, r: String)
    requires
        call_ensures(usage_text, (used, limit), r),
    ensures
        r@ == used@ + " / "@ + limit@,
{
}

/// A reading of memory is told with both sizes and the percentage.
pub proof fn mem_reading_is_told(used: &str, limit: &str, pct: &str, r: String)
    requires
        call_ensures(mem_reading, (used, limit, pct), r),
    ensures
        r@ == "MEM "@ + used@ + " / "@ + limit@ + " ("@ + pct@ + "%)"@,
{
    assert(r@ =~= "MEM "@ + used@ + " / "@ + limit@ + " ("@ + pct@ + "%)"@);
}

/// The orders are named by the columns that they sort by.
pub proof fn orders_have_names(sort: Sort, r: &'static str)
    requires
        call_ensures(Sort::label, (sort,), r),
    ensures
        sort == Sort::Cpu ==> r@ == "CPU%"@,
        sort == Sort::Mem ==> r@ == "MEM%"@,
        sort == Sort::Name ==> r@ == "NAME"@,
{
}

/// The orders follow each other from CPU to memory to name and back to CPU.
pub proof fn orders_follow_each_other(sort: Sort, r: Sort)
    requires
        call_ensures(Sort::next, (sort,), r),
    ensures
        sort == Sort::Cpu ==> r == Sort::Mem,
        sort == Sort::Mem ==> r == Sort::Name,
        sort == Sort::Name ==> r == Sort::Cpu,
{
}

/// The colour of a percentage by the bit pattern of its value: of the numbers from zero up to
/// infinity, red from 80 on, yellow from 50 on and green below; green for anything else,
/// which is negative or no number.
pub open spec fn warns(bits: u64, color: Color) -> bool {
    color == if bits > 0x7ff0_0000_0000_0000 {
        Color::Green
    } else if bits >= 0x4054_0000_0000_0000 {
        Color::Red
    } else if bits >= 0x4049_0000_0000_0000 {
        Color::Yellow
    } else {
        Color::Green
    }
}

/// The colour of a load is red from 80 percent on, yellow from 50 percent on, else green.
pub proof fn colors_warn(bits: u64, r: Color)
    requires
        call_ensures(severity_color, (bits,), r),
    ensures
        warns(bits, r),
{
}

/// Numbers are the values up to infinity, of either sign.
pub proof fn numbers_end_at_infinity(bits: u64, r: bool)
    requires
        call_ensures(check_number, (bits,), r),
    ensures
        r == (bits % 0x8000_0000_0000_0000 <= 0x7ff0_0000_0000_0000),
{
}

/// Of numbers from zero on the one with the smaller pattern is smaller; of negative ones the
/// one with the larger; and a negative one is smaller than any from zero on, unless both are
/// zero.
pub proof fn patterns_order_numbers(a: u64, b: u64, r: bool)
    requires
        call_ensures(smaller, (a, b), r),
    ensures
        a < 0x8000_0000_0000_0000 && b < 0x8000_0000_0000_0000 ==> r == (a < b),
        a >= 0x8000_0000_0000_0000 && b >= 0x8000_0000_0000_0000 ==> r == (a > b),
        a < 0x8000_0000_0000_0000 && b >= 0x8000_0000_0000_0000 ==> !r,
        a >= 0x8000_0000_0000_0000 && b < 0x8000_0000_0000_0000 ==> r == !(a == 0x8000_0000_0000_0000 && b
            == 0),
{
}

} // verus!
