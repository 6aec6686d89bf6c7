//! Percent-encoding and the form encoding of URL queries, on bytes.
use vstd::prelude::*;
use vstd::utf8::*;

verus! {

/// The value of one hexadecimal digit.
pub open spec fn hex_digit(byte: u8) -> Option<u8> {
    if 0x30 <= byte <= 0x39 {
        Some((byte - 0x30) as u8)
    } else if 0x61 <= byte <= 0x66 {
        Some((byte - 0x61 + 10) as u8)
    } else if 0x41 <= byte <= 0x46 {
        Some((byte - 0x41 + 10) as u8)
    } else {
        None
    }
}

/// Whether `bytes` begins with a percent sign and two hexadecimal digits.
pub open spec fn begins_with_escape(bytes: Seq<u8>) -> bool {
    &&& bytes.len() >= 3
    &&& bytes[0] == 0x25
    &&& hex_digit(bytes[1]) is Some
    &&& hex_digit(bytes[2]) is Some
}

/// The byte that the escape at the beginning of `bytes` stands for.
pub open spec fn escape_value(bytes: Seq<u8>) -> u8
    recommends
        begins_with_escape(bytes),
{
    (hex_digit(bytes[1])->0 * 16 + hex_digit(bytes[2])->0) as u8
}

/// A byte outside of any escape: a plus sign stands for `plus`, every other byte
/// for itself.
pub open spec fn unescaped_value(byte: u8, plus: u8) -> u8 {
    if byte == 0x2b {
        plus
    } else {
        byte
    }
}

/// The bytes that percent-encoded `bytes` stand for, where a plus sign stands for
/// `plus`.
pub open spec fn decoded_with(bytes: Seq<u8>, plus: u8) -> Seq<u8>
    decreases bytes.len(),
{
    if bytes.len() == 0 {
        seq![]
    } else if begins_with_escape(bytes) {
        seq![escape_value(bytes)] + decoded_with(bytes.skip(3), plus)
    } else {
        seq![unescaped_value(bytes[0], plus)] + decoded_with(bytes.skip(1), plus)
    }
}

/// The bytes that percent-encoded `bytes` of a query stand for: a plus sign stands
/// for a space.
pub open spec fn percent_decoded(bytes: Seq<u8>) -> Seq<u8> {
    decoded_with(bytes, 0x20)
}

/// The bytes that percent-encoded `bytes` of a path stand for: a plus sign stands
/// for itself.
pub open spec fn path_decoded(bytes: Seq<u8>) -> Seq<u8> {
    decoded_with(bytes, 0x2b)
}

/// The text that `String::from_utf8_lossy` makes of bytes that do not begin with a
/// character in UTF-8: what cannot be read is replaced by U+FFFD.
pub uninterp spec fn utf8_replaced(bytes: Seq<u8>) -> Seq<char>;

/// The text that bytes stand for: the characters that they begin with in UTF-8,
/// and then what becomes of the rest, if any.
pub open spec fn text_of(bytes: Seq<u8>) -> Seq<char>
    decreases bytes.len(),
{
    if bytes.len() == 0 {
        seq![]
    } else if valid_first_scalar(bytes) {
        seq![decode_first_scalar(bytes) as char] + text_of(pop_first_scalar(bytes))
    } else {
        utf8_replaced(bytes)
    }
}

/// `String::from_utf8_lossy`: a beginning that is UTF-8 is decoded, and what
/// becomes of the rest rests on the rest alone. The documentation of
/// `std::str::Utf8Error` gives the conversion in this form.
#[verifier::external_body]
pub(crate) fn utf8_lossy(bytes: &Vec<u8>) -> (text: String)
    ensures
        text@ == text_of(bytes@),
        bytes@.len() > 0 && !valid_first_scalar(bytes@) ==> text@ == utf8_replaced(bytes@),
{
    String::from_utf8_lossy(bytes).into_owned()
}

/// The index of the first `byte` in `bytes`, or the length where there is none.
pub open spec fn index_or_end(bytes: Seq<u8>, byte: u8) -> int
    decreases bytes.len(),
{
    if bytes.len() == 0 || bytes[0] == byte {
        0
    } else {
        1 + index_or_end(bytes.skip(1), byte)
    }
}

/// What stands before the first `byte` in `bytes`.
pub open spec fn before_first(bytes: Seq<u8>, byte: u8) -> Seq<u8> {
    bytes.take(index_or_end(bytes, byte))
}

/// What stands behind the first `byte` in `bytes`.
pub open spec fn after_first(bytes: Seq<u8>, byte: u8) -> Seq<u8> {
    if index_or_end(bytes, byte) < bytes.len() {
        bytes.skip(index_or_end(bytes, byte) + 1)
    } else {
        seq![]
    }
}

/// The name and the value of one field of a form: they are parted by the first
/// equals sign, and each is decoded.
pub open spec fn form_field(field: Seq<u8>) -> (Seq<char>, Seq<char>) {
    (
        text_of(percent_decoded(before_first(field, 0x3d))),
        text_of(percent_decoded(after_first(field, 0x3d))),
    )
}

/// The fields of `query` in the `application/x-www-form-urlencoded` syntax:
/// they are parted by ampersands, and empty ones are left out.
pub open spec fn form_fields(query: Seq<u8>) -> Seq<(Seq<char>, Seq<char>)>
    decreases query.len(), 
    via form_fields_shrinks
{
    if query.len() == 0 {
        seq![]
    } else if before_first(query, 0x26).len() == 0 {
        form_fields(after_first(query, 0x26))
    } else {
        seq![form_field(before_first(query, 0x26))] + form_fields(after_first(query, 0x26))
    }
}

#[via_fn]
proof fn form_fields_shrinks(query: Seq<u8>) {
    lemma_index_in_range(query, 0x26);
}

proof fn lemma_index_in_range(bytes: Seq<u8>, byte: u8)
    ensures
        0 <= index_or_end(bytes, byte) <= bytes.len(),
    decreases bytes.len(),
{
    if bytes.len() != 0 && bytes[0] != byte {
        lemma_index_in_range(bytes.skip(1), byte);
    }
}

/// The view of rows of names and values.
pub open spec fn text_pairs(pairs: Seq<(String, String)>) -> Seq<(Seq<char>, Seq<char>)> {
    pairs.map_values(|pair: (String, String)| (pair.0@, pair.1@))
}

/// `url::form_urlencoded::parse`: the fields of a query, each name and value
/// percent-decoded, with `+` read as a space, and then read as UTF-8 in the way
/// of `String::from_utf8_lossy`.
#[verifier::external_body]
pub(crate) fn form_parse(query: &str) -> (fields: Vec<(String, String)>)
    ensures
        text_pairs(fields@) == form_fields(encode_utf8(query@)),
{
    url::form_urlencoded::parse(query.as_bytes()).into_owned().collect()
}

/// Whether `encodeURIComponent` leaves a byte as it is: letters, digits and
/// `- _ . ! ~ * ' ( )`.
pub open spec fn uri_unreserved(byte: u8) -> bool {
    ||| 0x41 <= byte <= 0x5a
    ||| 0x61 <= byte <= 0x7a
    ||| 0x30 <= byte <= 0x39
    ||| byte == 0x2d
    ||| byte == 0x5f
    ||| byte == 0x2e
    ||| byte == 0x21
    ||| byte == 0x7e
    ||| byte == 0x2a
    ||| 0x27 <= byte <= 0x29
}

/// The upper-case hexadecimal digit of a number below sixteen.
pub open spec fn upper_hex(number: u8) -> u8 {
    if number < 10 {
        (0x30 + number) as u8
    } else {
        (0x41 + number - 10) as u8
    }
}

/// `bytes`, with an escape in place of every byte that is not unreserved.
pub open spec fn uri_escaped(bytes: Seq<u8>) -> Seq<u8>
    decreases bytes.len(),
{
    if bytes.len() == 0 {
        seq![]
    } else if uri_unreserved(bytes[0]) {
        seq![bytes[0]] + uri_escaped(bytes.skip(1))
    } else {
        seq![0x25, upper_hex((bytes[0] / 16) as u8), upper_hex((bytes[0] % 16) as u8)]
            + uri_escaped(bytes.skip(1))
    }
}

/// What a page's `encodeURIComponent` makes of a text.
pub open spec fn uri_component(text: Seq<char>) -> Seq<char> {
    let bytes = uri_escaped(encode_utf8(text));
    Seq::new(bytes.len(), |i: int| bytes[i] as char)
}

/// Whether decoding leaves `bytes` as they are: no plus sign and no escape
/// occurs.
pub open spec fn has_no_escape(bytes: Seq<u8>) -> bool {
    forall|i: int|
        0 <= i < bytes.len() ==> #[trigger] bytes[i] != 0x2b && !begins_with_escape(bytes.skip(i))
}

/// Decoding gives back what was escaped, in a query and in a path.
pub proof fn law_escaping_is_undone(bytes: Seq<u8>)
    ensures
        percent_decoded(uri_escaped(bytes)) == bytes,
        path_decoded(uri_escaped(bytes)) == bytes,
{
    lemma_escaping_is_undone(bytes, 0x20);
    lemma_escaping_is_undone(bytes, 0x2b);
}

proof fn lemma_escaping_is_undone(bytes: Seq<u8>, plus: u8)
    ensures
        decoded_with(uri_escaped(bytes), plus) == bytes,
    decreases bytes.len(),
{
    if bytes.len() > 0 {
        let rest = uri_escaped(bytes.skip(1));
        let escaped = uri_escaped(bytes);
        lemma_escaping_is_undone(bytes.skip(1), plus);
        if uri_unreserved(bytes[0]) {
            assert(escaped.skip(1) =~= rest);
        } else {
            assert(escaped.skip(3) =~= rest);
            let high = (bytes[0] / 16) as u8;
            let low = (bytes[0] % 16) as u8;
            assert(hex_digit(upper_hex(high)) == Some(high));
            assert(hex_digit(upper_hex(low)) == Some(low));
            assert(begins_with_escape(escaped));
            assert(escape_value(escaped) == bytes[0]);
        }
        assert(decoded_with(escaped, plus) =~= bytes);
    }
}

/// Decoding leaves bytes as they are if, and only if, they hold no plus sign and
/// no escape.
pub proof fn law_decoding_without_escapes(bytes: Seq<u8>)
    ensures
        percent_decoded(bytes) == bytes <==> has_no_escape(bytes),
{
    if has_no_escape(bytes) {
        lemma_plain_is_kept(bytes);
    }
    if percent_decoded(bytes) == bytes {
        lemma_kept_is_plain(bytes);
    }
}

proof fn lemma_plain_is_kept(bytes: Seq<u8>)
    requires
        has_no_escape(bytes),
    ensures
        percent_decoded(bytes) == bytes,
    decreases bytes.len(),
{
    if bytes.len() > 0 {
        let rest = bytes.skip(1);
        assert forall|i: int| 0 <= i < rest.len() implies #[trigger] rest[i] != 0x2b
            && !begins_with_escape(rest.skip(i)) by {
            assert(rest.skip(i) =~= bytes.skip(i + 1));
            assert(rest[i] == bytes[i + 1]);
        }
        lemma_plain_is_kept(rest);
        assert(bytes.skip(0) =~= bytes);
        assert(percent_decoded(bytes) =~= bytes);
    }
}

proof fn lemma_kept_is_plain(bytes: Seq<u8>)
    requires
        percent_decoded(bytes) == bytes,
    ensures
        has_no_escape(bytes),
    decreases bytes.len(),
{
    if bytes.len() > 0 {
        if begins_with_escape(bytes) {
            lemma_decoding_shortens(bytes.skip(3));
        }
        let rest = bytes.skip(1);
        assert(percent_decoded(bytes)[0] == unescaped_value(bytes[0], 0x20));
        assert(percent_decoded(bytes).skip(1) =~= percent_decoded(rest));
        lemma_kept_is_plain(rest);
        assert forall|i: int| 0 <= i < bytes.len() implies #[trigger] bytes[i] != 0x2b
            && !begins_with_escape(bytes.skip(i)) by {
            if i > 0 {
                assert(bytes.skip(i) =~= rest.skip(i - 1));
                assert(bytes[i] == rest[i - 1]);
            } else {
                assert(bytes.skip(0) =~= bytes);
            }
        }
    }
}

proof fn lemma_decoding_shortens(bytes: Seq<u8>)
    ensures
        percent_decoded(bytes).len() <= bytes.len(),
    decreases bytes.len(),
{
    if bytes.len() > 0 {
        if begins_with_escape(bytes) {
            lemma_decoding_shortens(bytes.skip(3));
        } else {
            lemma_decoding_shortens(bytes.skip(1));
        }
    }
}

/// Whether an escape that begins in `bytes` ends there too: no percent sign is
/// among the last two bytes.
pub open spec fn escapes_end_inside(bytes: Seq<u8>) -> bool {
    forall|i: int| 0 <= i < bytes.len() && bytes.len() - 2 <= i ==> #[trigger] bytes[i] != 0x25
}

/// Whether every escape in `bytes` stands for an ASCII character.
pub open spec fn escapes_are_ascii(bytes: Seq<u8>) -> bool {
    forall|i: int|
        #![trigger bytes[i]]
        0 <= i < bytes.len() && begins_with_escape(bytes.skip(i)) ==> escape_value(bytes.skip(i))
            < 0x80
}

/// Joined bytes are decoded one after the other, unless an escape goes across the
/// joint.
pub proof fn law_decoding_distributes(left: Seq<u8>, right: Seq<u8>)
    requires
        escapes_end_inside(left),
    ensures
        percent_decoded(left + right) == percent_decoded(left) + percent_decoded(right),
        path_decoded(left + right) == path_decoded(left) + path_decoded(right),
{
    lemma_decoding_distributes(left, right, 0x20);
    lemma_decoding_distributes(left, right, 0x2b);
}

proof fn lemma_decoding_distributes(left: Seq<u8>, right: Seq<u8>, plus: u8)
    requires
        escapes_end_inside(left),
    ensures
        decoded_with(left + right, plus) == decoded_with(left, plus) + decoded_with(right, plus),
    decreases left.len(),
{
    let whole = left + right;
    if left.len() == 0 {
        assert(whole =~= right);
    } else if begins_with_escape(left) {
        assert(whole.skip(3) =~= left.skip(3) + right);
        lemma_decoding_distributes(left.skip(3), right, plus);
    } else {
        assert(left[0] != 0x25 || left.len() >= 3);
        assert(!begins_with_escape(whole));
        assert(whole.skip(1) =~= left.skip(1) + right);
        lemma_decoding_distributes(left.skip(1), right, plus);
    }
    assert(decoded_with(whole, plus) =~= decoded_with(left, plus) + decoded_with(right, plus));
}

/// Joined texts are decoded one after the other, where no escape goes across the
/// joint and those of the first text stand for ASCII characters.
pub proof fn law_text_decoding_distributes(left: Seq<char>, right: Seq<char>)
    requires
        escapes_end_inside(encode_utf8(left)),
        escapes_are_ascii(encode_utf8(left)),
    ensures
        text_of(percent_decoded(encode_utf8(left + right))) == text_of(
            percent_decoded(encode_utf8(left)),
        ) + text_of(percent_decoded(encode_utf8(right))),
{
    let first = percent_decoded(encode_utf8(left));
    let second = percent_decoded(encode_utf8(right));
    lemma_encoding_distributes(left, right);
    law_decoding_distributes(encode_utf8(left), encode_utf8(right));
    encode_utf8_valid_utf8(left);
    lemma_decoded_is_utf8(encode_utf8(left), 0x20);
    lemma_reading_distributes(first, second);
}

/// Bytes that follow UTF-8 are read by themselves.
proof fn lemma_reading_distributes(left: Seq<u8>, right: Seq<u8>)
    requires
        valid_utf8(left),
    ensures
        text_of(left + right) == text_of(left) + text_of(right),
    decreases left.len(),
{
    let whole = left + right;
    if left.len() == 0 {
        assert(whole =~= right);
    } else {
        assert(pop_first_scalar(whole) =~= pop_first_scalar(left) + right);
        lemma_reading_distributes(pop_first_scalar(left), right);
    }
    assert(text_of(whole) =~= text_of(left) + text_of(right));
}

/// The bytes of a text stand for that text.
pub proof fn lemma_text_is_kept(text: Seq<char>)
    ensures
        text_of(encode_utf8(text)) == text,
    decreases text.len(),
{
    if text.len() > 0 {
        encode_utf8_first_scalar(text);
        char_u32_cast(text[0], text[0] as u32);
        assert(text_of(encode_utf8(text))[0] == text[0]);
        assert(pop_first_scalar(encode_utf8(text)) =~= encode_utf8(text.drop_first()));
        lemma_text_is_kept(text.drop_first());
    }
    assert(text_of(encode_utf8(text)) =~= text);
}

proof fn lemma_encoding_distributes(left: Seq<char>, right: Seq<char>)
    ensures
        encode_utf8(left + right) == encode_utf8(left) + encode_utf8(right),
    decreases left.len(),
{
    if left.len() == 0 {
        assert(left + right =~= right);
    } else {
        assert((left + right).drop_first() =~= left.drop_first() + right);
        lemma_encoding_distributes(left.drop_first(), right);
    }
    assert(encode_utf8(left + right) =~= encode_utf8(left) + encode_utf8(right));
}

/// UTF-8 whose escapes stand for ASCII characters decodes to UTF-8.
proof fn lemma_decoded_is_utf8(bytes: Seq<u8>, plus: u8)
    requires
        valid_utf8(bytes),
        escapes_are_ascii(bytes),
        plus < 0x80,
    ensures
        valid_utf8(decoded_with(bytes, plus)),
    decreases bytes.len(),
{
    if bytes.len() > 0 {
        assert(bytes.skip(0) =~= bytes);
        let width: int = if begins_with_escape(bytes) {
            3
        } else {
            length_of_first_scalar(bytes)
        };
        let head = bytes.take(width);
        let rest = bytes.skip(width);
        assert(pop_first_scalar(bytes) =~= bytes.skip(length_of_first_scalar(bytes)));
        assert(valid_utf8(rest)) by {
            if begins_with_escape(bytes) {
                assert(valid_utf8(bytes.skip(1)));
                assert(pop_first_scalar(bytes.skip(1)) =~= bytes.skip(2));
                assert(valid_utf8(bytes.skip(2)));
                assert(pop_first_scalar(bytes.skip(2)) =~= bytes.skip(3));
            }
        }
        assert(escapes_are_ascii(rest)) by {
            assert forall|i: int|
                #![trigger rest[i]]
                0 <= i < rest.len() && begins_with_escape(rest.skip(i)) implies escape_value(
                rest.skip(i),
            ) < 0x80 by {
                assert(rest.skip(i) =~= bytes.skip(i + width));
                assert(bytes[i + width] == rest[i]);
            }
        }
        lemma_decoded_is_utf8(rest, plus);
        assert(head + rest =~= bytes);
        if begins_with_escape(bytes) {
            lemma_ascii_is_utf8(escape_value(bytes));
            valid_utf8_concat(seq![escape_value(bytes)], decoded_with(rest, plus));
        } else if width == 1 {
            lemma_ascii_is_utf8(unescaped_value(bytes[0], plus));
            valid_utf8_concat(seq![unescaped_value(bytes[0], plus)], decoded_with(rest, plus));
        } else {
            lemma_high_bytes_are_kept(head, plus);
            lemma_decoding_distributes(head, rest, plus);
            assert(valid_first_scalar(head));
            assert(pop_first_scalar(head) =~= Seq::<u8>::empty());
            assert(valid_utf8(Seq::<u8>::empty()));
            valid_utf8_concat(head, decoded_with(rest, plus));
        }
    }
}

proof fn lemma_ascii_is_utf8(byte: u8)
    requires
        byte < 0x80,
    ensures
        valid_utf8(seq![byte]),
{
    let one = seq![byte];
    assert(byte & 0x7f == byte) by (bit_vector)
        requires
            byte < 0x80,
    ;
    assert(pop_first_scalar(one) =~= Seq::<u8>::empty());
    assert(valid_utf8(pop_first_scalar(one)));
}

proof fn lemma_high_bytes_are_kept(bytes: Seq<u8>, plus: u8)
    requires
        forall|i: int| 0 <= i < bytes.len() ==> #[trigger] bytes[i] >= 0x80,
    ensures
        decoded_with(bytes, plus) == bytes,
    decreases bytes.len(),
{
    if bytes.len() > 0 {
        lemma_high_bytes_are_kept(bytes.skip(1), plus);
        assert(decoded_with(bytes, plus) =~= bytes);
    }
}

proof fn lemma_escaped_bytes(bytes: Seq<u8>)
    ensures
        forall|i: int|
            0 <= i < uri_escaped(bytes).len() ==> uri_unreserved(#[trigger] uri_escaped(bytes)[i])
                || uri_escaped(bytes)[i] == 0x25,
    decreases bytes.len(),
{
    if bytes.len() > 0 {
        let rest = uri_escaped(bytes.skip(1));
        lemma_escaped_bytes(bytes.skip(1));
        let escaped = uri_escaped(bytes);
        assert forall|i: int| 0 <= i < escaped.len() implies uri_unreserved(#[trigger] escaped[i])
            || escaped[i] == 0x25 by {
            if uri_unreserved(bytes[0]) {
                if i > 0 {
                    assert(escaped[i] == rest[i - 1]);
                }
            } else if i >= 3 {
                assert(escaped[i] == rest[i - 3]);
            }
        }
    }
}

/// An encoded component is made of unreserved characters and percent signs.
pub proof fn lemma_component_is_ascii(text: Seq<char>)
    ensures
        forall|i: int|
            0 <= i < uri_component(text).len() ==> #[trigger] uri_component(text)[i] < '\u{80}' && (
            uri_unreserved(uri_component(text)[i] as u8) || uri_component(text)[i] == '%'),
{
    lemma_escaped_bytes(encode_utf8(text));
    let bytes = uri_escaped(encode_utf8(text));
    assert forall|i: int| 0 <= i < bytes.len() implies #[trigger] uri_component(text)[i]
        < '\u{80}' && (uri_unreserved(uri_component(text)[i] as u8) || uri_component(text)[i]
        == '%') by {
        assert(uri_unreserved(bytes[i]) || bytes[i] == 0x25);
    }
}

proof fn lemma_index_found(bytes: Seq<u8>, byte: u8, at: int)
    requires
        0 <= at <= bytes.len(),
        forall|i: int| 0 <= i < at ==> bytes[i] != byte,
        at < bytes.len() ==> bytes[at] == byte,
    ensures
        index_or_end(bytes, byte) == at,
    decreases bytes.len(),
{
    if at > 0 {
        lemma_index_found(bytes.skip(1), byte, at - 1);
    }
}

/// A form field that was encoded is read as the name and the value that went in,
/// and as nothing else.
pub proof fn law_form_field_is_read_back(name: Seq<char>, value: Seq<char>)
    ensures
        form_fields(encode_utf8(uri_component(name) + seq!['='] + uri_component(value))) == seq![
            (name, value),
        ],
{
    let left = uri_escaped(encode_utf8(name));
    let right = uri_escaped(encode_utf8(value));
    let query = left + seq![0x3du8] + right;
    lemma_escaped_bytes(encode_utf8(name));
    lemma_escaped_bytes(encode_utf8(value));
    assert(encode_utf8(uri_component(name) + seq!['='] + uri_component(value)) =~= query) by {
        let text = uri_component(name) + seq!['='] + uri_component(value);
        assert forall|i: int| 0 <= i < text.len() implies (#[trigger] text[i] as u8) == query[i]
            && text[i] < 0x80 as char by {}
        assert(is_ascii_chars(text));
        is_ascii_chars_encode_utf8(text);
    }
    lemma_index_found(query, 0x26, query.len() as int);
    lemma_index_found(query, 0x3d, left.len() as int);
    assert(before_first(query, 0x26) =~= query);
    assert(before_first(query, 0x3d) =~= left);
    assert(after_first(query, 0x3d) =~= right);
    law_escaping_is_undone(encode_utf8(name));
    law_escaping_is_undone(encode_utf8(value));
    lemma_text_is_kept(name);
    lemma_text_is_kept(value);
    assert(form_field(query) == (name, value));
    assert(form_fields(seq![]) =~= seq![]);
    assert(form_fields(query) =~= seq![(name, value)]);
}

/// The hexadecimal digits are `0` to `9` for the numbers below ten, and `a` to `f`
/// or `A` to `F` for those from ten to fifteen.
pub proof fn law_hexadecimal_digits(byte: u8, value: u8)
    ensures
        hex_digit(byte) == Some(value) <==> {
            ||| value < 10 && byte == 0x30 + value
            ||| 10 <= value < 16 && byte == 0x61 + (value - 10)
            ||| 10 <= value < 16 && byte == 0x41 + (value - 10)
        },
{
}

/// A byte by itself stands for itself, but a plus sign in a query stands for a
/// space.
pub proof fn law_bytes_stand_for_themselves(byte: u8)
    ensures
        percent_decoded(seq![]) == Seq::<u8>::empty(),
        path_decoded(seq![]) == Seq::<u8>::empty(),
        byte != 0x2b ==> percent_decoded(seq![byte]) == seq![byte],
        percent_decoded(seq![0x2bu8]) == seq![0x20u8],
        path_decoded(seq![byte]) == seq![byte],
{
    assert(seq![byte].skip(1) =~= Seq::<u8>::empty());
    assert(seq![0x2bu8].skip(1) =~= Seq::<u8>::empty());
    assert(decoded_with(Seq::<u8>::empty(), 0x20) =~= Seq::<u8>::empty());
    assert(decoded_with(Seq::<u8>::empty(), 0x2b) =~= Seq::<u8>::empty());
    assert(decoded_with(seq![byte], 0x2b) =~= seq![byte]);
    assert(decoded_with(seq![0x2bu8], 0x20) =~= seq![0x20u8]);
    if byte != 0x2b {
        assert(decoded_with(seq![byte], 0x20) =~= seq![byte]);
    }
}

/// A percent sign and two hexadecimal digits stand for the byte with these digits.
pub proof fn law_escapes_stand_for_bytes(first: u8, second: u8, high: u8, low: u8)
    requires
        hex_digit(first) == Some(high),
        hex_digit(second) == Some(low),
    ensures
        percent_decoded(seq![0x25, first, second]) == seq![(16 * high + low) as u8],
        path_decoded(seq![0x25, first, second]) == seq![(16 * high + low) as u8],
{
    let escape = seq![0x25, first, second];
    assert(escape.skip(3) =~= Seq::<u8>::empty());
    assert(begins_with_escape(escape));
    assert(decoded_with(Seq::<u8>::empty(), 0x20) =~= Seq::<u8>::empty());
    assert(decoded_with(Seq::<u8>::empty(), 0x2b) =~= Seq::<u8>::empty());
    assert(decoded_with(escape, 0x20) =~= seq![(16 * high + low) as u8]);
    assert(decoded_with(escape, 0x2b) =~= seq![(16 * high + low) as u8]);
}

/// A percent sign that no two hexadecimal digits follow stands for itself.
pub proof fn law_loose_percent_signs_stay(rest: Seq<u8>)
    requires
        rest.len() < 2 || hex_digit(rest[0]) is None || hex_digit(rest[1]) is None,
    ensures
        percent_decoded(seq![0x25u8] + rest) == seq![0x25u8] + percent_decoded(rest),
        path_decoded(seq![0x25u8] + rest) == seq![0x25u8] + path_decoded(rest),
{
    let bytes = seq![0x25u8] + rest;
    assert(bytes.skip(1) =~= rest);
    assert(!begins_with_escape(bytes));
}

/// A path without escapes is decoded to itself.
pub proof fn law_path_without_escapes(bytes: Seq<u8>)
    requires
        forall|i: int|
            #![trigger bytes[i]]
            0 <= i < bytes.len() ==> !begins_with_escape(bytes.skip(i)),
    ensures
        path_decoded(bytes) == bytes,
    decreases bytes.len(),
{
    if bytes.len() > 0 {
        let rest = bytes.skip(1);
        assert(bytes.skip(0) =~= bytes);
        assert(!begins_with_escape(bytes.skip(0))) by {
            let first = bytes[0];
        }
        assert forall|i: int|
            #![trigger rest[i]]
            0 <= i < rest.len() implies !begins_with_escape(rest.skip(i)) by {
            assert(rest.skip(i) =~= bytes.skip(i + 1));
            assert(rest[i] == bytes[i + 1]);
        }
        law_path_without_escapes(rest);
        assert(path_decoded(bytes) =~= bytes);
    }
}

} // verus!
