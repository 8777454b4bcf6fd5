//! Byte offsets in strings.
//!
//! A `String` is addressed by bytes and read as characters. The functions
//! here say which byte offsets fall between two characters, and give the few
//! string operations of the standard library that the widgets need a
//! contract over the characters.
use vstd::prelude::*;
use vstd::utf8::{
    encode_scalar, encode_utf8, encode_utf8_first_scalar, encode_utf8_valid_utf8, is_ascii_chars,
    is_ascii_chars_encode_utf8, is_char_boundary, length_of_first_scalar, pop_first_scalar,
};

verus! {

/// The number of bytes that a character takes in a string.
pub open spec fn char_width(c: char) -> nat {
    encode_scalar(c as u32).len()
}

/// The number of bytes that the characters take in a string.
pub open spec fn byte_len(chars: Seq<char>) -> nat {
    encode_utf8(chars).len()
}

/// Whether the character with the given index starts at the given byte
/// offset. The end of the text counts as the start of one more character.
pub open spec fn starts_at(chars: Seq<char>, index: int, offset: int) -> bool {
    0 <= index <= chars.len() && byte_len(chars.take(index)) == offset
}

/// Whether the byte offset falls between two characters, or at either end of
/// the text.
pub open spec fn is_boundary(chars: Seq<char>, offset: int) -> bool {
    exists|index: int| starts_at(chars, index, offset)
}

/// The index of the character that starts at the given byte offset.
pub open spec fn char_index(chars: Seq<char>, offset: int) -> int {
    choose|index: int| starts_at(chars, index, offset)
}

/// A character takes between one and four bytes.
pub proof fn lemma_char_width(c: char)
    ensures
        1 <= char_width(c) <= 4,
{
}

/// The bytes of two texts joined are the bytes of the one followed by the
/// bytes of the other.
pub proof fn lemma_byte_len_concat(a: Seq<char>, b: Seq<char>)
    ensures
        encode_utf8(a + b) == encode_utf8(a) + encode_utf8(b),
        byte_len(a + b) == byte_len(a) + byte_len(b),
    decreases a.len(),
{
    if a.len() == 0 {
        assert(a + b =~= b);
        assert(encode_utf8(a) + encode_utf8(b) =~= encode_utf8(b));
    } else {
        lemma_byte_len_concat(a.drop_first(), b);
        assert((a + b).drop_first() =~= a.drop_first() + b);
        assert(encode_utf8(a + b) =~= encode_utf8(a) + encode_utf8(b));
    }
}

/// A text of one character takes the bytes of that character.
pub proof fn lemma_byte_len_single(c: char)
    ensures
        byte_len(seq![c]) == char_width(c),
{
    let one = seq![c];
    assert(one.drop_first() =~= Seq::<char>::empty());
    assert(encode_utf8(one.drop_first()) =~= Seq::<u8>::empty());
    assert(encode_utf8(one) =~= encode_scalar(c as u32));
}

/// A longer prefix takes more bytes.
pub proof fn lemma_offsets_increase(chars: Seq<char>, i: int, j: int)
    requires
        0 <= i < j <= chars.len(),
    ensures
        byte_len(chars.take(i)) < byte_len(chars.take(j)),
{
    let middle = chars.subrange(i, j);
    assert(chars.take(j) =~= chars.take(i) + middle);
    lemma_byte_len_concat(chars.take(i), middle);
    lemma_char_width(middle[0]);
    assert(middle =~= seq![middle[0]] + middle.drop_first());
    lemma_byte_len_concat(seq![middle[0]], middle.drop_first());
    lemma_byte_len_single(middle[0]);
}

/// At most one character starts at a byte offset.
pub proof fn lemma_char_index_unique(chars: Seq<char>, index: int, offset: int)
    requires
        starts_at(chars, index, offset),
    ensures
        is_boundary(chars, offset),
        char_index(chars, offset) == index,
        offset <= byte_len(chars),
        offset < byte_len(chars) <==> index < chars.len(),
{
    let chosen = char_index(chars, offset);
    if chosen < index {
        lemma_offsets_increase(chars, chosen, index);
    }
    if index < chosen {
        lemma_offsets_increase(chars, index, chosen);
    }
    assert(chars.take(chars.len() as int) =~= chars);
    if index < chars.len() {
        lemma_offsets_increase(chars, index, chars.len() as int);
    }
}

/// In a text of ASCII characters, the character with index `i` starts at
/// byte `i`.
pub proof fn lemma_ascii_offsets(chars: Seq<char>, index: int)
    requires
        is_ascii_chars(chars),
        0 <= index <= chars.len(),
    ensures
        starts_at(chars, index, index),
        is_boundary(chars, index),
        char_index(chars, index) == index,
        byte_len(chars) == chars.len(),
{
    is_ascii_chars_encode_utf8(chars.take(index));
    is_ascii_chars_encode_utf8(chars);
    lemma_char_index_unique(chars, index, index);
}

/// Inserting a character adds its bytes to the text, after the bytes of the
/// characters before it.
pub proof fn lemma_byte_len_insert(chars: Seq<char>, index: int, c: char)
    requires
        0 <= index <= chars.len(),
    ensures
        byte_len(chars.insert(index, c)) == byte_len(chars) + char_width(c),
        starts_at(
            chars.insert(index, c),
            index + 1,
            (byte_len(chars.take(index)) + char_width(c)) as int,
        ),
{
    let head = chars.take(index);
    let tail = chars.skip(index);
    let one = seq![c];
    assert(chars =~= head + tail);
    assert(chars.insert(index, c) =~= (head + one) + tail);
    assert(chars.insert(index, c).take(index + 1) =~= head + one);
    lemma_byte_len_concat(head, tail);
    lemma_byte_len_concat(head, one);
    lemma_byte_len_concat(head + one, tail);
    lemma_byte_len_single(one[0]);
}

/// Removing a character takes its bytes from the text, and leaves the
/// characters before it where they were.
pub proof fn lemma_byte_len_remove(chars: Seq<char>, index: int)
    requires
        0 <= index < chars.len(),
    ensures
        byte_len(chars.remove(index)) + char_width(chars[index]) == byte_len(chars),
        starts_at(chars.remove(index), index, byte_len(chars.take(index)) as int),
{
    let head = chars.take(index);
    let tail = chars.skip(index + 1);
    let one = seq![chars[index]];
    assert(chars =~= (head + one) + tail);
    assert(chars.remove(index) =~= head + tail);
    assert(chars.remove(index).take(index) =~= head);
    lemma_byte_len_concat(head, tail);
    lemma_byte_len_concat(head, one);
    lemma_byte_len_concat(head + one, tail);
    lemma_byte_len_single(one[0]);
}

/// A byte offset other than zero falls between two characters of a text
/// exactly if, counted from behind the first character, it falls between two
/// characters of the rest.
pub proof fn lemma_boundary_after_first(chars: Seq<char>, offset: int)
    requires
        chars.len() > 0,
        offset != 0,
    ensures
        is_boundary(chars, offset) <==> is_boundary(
            chars.drop_first(),
            offset - char_width(chars[0]),
        ),
{
    let first = seq![chars[0]];
    let rest = chars.drop_first();
    let width = char_width(chars[0]) as int;
    lemma_byte_len_single(chars[0]);
    if is_boundary(chars, offset) {
        let index = char_index(chars, offset);
        assert(chars.take(0) =~= Seq::<char>::empty());
        assert(index > 0);
        assert(chars.take(index) =~= first + rest.take(index - 1));
        lemma_byte_len_concat(first, rest.take(index - 1));
        assert(starts_at(rest, index - 1, offset - width));
    }
    if is_boundary(rest, offset - width) {
        let index = char_index(rest, offset - width);
        assert(chars.take(index + 1) =~= first + rest.take(index));
        lemma_byte_len_concat(first, rest.take(index));
        assert(starts_at(chars, index + 1, offset));
    }
}

/// The byte offsets that fall between two characters are those at which the
/// bytes of the text have a character boundary.
pub proof fn lemma_boundary_of_bytes(chars: Seq<char>, offset: int)
    ensures
        is_boundary(chars, offset) <==> is_char_boundary(encode_utf8(chars), offset),
    decreases chars.len(),
{
    let bytes = encode_utf8(chars);
    encode_utf8_valid_utf8(chars);
    if offset == 0 {
        assert(chars.take(0) =~= Seq::<char>::empty());
        assert(starts_at(chars, 0, 0));
    } else if offset < 0 || bytes.len() < offset {
        if is_boundary(chars, offset) {
            lemma_char_index_unique(chars, char_index(chars, offset), offset);
        }
    } else {
        encode_utf8_first_scalar(chars);
        assert(pop_first_scalar(bytes) =~= encode_utf8(chars.drop_first()));
        lemma_boundary_of_bytes(chars.drop_first(), offset - length_of_first_scalar(bytes));
        lemma_boundary_after_first(chars, offset);
    }
}

/// The length of the string in bytes.
pub fn byte_count(text: &String) -> (count: usize)
    ensures
        count == byte_len(text@),
{
    text.as_str().as_bytes().len()
}

/// Whether the byte offset falls between two characters of the string, or
/// at either of its ends.
pub fn at_boundary(text: &String, offset: usize) -> (between: bool)
    ensures
        between == is_boundary(text@, offset as int),
{
    proof {
        lemma_boundary_of_bytes(text@, offset as int);
    }
    text.as_str().is_char_boundary(offset)
}

/// `String::insert`: puts the character in front of the one that starts at
/// the byte offset, or at the end where the offset is the string's length. It
/// panics on an offset beyond the end or inside a character, which
/// `requires` leaves out.
#[verifier::external_body]
pub(crate) fn insert_char(text: &mut String, offset: usize, c: char)
    requires
        is_boundary(old(text)@, offset as int),
    ensures
        final(text)@ == old(text)@.insert(char_index(old(text)@, offset as int), c),
{
    text.insert(offset, c)
}

/// `String::remove`: takes out the character that starts at the byte offset
/// and returns it. It panics on an offset at or beyond the end or inside a
/// character, which `requires` leaves out.
#[verifier::external_body]
pub(crate) fn remove_char(text: &mut String, offset: usize) -> (removed: char)
    requires
        is_boundary(old(text)@, offset as int),
        offset < byte_len(old(text)@),
    ensures
        removed == old(text)@[char_index(old(text)@, offset as int)],
        final(text)@ == old(text)@.remove(char_index(old(text)@, offset as int)),
{
    text.remove(offset)
}

/// `String::clear`: removes all the characters.
#[verifier::external_body]
pub(crate) fn clear_text(text: &mut String)
    ensures
        final(text)@ == Seq::<char>::empty(),
{
    text.clear()
}

} // verus!
