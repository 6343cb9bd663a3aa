//! What the byte classes and scans are, told apart from how they are computed.

use vstd::prelude::*;

use crate::bytes::ByteClass;

verus! {

/// A scan ends at the first byte of the class, and nowhere else.
pub proof fn scan_ends_at(bytes: Seq<u8>, from: int, class: ByteClass, at: int)
    requires
        0 <= from <= at <= bytes.len(),
        forall|i: int| from <= i < at ==> !class.has(#[trigger] bytes[i]),
        at < bytes.len() ==> class.has(bytes[at]),
    ensures
        crate::bytes::first_in(bytes, from, class) == at,
{
    crate::bytes::first_in_is_first(bytes, from, class);
    let found = crate::bytes::first_in(bytes, from, class);
    if found < at {
        assert(class.has(bytes[found]));
    }
    if at < found {
        assert(!class.has(bytes[at]));
    }
}

/// A run ends at the first byte outside the class, and nowhere else.
pub proof fn run_ends_at(bytes: Seq<u8>, from: int, class: ByteClass, at: int)
    requires
        0 <= from <= at <= bytes.len(),
        forall|i: int| from <= i < at ==> class.has(#[trigger] bytes[i]),
        at < bytes.len() ==> !class.has(bytes[at]),
    ensures
        crate::bytes::first_outside(bytes, from, class) == at,
{
    crate::bytes::first_outside_is_first(bytes, from, class);
    let found = crate::bytes::first_outside(bytes, from, class);
    if found < at {
        assert(!class.has(bytes[found]));
    }
    if at < found {
        assert(class.has(bytes[at]));
    }
}

/// A part of bytes finds the same first byte of a class, where that byte lies
/// in the part.
pub proof fn first_in_part(whole: Seq<u8>, offset: int, part: Seq<u8>, from: int, class: ByteClass)
    requires
        0 <= offset,
        0 <= from <= part.len(),
        offset + part.len() <= whole.len(),
        part == whole.subrange(offset, offset + part.len()),
        crate::bytes::first_in(part, from, class) < part.len() || offset + part.len() == whole.len()
            || class.has(whole[offset + part.len()]),
    ensures
        crate::bytes::first_in(whole, offset + from, class) == offset + crate::bytes::first_in(
            part,
            from,
            class,
        ),
    decreases part.len() - from,
{
    if from < part.len() {
        assert(part[from] == whole[offset + from]);
        if !class.has(part[from]) {
            first_in_part(whole, offset, part, from + 1, class);
        }
    }
}

/// A part of bytes finds the same first byte outside a class, where that byte lies
/// in the part.
pub proof fn first_outside_part(whole: Seq<u8>, offset: int, part: Seq<u8>, from: int, class: ByteClass)
    requires
        0 <= offset,
        0 <= from <= part.len(),
        offset + part.len() <= whole.len(),
        part == whole.subrange(offset, offset + part.len()),
        crate::bytes::first_outside(part, from, class) < part.len() || offset + part.len() == whole.len()
            || !class.has(whole[offset + part.len()]),
    ensures
        crate::bytes::first_outside(whole, offset + from, class) == offset + crate::bytes::first_outside(
            part,
            from,
            class,
        ),
    decreases part.len() - from,
{
    if from < part.len() {
        assert(part[from] == whole[offset + from]);
        if class.has(part[from]) {
            first_outside_part(whole, offset, part, from + 1, class);
        }
    }
}

/// Trimming takes away exactly the runs at both ends: what is left begins and
/// ends outside the class, and what was taken lies inside it.
pub proof fn trimming_is_exact(left: Seq<u8>, middle: Seq<u8>, right: Seq<u8>, class: ByteClass)
    requires
        class.has_all(left),
        class.has_all(right),
        middle.len() > 0 ==> !class.has(middle[0]) && !class.has(middle.last()),
    ensures
        crate::bytes::trimmed(left + middle + right, class) == middle,
    decreases right.len(),
{
    let whole = left + middle + right;
    if right.len() > 0 && middle.len() > 0 {
        trimming_is_exact(left, middle, right.drop_last(), class);
        let shorter = left + middle + right.drop_last();
        assert(whole.drop_last() =~= shorter);
        assert forall|i: int| 0 <= i < left.len() implies class.has(#[trigger] whole[i]) by {
            assert(whole[i] == left[i]);
        }
        assert forall|i: int| 0 <= i < left.len() implies class.has(#[trigger] shorter[i]) by {
            assert(shorter[i] == left[i]);
        }
        assert(whole[left.len() as int] == middle[0]);
        assert(shorter[left.len() as int] == middle[0]);
        run_ends_at(whole, 0, class, left.len() as int);
        run_ends_at(shorter, 0, class, left.len() as int);
        let rest = crate::bytes::without_leading(whole, class);
        assert(rest.last() == right.last());
        assert(class.has(right[right.len() - 1]));
        assert(rest.drop_last() =~= crate::bytes::without_leading(shorter, class));
    } else if middle.len() > 0 {
        assert forall|i: int| 0 <= i < left.len() implies class.has(#[trigger] whole[i]) by {
            assert(whole[i] == left[i]);
        }
        assert(whole[left.len() as int] == middle[0]);
        run_ends_at(whole, 0, class, left.len() as int);
        assert(crate::bytes::without_leading(whole, class) =~= middle);
    } else {
        assert forall|i: int| 0 <= i < whole.len() implies class.has(#[trigger] whole[i]) by {
            if i < left.len() {
                assert(whole[i] == left[i]);
            } else {
                assert(whole[i] == right[i - left.len()]);
            }
        }
        run_ends_at(whole, 0, class, whole.len() as int);
        assert(crate::bytes::without_leading(whole, class) =~= Seq::<u8>::empty());
        assert(middle =~= Seq::<u8>::empty());
    }
}

/// Bytes that begin and end outside a class are left as they are.
pub proof fn trimming_keeps(bytes: Seq<u8>, class: ByteClass)
    requires
        bytes.len() > 0 ==> !class.has(bytes[0]) && !class.has(bytes.last()),
    ensures
        crate::bytes::trimmed(bytes, class) == bytes,
{
    trimming_is_exact(Seq::empty(), bytes, Seq::empty(), class);
    assert(Seq::<u8>::empty() + bytes + Seq::<u8>::empty() =~= bytes);
}

/// The classes, by the ASCII characters that they hold: tokens are the visible
/// characters without the HTTP delimiters, quoted strings hold all but controls,
/// and of the whitespace classes each holds the one before.
pub proof fn classes_are_ascii(byte: u8)
    ensures
        ByteClass::Digit.has(byte) <==> '0' as u8 <= byte <= '9' as u8,
        ByteClass::OptionalWhitespace.has(byte) <==> byte == ' ' as u8 || byte == '\t' as u8,
        ByteClass::HttpWhitespace.has(byte) <==> ByteClass::OptionalWhitespace.has(byte) || byte
            == '\n' as u8 || byte == '\r' as u8,
        ByteClass::AsciiWhitespace.has(byte) <==> ByteClass::HttpWhitespace.has(byte) || byte
            == 0x0c,
        ByteClass::PolicySeparator.has(byte) <==> ByteClass::AsciiWhitespace.has(byte) || byte
            == ',' as u8 || byte == ';' as u8,
        ByteClass::Directive.has(byte) <==> ByteClass::AsciiWhitespace.has(byte) || '!' as u8
            <= byte <= '~' as u8,
        ByteClass::QuotedString.has(byte) <==> byte == '\t' as u8 || (byte >= 0x20 && byte != 0x7f),
        ByteClass::Token.has(byte) <==> '!' as u8 <= byte <= '~' as u8 && !(byte == '"' as u8
            || byte == '(' as u8 || byte == ')' as u8 || byte == ',' as u8 || byte == '/' as u8
            || byte == ':' as u8 || byte == ';' as u8 || byte == '<' as u8 || byte == '=' as u8
            || byte == '>' as u8 || byte == '?' as u8 || byte == '@' as u8 || byte == '[' as u8
            || byte == '\\' as u8 || byte == ']' as u8 || byte == '{' as u8 || byte == '}' as u8),
        ByteClass::HostName.has(byte) <==> 'a' as u8 <= crate::bytes::lower(byte) <= 'z' as u8
            || '0' as u8 <= byte <= '9' as u8 || byte == '-' as u8 || byte == '.' as u8,
        ByteClass::Base64.has(byte) <==> 'a' as u8 <= crate::bytes::lower(byte) <= 'z' as u8
            || '0' as u8 <= byte <= '9' as u8 || byte == '+' as u8 || byte == '/' as u8 || byte
            == '-' as u8 || byte == '_' as u8,
{
}

/// Case is ignored for ASCII letters only: two bytes agree exactly if they are
/// equal or the two cases of one letter.
pub proof fn case_is_ascii_case(left: u8, right: u8)
    ensures
        crate::bytes::lower(left) == crate::bytes::lower(right) <==> left == right || ('A' as u8
            <= left <= 'Z' as u8 && right == left + 0x20) || ('A' as u8 <= right <= 'Z' as u8
            && left == right + 0x20),
        crate::bytes::lower(crate::bytes::lower(left)) == crate::bytes::lower(left),
        !('A' as u8 <= crate::bytes::lower(left) <= 'Z' as u8),
{
}

/// The named bytes are the characters that they are named after.
pub proof fn named_bytes()
    ensures
        crate::bytes::QUOTE == '"' as u8,
        crate::bytes::NUMBER_SIGN == '#' as u8,
        crate::bytes::APOSTROPHE == '\'' as u8,
        crate::bytes::STAR == '*' as u8,
        crate::bytes::COMMA == ',' as u8,
        crate::bytes::DOT == '.' as u8,
        crate::bytes::SLASH == '/' as u8,
        crate::bytes::COLON == ':' as u8,
        crate::bytes::SEMICOLON == ';' as u8,
        crate::bytes::EQUALS == '=' as u8,
        crate::bytes::QUESTION_MARK == '?' as u8,
        crate::bytes::BACKSLASH == '\\' as u8,
{
}

/// Appending a decimal digit multiplies by ten and adds the digit.
pub proof fn decimal_reads_digits(digits: Seq<u8>, digit: u8)
    requires
        '0' as u8 <= digit <= '9' as u8,
    ensures
        crate::bytes::decimal(digits.push(digit)) == crate::bytes::decimal(digits) * 10 + (digit
            - '0' as u8),
        crate::bytes::decimal(Seq::empty()) == 0,
{
    assert(digits.push(digit).drop_last() =~= digits);
}

} // verus!
