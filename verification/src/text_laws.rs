//! Numbers and addresses as text, and where names are looked up.

use vstd::prelude::*;

use crate::bytes::ByteClass;
use crate::csp_source::CanonicalHosts;
use crate::headers::FieldModel;
use crate::web::{IpAddress, WebScheme};

verus! {

/// The digits of a number read as that number, without a leading zero.
pub proof fn digits_read_back(number: nat)
    ensures
        crate::bytes::decimal(crate::text::decimal_digits(number)) == number,
        ByteClass::Digit.has_all(crate::text::decimal_digits(number)),
        crate::text::decimal_digits(number).len() > 0,
        crate::text::decimal_digits(number).len() > 1 ==> crate::text::decimal_digits(number)[0]
            != '0' as u8,
        number >= 10 ==> crate::text::decimal_digits(number).len() > 1,
    decreases number,
{
    let digits = crate::text::decimal_digits(number);
    if number < 10 {
        let digit = (0x30 + number) as u8;
        assert(digits =~= Seq::<u8>::empty().push(digit));
        crate::byte_laws::decimal_reads_digits(Seq::empty(), digit);
        crate::byte_laws::classes_are_ascii(digit);
    } else {
        let rest = crate::text::decimal_digits(number / 10);
        let digit = (0x30 + number % 10) as u8;
        digits_read_back(number / 10);
        crate::byte_laws::decimal_reads_digits(rest, digit);
        crate::byte_laws::classes_are_ascii(digit);
        assert(digits[0] == rest[0]);
        assert(number / 10 * 10 + number % 10 == number);
        if rest.len() == 1 {
            assert(number / 10 < 10 ==> rest[0] == (0x30 + number / 10) as u8);
        }
        assert forall|i: int| 0 <= i < digits.len() implies ByteClass::Digit.has(
            #[trigger] digits[i],
        ) by {
            if i < rest.len() {
                assert(digits[i] == rest[i]);
            }
        }
    }
}

/// Bytes of texts add up, and ASCII characters have one each.
pub proof fn text_bytes_add_up(left: Seq<char>, right: Seq<char>, ascii: Seq<u8>)
    requires
        crate::text::is_ascii_bytes(ascii),
    ensures
        crate::text::utf8_len(left + right) == crate::text::utf8_len(left) + crate::text::utf8_len(
            right,
        ),
        crate::text::utf8_len(crate::text::ascii_chars(ascii)) == ascii.len(),
        crate::text::utf8_text(ascii) == Some(crate::text::ascii_chars(ascii)),
        crate::text::utf8_text(crate::bytes::text(left)) == Some(left),
{
    crate::document_fetch::encoding_joins(left, right);
    crate::text::ascii_is_utf8(ascii);
    vstd::utf8::encode_utf8_valid_utf8(left);
    vstd::utf8::encode_utf8_decode_utf8(left);
}

/// An octet is a number up to 255 in its own digits.
pub proof fn octets_are_small_numbers(number: nat, digits: Seq<u8>)
    ensures
        number <= 255 ==> crate::csp_source::octet_of(crate::text::decimal_digits(number)) == Some(
            number as u8,
        ),
        number > 255 ==> crate::csp_source::octet_of(crate::text::decimal_digits(number)) is None,
        crate::csp_source::octet_of(digits) matches Some(octet) ==> octet
            == crate::bytes::decimal(digits) && digits.len() > 0 && (digits[0] == '0' as u8
            ==> digits.len() == 1),
{
    digits_read_back(number);
    if number <= 255 {
        small_numbers_are_short(number);
    }
}

/// Numbers below a thousand have at most three digits.
proof fn small_numbers_are_short(number: nat)
    requires
        number < 1000,
    ensures
        crate::text::decimal_digits(number).len() <= 3,
{
    reveal_with_fuel(crate::text::decimal_digits, 4);
}

/// Octets hold no full stop.
proof fn octets_have_no_stop(number: nat)
    ensures
        forall|i: int|
            0 <= i < crate::text::decimal_digits(number).len() ==> #[trigger]
            crate::text::decimal_digits(number)[i] != '.' as u8,
{
    digits_read_back(number);
    let digits = crate::text::decimal_digits(number);
    assert forall|i: int| 0 <= i < digits.len() implies #[trigger] digits[i] != '.' as u8 by {
        assert(ByteClass::Digit.has(digits[i]));
        crate::byte_laws::classes_are_ascii(digits[i]);
    }
}

/// Four octets with full stops between them are the address that they spell.
pub proof fn dotted_octets_are_addresses(first: u8, second: u8, third: u8, fourth: u8)
    ensures
        ({
            let a = crate::text::decimal_digits(first as nat);
            let b = crate::text::decimal_digits(second as nat);
            let c = crate::text::decimal_digits(third as nat);
            let d = crate::text::decimal_digits(fourth as nat);
            let stop = seq!['.' as u8];
            crate::csp_source::dotted_address(a + stop + b + stop + c + stop + d) == Some(
                IpAddress::V4(first, second, third, fourth),
            )
        }),
{
    let a = crate::text::decimal_digits(first as nat);
    let b = crate::text::decimal_digits(second as nat);
    let c = crate::text::decimal_digits(third as nat);
    let d = crate::text::decimal_digits(fourth as nat);
    let stop = seq!['.' as u8];
    let host = a + stop + b + stop + c + stop + d;
    octets_are_small_numbers(first as nat, a);
    octets_are_small_numbers(second as nat, b);
    octets_are_small_numbers(third as nat, c);
    octets_are_small_numbers(fourth as nat, d);
    octets_have_no_stop(first as nat);
    octets_have_no_stop(second as nat);
    octets_have_no_stop(third as nat);
    let class = ByteClass::Exactly('.' as u8);
    let one = a.len() as int;
    let two = one + 1 + b.len() as int;
    let three = two + 1 + c.len() as int;
    assert forall|i: int| 0 <= i < one implies !class.has(#[trigger] host[i]) by {
        assert(host[i] == a[i]);
    }
    assert(host[one] == '.' as u8);
    crate::byte_laws::scan_ends_at(host, 0, class, one);
    assert forall|i: int| one + 1 <= i < two implies !class.has(#[trigger] host[i]) by {
        assert(host[i] == b[i - one - 1]);
    }
    assert(host[two] == '.' as u8);
    crate::byte_laws::scan_ends_at(host, one + 1, class, two);
    assert forall|i: int| two + 1 <= i < three implies !class.has(#[trigger] host[i]) by {
        assert(host[i] == c[i - two - 1]);
    }
    assert(host[three] == '.' as u8);
    crate::byte_laws::scan_ends_at(host, two + 1, class, three);
    assert(host.subrange(0, one) =~= a);
    assert(host.subrange(one + 1, two) =~= b);
    assert(host.subrange(two + 1, three) =~= c);
    assert(host.subrange(three + 1, host.len() as int) =~= d);
}

/// A spelling names what the first entry of its scheme and spelling says, and
/// nothing without one.
pub proof fn spellings_name_their_entry(
    hosts: CanonicalHosts,
    scheme: WebScheme,
    spelling: Seq<u8>,
    from: int,
    at: int,
)
    requires
        0 <= from <= at <= hosts.entries@.len(),
        forall|i: int|
            from <= i < at ==> !((#[trigger] hosts.entries@[i]).scheme == scheme
                && hosts.entries@[i].spelling@ == spelling),
    ensures
        at == hosts.entries@.len() ==> hosts.named_from(scheme, spelling, from) is None,
        at < hosts.entries@.len() && hosts.entries@[at].scheme == scheme
            && hosts.entries@[at].spelling@ == spelling ==> hosts.named_from(scheme, spelling, from)
            == Some(hosts.entries@[at].host@),
        hosts.named(scheme, spelling) == hosts.named_from(scheme, spelling, 0),
    decreases at - from,
{
    if from < at {
        assert(!(hosts.entries@[from].scheme == scheme && hosts.entries@[from].spelling@
            == spelling));
        spellings_name_their_entry(hosts, scheme, spelling, from + 1, at);
    }
}

/// The values of a name are those of the fields with exactly that name, in order.
pub proof fn fields_have_their_values(fields: Seq<FieldModel>, field: FieldModel, name: Seq<u8>)
    ensures
        field.name == name ==> crate::headers::values_of(fields.push(field), name)
            == crate::headers::values_of(fields, name).push(field.value),
        field.name != name ==> crate::headers::values_of(fields.push(field), name)
            == crate::headers::values_of(fields, name),
        crate::headers::values_of(Seq::empty(), name).len() == 0,
{
    assert(fields.push(field).drop_last() =~= fields);
}

} // verus!
