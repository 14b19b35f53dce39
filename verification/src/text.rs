//! Character-level checks on names and values, and the labels the daemon
//! prints for its enums.
use vstd::prelude::*;
use vstd::string::*;

use crate::vocabulary::{Provider, RecordKind};

verus! {

/// Whether `c` is one of the ASCII digits `0` to `9`.
pub open spec fn ascii_digit(c: char) -> bool {
    48 <= (c as u32) <= 57
}

/// The decimal value of a run of ASCII digits.
pub open spec fn decimal_value(digits: Seq<char>) -> int
    decreases digits.len(),
{
    if digits.len() == 0 {
        0
    } else {
        decimal_value(digits.drop_last()) * 10 + ((digits.last() as u32) - 48)
    }
}

/// One octet of dotted-decimal IPv4 text: one to three ASCII digits, with
/// no leading zero unless the octet is `0` itself, worth at most 255.
pub open spec fn decimal_octet(group: Seq<char>) -> bool {
    &&& 1 <= group.len() <= 3
    &&& forall|i: int| 0 <= i < group.len() ==> ascii_digit(#[trigger] group[i])
    &&& (group.len() > 1 ==> group[0] != '0')
    &&& decimal_value(group) <= 255
}

/// The pieces of `text` between its dots, in order: one more piece than
/// there are dots, and empty pieces where dots meet or stand at an end.
pub open spec fn dot_separated(text: Seq<char>) -> Seq<Seq<char>>
    decreases text.len(),
{
    if text.len() == 0 {
        seq![Seq::<char>::empty()]
    } else {
        let earlier = dot_separated(text.drop_last());
        if text.last() == '.' {
            earlier.push(Seq::<char>::empty())
        } else {
            earlier.update(earlier.len() - 1, earlier.last().push(text.last()))
        }
    }
}

/// IPv4 text as std's `Ipv4Addr` reads it (dot-decimal notation, octal-like
/// leading zeros refused): exactly four decimal octets separated by dots,
/// with nothing else before, between or after them.
pub open spec fn ipv4_address_text(text: Seq<char>) -> bool {
    let groups = dot_separated(text);
    groups.len() == 4 && forall|k: int| 0 <= k < 4 ==> decimal_octet(#[trigger] groups[k])
}

/// Whether `text` parses as an IPv6 address under std's `Ipv6Addr` parser.
pub uninterp spec fn ipv6_address_text(text: Seq<char>) -> bool;

/// Whether `c` carries Unicode's `White_Space` property: the ASCII tab,
/// line feed, vertical tab, form feed and carriage return, the space, next
/// line, no-break space, Ogham space mark, the spaces from en quad to hair
/// space, the line and paragraph separators, the narrow no-break space, the
/// medium mathematical space and the ideographic space.
pub open spec fn white_space(c: char) -> bool {
    let v = c as u32;
    (0x9 <= v <= 0xD) || v == 0x20 || v == 0x85 || v == 0xA0 || v == 0x1680 || (0x2000 <= v <= 0x200A) || v
        == 0x2028 || v == 0x2029 || v == 0x202F || v == 0x205F || v == 0x3000
}

/// Whether the characters gathered for one octet form a decimal octet.
pub fn is_decimal_octet(group: &Vec<char>) -> (octet: bool)
    ensures
        octet == decimal_octet(group@),
{
    let length = group.len();
    if length < 1 || length > 3 {
        return false;
    }
    let mut value: u32 = 0;
    let mut index: usize = 0;
    while index < length
        invariant
            length == group.len(),
            1 <= length <= 3,
            index <= length,
            value == decimal_value(group@.take(index as int)),
            index == 0 ==> value == 0,
            index == 1 ==> value <= 9,
            index == 2 ==> value <= 99,
            index == 3 ==> value <= 999,
            forall|i: int| 0 <= i < index ==> ascii_digit(#[trigger] group@[i]),
        decreases length - index,
    {
        let digit = group[index] as u32;
        if digit < 48 || digit > 57 {
            assert(!ascii_digit(group@[index as int]));
            return false;
        }
        proof {
            let next = group@.take(index + 1);
            assert(next.drop_last() =~= group@.take(index as int));
            assert(next.last() == group@[index as int]);
        }
        value = value * 10 + (digit - 48);
        index = index + 1;
    }
    proof {
        assert(group@.take(length as int) =~= group@);
    }
    (length == 1 || group[0] != '0') && value <= 255
}

/// Whether `text` is IPv4 text as std's `Ipv4Addr` reads it.
pub fn is_ipv4_address(text: &str) -> (address: bool)
    ensures
        address == ipv4_address_text(text@),
{
    let length = text.unicode_len();
    let mut completed: usize = 0;
    let mut all_octets = true;
    let mut current: Vec<char> = Vec::new();
    let mut index: usize = 0;
    proof {
        assert(text@.take(0) =~= Seq::<char>::empty());
    }
    while index < length
        invariant
            length == text@.len(),
            index <= length,
            completed <= index,
            dot_separated(text@.take(index as int)).len() == completed + 1,
            current@ == dot_separated(text@.take(index as int)).last(),
            all_octets == forall|k: int|
                0 <= k < completed ==> decimal_octet(#[trigger] dot_separated(text@.take(index as int))[k]),
        decreases length - index,
    {
        let c = text.get_char(index);
        let ghost before = dot_separated(text@.take(index as int));
        proof {
            let next = text@.take(index + 1);
            assert(next.drop_last() =~= text@.take(index as int));
            assert(next.last() == c);
        }
        if c == '.' {
            let octet = is_decimal_octet(&current);
            proof {
                let after = before.push(Seq::<char>::empty());
                assert(dot_separated(text@.take(index + 1)) == after);
                assert((all_octets && octet) == forall|k: int|
                    0 <= k < completed + 1 ==> decimal_octet(#[trigger] after[k])) by {
                    if all_octets && octet {
                        assert forall|k: int| 0 <= k < completed + 1 implies decimal_octet(#[trigger] after[k]) by {
                            if k < completed {
                                assert(after[k] == before[k]);
                            } else {
                                assert(after[k] == before[completed as int]);
                            }
                        }
                    } else if !octet {
                        assert(after[completed as int] == before[completed as int]);
                    } else {
                        let k = choose|k: int| 0 <= k < completed && !decimal_octet(#[trigger] before[k]);
                        assert(after[k] == before[k]);
                    }
                }
            }
            all_octets = all_octets && octet;
            completed = completed + 1;
            current = Vec::new();
            proof {
                assert(current@ =~= Seq::<char>::empty());
            }
        } else {
            current.push(c);
            proof {
                let after = before.update(before.len() - 1, before.last().push(c));
                assert(dot_separated(text@.take(index + 1)) == after);
                assert(current@ =~= after.last());
                assert(all_octets == forall|k: int|
                    0 <= k < completed ==> decimal_octet(#[trigger] after[k])) by {
                    if !all_octets {
                        let k = choose|k: int| 0 <= k < completed && !decimal_octet(#[trigger] before[k]);
                        assert(after[k] == before[k]);
                    } else {
                        assert forall|k: int| 0 <= k < completed implies decimal_octet(#[trigger] after[k]) by {
                            assert(after[k] == before[k]);
                        }
                    }
                }
            }
        }
        index = index + 1;
    }
    proof {
        assert(text@.take(length as int) =~= text@);
    }
    let last_octet = is_decimal_octet(&current);
    proof {
        let groups = dot_separated(text@);
        if all_octets && completed == 3 && last_octet {
            assert forall|k: int| 0 <= k < 4 implies decimal_octet(#[trigger] groups[k]) by {
                if k == 3 {
                    assert(groups[k] == current@);
                }
            }
        }
        if completed == 3 && !all_octets {
            let k = choose|k: int| 0 <= k < 3 && !decimal_octet(#[trigger] groups[k]);
        }
    }
    all_octets && completed == 3 && last_octet
}

/// Calls `str::parse::<core::net::Ipv6Addr>`. The contract claims only that
/// the answer is the named predicate `ipv6_address_text` of the text.
#[verifier::external_body]
pub(crate) fn parses_as_ipv6(text: &str) -> (parsed: bool)
    ensures
        parsed == ipv6_address_text(text@),
{
    text.parse::<core::net::Ipv6Addr>().is_ok()
}

/// Whether `c` is white space, as `char::is_whitespace` answers it.
pub fn char_is_white_space(c: char) -> (space: bool)
    ensures
        space == white_space(c),
{
    let v = c as u32;
    (0x9 <= v && v <= 0xD) || v == 0x20 || v == 0x85 || v == 0xA0 || v == 0x1680 || (0x2000 <= v && v <= 0x200A)
        || v == 0x2028 || v == 0x2029 || v == 0x202F || v == 0x205F || v == 0x3000
}

/// Every character of `text` is white space (so trimming leaves nothing).
pub open spec fn blank(text: Seq<char>) -> bool {
    forall|i: int| 0 <= i < text.len() ==> white_space(#[trigger] text[i])
}

/// `prefix` is a prefix of `text`.
pub open spec fn has_prefix(text: Seq<char>, prefix: Seq<char>) -> bool {
    prefix.len() <= text.len() && text.subrange(0, prefix.len() as int) == prefix
}

/// Whether `text` is empty after trimming white space from both ends.
pub fn is_blank(text: &str) -> (blank_text: bool)
    ensures
        blank_text == blank(text@),
{
    let length = text.unicode_len();
    let mut index: usize = 0;
    while index < length
        invariant
            length == text@.len(),
            index <= length,
            forall|i: int| 0 <= i < index ==> white_space(#[trigger] text@[i]),
        decreases length - index,
    {
        let c = text.get_char(index);
        if !char_is_white_space(c) {
            return false;
        }
        index = index + 1;
    }
    true
}

/// Whether `text` starts with `prefix`.
pub fn starts_with(text: &str, prefix: &str) -> (starts: bool)
    ensures
        starts == has_prefix(text@, prefix@),
{
    let length = text.unicode_len();
    let prefix_length = prefix.unicode_len();
    if prefix_length > length {
        return false;
    }
    let mut index: usize = 0;
    while index < prefix_length
        invariant
            length == text@.len(),
            prefix_length == prefix@.len(),
            prefix_length <= length,
            index <= prefix_length,
            forall|i: int| 0 <= i < index ==> text@[i] == prefix@[i],
        decreases prefix_length - index,
    {
        if text.get_char(index) != prefix.get_char(index) {
            assert(text@.subrange(0, prefix@.len() as int)[index as int] != prefix@[index as int]);
            return false;
        }
        index = index + 1;
    }
    assert(text@.subrange(0, prefix@.len() as int) =~= prefix@);
    true
}

/// `suffix` is a suffix of `text`.
pub open spec fn has_suffix(text: Seq<char>, suffix: Seq<char>) -> bool {
    suffix.len() <= text.len() && text.subrange(text.len() - suffix.len(), text.len() as int) == suffix
}

/// Whether `text` ends with `suffix`.
pub fn ends_with(text: &str, suffix: &str) -> (ends: bool)
    ensures
        ends == has_suffix(text@, suffix@),
{
    let length = text.unicode_len();
    let suffix_length = suffix.unicode_len();
    if suffix_length > length {
        return false;
    }
    let offset = length - suffix_length;
    let mut index: usize = 0;
    while index < suffix_length
        invariant
            length == text@.len(),
            suffix_length == suffix@.len(),
            offset + suffix_length == length,
            index <= suffix_length,
            forall|i: int| 0 <= i < index ==> text@[offset + i] == suffix@[i],
        decreases suffix_length - index,
    {
        if text.get_char(offset + index) != suffix.get_char(index) {
            assert(text@.subrange(offset as int, length as int)[index as int] != suffix@[index as int]);
            return false;
        }
        index = index + 1;
    }
    assert(text@.subrange(offset as int, length as int) =~= suffix@);
    true
}

/// Whether two strings hold the same characters.
pub fn text_equals(left: &str, right: &str) -> (equal: bool)
    ensures
        equal == (left@ == right@),
{
    let length = left.unicode_len();
    if length != right.unicode_len() {
        return false;
    }
    let mut index: usize = 0;
    while index < length
        invariant
            length == left@.len(),
            length == right@.len(),
            index <= length,
            forall|i: int| 0 <= i < index ==> left@[i] == right@[i],
        decreases length - index,
    {
        if left.get_char(index) != right.get_char(index) {
            return false;
        }
        index = index + 1;
    }
    assert(left@ =~= right@);
    true
}

/// The label the daemon prints for a provider.
pub open spec fn provider_label(provider: Provider) -> Seq<char> {
    match provider {
        Provider::Cloudflare => "Cloudflare"@,
        Provider::GoogleCloud => "GoogleCloud"@,
        Provider::Hetzner => "Hetzner"@,
        Provider::DigitalOcean => "DigitalOcean"@,
    }
}

pub fn provider_name(provider: Provider) -> (name: &'static str)
    ensures
        name@ == provider_label(provider),
{
    match provider {
        Provider::Cloudflare => "Cloudflare",
        Provider::GoogleCloud => "GoogleCloud",
        Provider::Hetzner => "Hetzner",
        Provider::DigitalOcean => "DigitalOcean",
    }
}

/// The label the daemon prints for a record kind.
pub open spec fn record_kind_label(kind: RecordKind) -> Seq<char> {
    match kind {
        RecordKind::AddressV4 => "AddressV4"@,
        RecordKind::AddressV6 => "AddressV6"@,
        RecordKind::CanonicalName => "CanonicalName"@,
        RecordKind::Text => "Text"@,
        RecordKind::MailExchange => "MailExchange"@,
        RecordKind::NameServer => "NameServer"@,
        RecordKind::Pointer => "Pointer"@,
        RecordKind::Service => "Service"@,
        RecordKind::CertificateAuthorityAuthorization => "CertificateAuthorityAuthorization"@,
        RecordKind::SecureShellFingerprint => "SecureShellFingerprint"@,
        RecordKind::TransportLayerSecurityAuthentication => "TransportLayerSecurityAuthentication"@,
        RecordKind::UniformResourceIdentifier => "UniformResourceIdentifier"@,
        RecordKind::ServiceBinding => "ServiceBinding"@,
        RecordKind::HttpsBinding => "HttpsBinding"@,
        RecordKind::Location => "Location"@,
    }
}

pub fn record_kind_name(kind: RecordKind) -> (name: &'static str)
    ensures
        name@ == record_kind_label(kind),
{
    match kind {
        RecordKind::AddressV4 => "AddressV4",
        RecordKind::AddressV6 => "AddressV6",
        RecordKind::CanonicalName => "CanonicalName",
        RecordKind::Text => "Text",
        RecordKind::MailExchange => "MailExchange",
        RecordKind::NameServer => "NameServer",
        RecordKind::Pointer => "Pointer",
        RecordKind::Service => "Service",
        RecordKind::CertificateAuthorityAuthorization => "CertificateAuthorityAuthorization",
        RecordKind::SecureShellFingerprint => "SecureShellFingerprint",
        RecordKind::TransportLayerSecurityAuthentication => "TransportLayerSecurityAuthentication",
        RecordKind::UniformResourceIdentifier => "UniformResourceIdentifier",
        RecordKind::ServiceBinding => "ServiceBinding",
        RecordKind::HttpsBinding => "HttpsBinding",
        RecordKind::Location => "Location",
    }
}

/// Copies a string slice into a fresh `String`.
pub fn owned(text: &str) -> (copy: String)
    ensures
        copy@ == text@,
{
    String::from_str(text)
}

} // verus!
