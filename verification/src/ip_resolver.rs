//! Resolving the address of the client behind a request: proxy headers,
//! address normalisation, and the private/loopback test.

use crate::headers::{header_entries, header_text, header_text_of, is_lower_header_name};
use crate::text::{
    eq_ignore_ascii_case, has_prefix, split_on, split_str, str_eq, str_eq_ignore_ascii_case,
    strip_prefix, trim, trim_str,
};
use axum::http::HeaderMap;
use vstd::prelude::*;

verus! {

/// The address that `str::parse::<IpAddr>` reads from `text`, given by its
/// octets (four for IPv4, sixteen for IPv6); `None` where the text is no address.
pub uninterp spec fn parsed_ip_octets(text: Seq<char>) -> Option<Seq<u8>>;

/// `<IpAddr as FromStr>::from_str`, the address given by its octets.
#[verifier::external_body]
fn parse_ip_octets(text: &str) -> (r: Option<Vec<u8>>)
    ensures
        match r {
            Some(o) => parsed_ip_octets(text@) == Some(o@) && (o@.len() == 4 || o@.len() == 16),
            None => parsed_ip_octets(text@) is None,
        },
{
    match text.parse::<core::net::IpAddr>() {
        Ok(core::net::IpAddr::V4(a)) => Some(a.octets().to_vec()),
        Ok(core::net::IpAddr::V6(a)) => Some(a.octets().to_vec()),
        Err(_) => None,
    }
}

/// An IPv4 address (four octets) that is loopback (127/8), private (10/8,
/// 172.16/12, 192.168/16), link-local (169.254/16), unspecified (0.0.0.0) or
/// broadcast (255.255.255.255).
pub open spec fn is_private_v4_octets(o: Seq<u8>) -> bool {
    ||| o[0] == 127
    ||| o[0] == 10
    ||| (o[0] == 172 && 16 <= o[1] <= 31)
    ||| (o[0] == 192 && o[1] == 168)
    ||| (o[0] == 169 && o[1] == 254)
    ||| (o[0] == 0 && o[1] == 0 && o[2] == 0 && o[3] == 0)
    ||| (o[0] == 255 && o[1] == 255 && o[2] == 255 && o[3] == 255)
}

/// An IPv6 address (sixteen octets) that is the loopback `::1` or unique local
/// (fc00::/7).
pub open spec fn is_private_v6_octets(o: Seq<u8>) -> bool {
    &&& o.len() == 16
    &&& {
        ||| (forall|i: int| 0 <= i < 15 ==> #[trigger] o[i] == 0) && o[15] == 1
        ||| o[0] == 0xfc
        ||| o[0] == 0xfd
    }
}

/// The private-or-loopback test on an address given by its octets.
pub open spec fn is_private_or_loopback_octets(o: Seq<u8>) -> bool {
    if o.len() == 4 {
        is_private_v4_octets(o)
    } else {
        is_private_v6_octets(o)
    }
}

/// Text that is no address counts as private.
pub open spec fn spec_is_private_or_loopback(ip: Seq<char>) -> bool {
    match parsed_ip_octets(ip) {
        Some(o) => is_private_or_loopback_octets(o),
        None => true,
    }
}

pub open spec fn spec_is_valid_ip(ip: Seq<char>) -> bool {
    parsed_ip_octets(ip) is Some
}

/// The trimmed address, with the IPv6 loopback written as `127.0.0.1` and an
/// IPv4-mapped prefix `::ffff:` removed.
pub open spec fn spec_normalize_ip(ip: Seq<char>) -> Seq<char> {
    let t = trim(ip);
    if t == "0:0:0:0:0:0:0:1"@ || t == "::1"@ {
        "127.0.0.1"@
    } else if has_prefix(t, "::ffff:"@) {
        t.skip(7)
    } else {
        t
    }
}

/// A candidate that a header may name as the client: a valid, public address.
pub open spec fn is_public_ip(ip: Seq<char>) -> bool {
    spec_is_valid_ip(ip) && !spec_is_private_or_loopback(ip)
}

/// Of the comma-separated `parts`, each trimmed, empty ones skipped and the
/// rest normalised: the first that is a public address.
pub open spec fn first_public_part(parts: Seq<Seq<char>>) -> Option<Seq<char>>
    decreases parts.len(),
{
    if parts.len() == 0 {
        None
    } else {
        let t = trim(parts[0]);
        if t.len() > 0 && is_public_ip(spec_normalize_ip(t)) {
            Some(spec_normalize_ip(t))
        } else {
            first_public_part(parts.drop_first())
        }
    }
}

/// The client address that a proxy header value names: none where the value
/// is `unknown` (in any case), else the first public address in its list.
pub open spec fn spec_extract_from_header(value: Seq<char>) -> Option<Seq<char>> {
    if eq_ignore_ascii_case(trim(value), "unknown"@) {
        None
    } else {
        first_public_part(split_on(value, ','))
    }
}

/// The proxy headers consulted, in order.
pub open spec fn proxy_header_names() -> Seq<Seq<char>> {
    seq![
        "x-forwarded-for"@,
        "x-real-ip"@,
        "cf-connecting-ip"@,
        "true-client-ip"@,
        "x-client-ip"@,
    ]
}

/// The first client address that one of `names`, in order, yields.
pub open spec fn ip_from_headers(entries: Seq<(Seq<char>, Seq<u8>)>, names: Seq<Seq<char>>) -> Option<
    Seq<char>,
>
    decreases names.len(),
{
    if names.len() == 0 {
        None
    } else {
        match header_text_of(entries, names[0]) {
            Some(v) => match spec_extract_from_header(v) {
                Some(ip) => Some(ip),
                None => ip_from_headers(entries, names.drop_first()),
            },
            None => ip_from_headers(entries, names.drop_first()),
        }
    }
}

/// The client address: from the proxy headers where they are trusted and one
/// of them names a public address; else the connection's address, normalised;
/// else `127.0.0.1`.
pub open spec fn spec_resolve_client_ip(
    entries: Seq<(Seq<char>, Seq<u8>)>,
    connect_ip: Option<Seq<char>>,
    trust_proxy_headers: bool,
) -> Seq<char> {
    let from_headers = if trust_proxy_headers {
        ip_from_headers(entries, proxy_header_names())
    } else {
        None
    };
    match from_headers {
        Some(ip) => ip,
        None => match connect_ip {
            Some(a) => spec_normalize_ip(a),
            None => "127.0.0.1"@,
        },
    }
}

fn proxy_header_name(i: usize) -> (r: &'static str)
    requires
        i < 5,
    ensures
        r@ == proxy_header_names()[i as int],
        is_lower_header_name(r@),
{
    proof {
        reveal_strlit("x-forwarded-for");
        reveal_strlit("x-real-ip");
        reveal_strlit("cf-connecting-ip");
        reveal_strlit("true-client-ip");
        reveal_strlit("x-client-ip");
    }
    if i == 0 {
        "x-forwarded-for"
    } else if i == 1 {
        "x-real-ip"
    } else if i == 2 {
        "cf-connecting-ip"
    } else if i == 3 {
        "true-client-ip"
    } else {
        "x-client-ip"
    }
}

/// The client address behind a request. `connect_ip` is the text of the
/// connection's peer address, where known.
pub fn resolve_client_ip(
    headers: &HeaderMap,
    connect_ip: Option<String>,
    trust_proxy_headers: bool,
) -> (r: String)
    ensures
        r@ == spec_resolve_client_ip(
            header_entries(*headers),
            match connect_ip {
                Some(a) => Some(a@),
                None => None,
            },
            trust_proxy_headers,
        ),
{
    let ghost entries = header_entries(*headers);
    if trust_proxy_headers {
        let mut i: usize = 0;
        assert(proxy_header_names().skip(0) =~= proxy_header_names());
        while i < 5
            invariant
                0 <= i <= 5,
                entries == header_entries(*headers),
                trust_proxy_headers,
                ip_from_headers(entries, proxy_header_names()) == ip_from_headers(
                    entries,
                    proxy_header_names().skip(i as int),
                ),
            decreases 5 - i,
        {
            let ghost rest = proxy_header_names().skip(i as int);
            assert(rest.drop_first() =~= proxy_header_names().skip(i + 1));
            let name = proxy_header_name(i);
            assert(rest[0] == proxy_header_names()[i as int]);
            if let Some(value) = header_text(headers, name) {
                if let Some(ip) = extract_from_header(value) {
                    assert(ip_from_headers(entries, rest) == Some(ip@));
                    return ip;
                }
            }
            i = i + 1;
        }
        assert(proxy_header_names().skip(5) =~= Seq::<Seq<char>>::empty());
    }
    match connect_ip {
        Some(a) => normalize_ip(a.as_str()),
        None => {
            let r = "127.0.0.1".to_owned();
            r
        },
    }
}

/// Whether `ip` is a private, loopback or otherwise local address; text that is
/// no address counts as private.
pub fn is_private_or_loopback(ip: &str) -> (r: bool)
    ensures
        r == spec_is_private_or_loopback(ip@),
{
    match parse_ip_octets(ip) {
        Some(o) => is_private_or_loopback_parsed(&o),
        None => true,
    }
}

/// The private-or-loopback test on an address given by its octets: four for
/// IPv4, any other number read as IPv6.
pub fn is_private_or_loopback_parsed(octets: &Vec<u8>) -> (r: bool)
    ensures
        r == is_private_or_loopback_octets(octets@),
{
    if octets.len() == 4 {
        is_private_v4(octets)
    } else {
        is_private_v6(octets)
    }
}

/// Whether `ip` parses as an IPv4 or IPv6 address.
pub fn is_valid_ip(ip: &str) -> (r: bool)
    ensures
        r == spec_is_valid_ip(ip@),
{
    parse_ip_octets(ip).is_some()
}

fn is_private_v4(o: &Vec<u8>) -> (r: bool)
    requires
        o@.len() == 4,
    ensures
        r == is_private_v4_octets(o@),
{
    o[0] == 127 || o[0] == 10 || (o[0] == 172 && 16 <= o[1] && o[1] <= 31) || (o[0] == 192 && o[1]
        == 168) || (o[0] == 169 && o[1] == 254) || (o[0] == 0 && o[1] == 0 && o[2] == 0 && o[3]
        == 0) || (o[0] == 255 && o[1] == 255 && o[2] == 255 && o[3] == 255)
}

fn is_private_v6(o: &Vec<u8>) -> (r: bool)
    ensures
        r == is_private_v6_octets(o@),
{
    if o.len() != 16 {
        return false;
    }
    if o[0] == 0xfc || o[0] == 0xfd {
        return true;
    }
    let mut i: usize = 0;
    while i < 15
        invariant
            0 <= i <= 15,
            o@.len() == 16,
            o@[0] != 0xfc && o@[0] != 0xfd,
            forall|k: int| 0 <= k < i ==> o@[k] == 0,
        decreases 15 - i,
    {
        if o[i] != 0 {
            return false;
        }
        i = i + 1;
    }
    o[15] == 1
}

/// The first public address that a proxy header value lists, normalised;
/// `None` where the value is `unknown` or lists none.
pub fn extract_from_header(header_value: &str) -> (r: Option<String>)
    ensures
        match r {
            Some(ip) => spec_extract_from_header(header_value@) == Some(ip@),
            None => spec_extract_from_header(header_value@) is None,
        },
{
    let trimmed = trim_str(header_value);
    let unknown = "unknown";
    if str_eq_ignore_ascii_case(trimmed, unknown) {
        return None;
    }
    let parts = split_str(header_value, ',');
    let ghost all = split_on(header_value@, ',');
    let mut i: usize = 0;
    assert(all.skip(0) =~= all);
    while i < parts.len()
        invariant
            0 <= i <= parts.len(),
            parts@.len() == all.len(),
            all == split_on(header_value@, ','),
            !eq_ignore_ascii_case(trim(header_value@), "unknown"@),
            forall|k: int| 0 <= k < all.len() ==> (#[trigger] parts@[k])@ == all[k],
            first_public_part(all) == first_public_part(all.skip(i as int)),
        decreases parts.len() - i,
    {
        let ghost rest = all.skip(i as int);
        assert(rest.drop_first() =~= all.skip(i + 1));
        assert(rest[0] == all[i as int]);
        let part = trim_str(parts[i]);
        if !part.is_empty() {
            let candidate = normalize_ip(part);
            if is_valid_ip(candidate.as_str()) && !is_private_or_loopback(candidate.as_str()) {
                assert(part@ == trim(rest[0]));
                assert(first_public_part(rest) == Some(candidate@));
                return Some(candidate);
            }
        }
        i = i + 1;
    }
    assert(all.skip(i as int) =~= Seq::<Seq<char>>::empty());
    None
}

/// The address trimmed, `127.0.0.1` for the IPv6 loopback, and an
/// IPv4-mapped `::ffff:` prefix removed.
pub fn normalize_ip(ip: &str) -> (r: String)
    ensures
        r@ == spec_normalize_ip(ip@),
{
    let normalized = trim_str(ip);
    if str_eq(normalized, "0:0:0:0:0:0:0:1") || str_eq(normalized, "::1") {
        return "127.0.0.1".to_owned();
    }
    proof {
        reveal_strlit("::ffff:");
    }
    if let Some(mapped) = strip_prefix(normalized, "::ffff:") {
        return mapped.to_owned();
    }
    normalized.to_owned()
}

} // verus!

verus! {

/// Text that does not parse as an address counts as private or loopback.
pub proof fn lemma_unparsable_is_private(ip: Seq<char>)
    requires
        !spec_is_valid_ip(ip),
    ensures
        spec_is_private_or_loopback(ip),
{
}

proof fn lemma_first_public_part_is_public(parts: Seq<Seq<char>>)
    ensures
        first_public_part(parts) matches Some(ip) ==> is_public_ip(ip),
    decreases parts.len(),
{
    if parts.len() > 0 {
        lemma_first_public_part_is_public(parts.drop_first());
    }
}

/// Whatever address a proxy header yields is valid and public.
pub proof fn lemma_header_address_is_public(value: Seq<char>)
    ensures
        spec_extract_from_header(value) matches Some(ip) ==> is_public_ip(ip),
{
    lemma_first_public_part_is_public(split_on(value, ','));
}

proof fn lemma_ip_from_headers_is_public(
    entries: Seq<(Seq<char>, Seq<u8>)>,
    names: Seq<Seq<char>>,
)
    ensures
        ip_from_headers(entries, names) matches Some(ip) ==> is_public_ip(ip),
    decreases names.len(),
{
    if names.len() > 0 {
        lemma_ip_from_headers_is_public(entries, names.drop_first());
        if let Some(v) = header_text_of(entries, names[0]) {
            lemma_header_address_is_public(v);
        }
    }
}

/// The resolved client address is a valid public address taken from a trusted
/// proxy header, or the connection's address normalised, or `127.0.0.1` where
/// the connection's address is unknown.
pub proof fn lemma_resolved_address_origin(
    entries: Seq<(Seq<char>, Seq<u8>)>,
    connect_ip: Option<Seq<char>>,
    trust_proxy_headers: bool,
)
    ensures
        ({
            let r = spec_resolve_client_ip(entries, connect_ip, trust_proxy_headers);
            ||| (trust_proxy_headers && is_public_ip(r))
            ||| (connect_ip matches Some(a) && r == spec_normalize_ip(a))
            ||| (connect_ip is None && r == "127.0.0.1"@)
        }),
{
    lemma_ip_from_headers_is_public(entries, proxy_header_names());
}

/// Where proxy headers are not trusted, they do not affect the resolved address.
pub proof fn lemma_untrusted_headers_ignored(
    entries1: Seq<(Seq<char>, Seq<u8>)>,
    entries2: Seq<(Seq<char>, Seq<u8>)>,
    connect_ip: Option<Seq<char>>,
)
    ensures
        spec_resolve_client_ip(entries1, connect_ip, false) == spec_resolve_client_ip(
            entries2,
            connect_ip,
            false,
        ),
{
}

/// Both textual forms of the IPv6 loopback normalise to `127.0.0.1`, whatever
/// white space surrounds them.
pub proof fn lemma_ipv6_loopback_normalised(ip: Seq<char>)
    requires
        trim(ip) == "::1"@ || trim(ip) == "0:0:0:0:0:0:0:1"@,
    ensures
        spec_normalize_ip(ip) == "127.0.0.1"@,
{
}

} // verus!

verus! {

/// A part of a header value is a candidate for the client where, trimmed, it is
/// not empty and its normalised form is a valid address that is not private.
pub open spec fn part_names_public_client(part: Seq<char>) -> bool {
    let t = trim(part);
    t.len() > 0 && spec_is_valid_ip(spec_normalize_ip(t)) && !spec_is_private_or_loopback(
        spec_normalize_ip(t),
    )
}

proof fn lemma_first_public_part_at(parts: Seq<Seq<char>>, j: int)
    requires
        0 <= j < parts.len(),
        part_names_public_client(parts[j]),
        forall|i: int| 0 <= i < j ==> !part_names_public_client(#[trigger] parts[i]),
    ensures
        first_public_part(parts) == Some(spec_normalize_ip(trim(parts[j]))),
    decreases j,
{
    if j > 0 {
        assert(!part_names_public_client(parts[0]));
        let rest = parts.drop_first();
        assert forall|i: int| 0 <= i < j - 1 implies !part_names_public_client(#[trigger] rest[i]) by {
            assert(rest[i] == parts[i + 1]);
        }
        assert(rest[j - 1] == parts[j]);
        lemma_first_public_part_at(rest, j - 1);
    }
}

proof fn lemma_first_public_part_none(parts: Seq<Seq<char>>)
    requires
        forall|i: int| 0 <= i < parts.len() ==> !part_names_public_client(#[trigger] parts[i]),
    ensures
        first_public_part(parts) is None,
    decreases parts.len(),
{
    if parts.len() > 0 {
        assert(!part_names_public_client(parts[0]));
        let rest = parts.drop_first();
        assert forall|i: int| 0 <= i < rest.len() implies !part_names_public_client(#[trigger] rest[i]) by {
            assert(rest[i] == parts[i + 1]);
        }
        lemma_first_public_part_none(rest);
    }
}

/// A proxy header names the client first and the proxies after it: of the
/// comma-separated parts of a value other than `unknown`, the address yielded
/// is the first, in list order, that is a valid public address (trimmed and
/// normalised); later public addresses never displace it.
pub proof fn lemma_header_yields_first_public(value: Seq<char>, j: int)
    requires
        !eq_ignore_ascii_case(trim(value), "unknown"@),
        0 <= j < split_on(value, ',').len(),
        part_names_public_client(split_on(value, ',')[j]),
        forall|i: int| 0 <= i < j ==> !part_names_public_client(#[trigger] split_on(value, ',')[i]),
    ensures
        spec_extract_from_header(value) == Some(spec_normalize_ip(trim(split_on(value, ',')[j]))),
{
    lemma_first_public_part_at(split_on(value, ','), j);
}

/// Where no part of a header value is a valid public address, the header names
/// no client.
pub proof fn lemma_header_without_public_yields_none(value: Seq<char>)
    requires
        forall|i: int|
            0 <= i < split_on(value, ',').len() ==> !part_names_public_client(
                #[trigger] split_on(value, ',')[i],
            ),
    ensures
        spec_extract_from_header(value) is None,
{
    lemma_first_public_part_none(split_on(value, ','));
}

/// The 32-bit number an IPv4 address's four octets write.
pub open spec fn ipv4_number(o: Seq<u8>) -> int {
    o[0] * 0x1000000 + o[1] * 0x10000 + o[2] * 0x100 + o[3]
}

/// An IPv4 address counts as private or loopback exactly where it lies in
/// 127.0.0.0/8 (loopback), 10.0.0.0/8, 172.16.0.0/12 or 192.168.0.0/16
/// (private), 169.254.0.0/16 (link-local), or is 0.0.0.0 (unspecified) or
/// 255.255.255.255 (broadcast); each range given by its numeric bounds.
pub proof fn lemma_ipv4_private_ranges(o: Seq<u8>)
    requires
        o.len() == 4,
    ensures
        is_private_or_loopback_octets(o) <==> {
            let a = ipv4_number(o);
            ||| 0x7f000000 <= a < 0x80000000
            ||| 0x0a000000 <= a < 0x0b000000
            ||| 0xac100000 <= a < 0xac200000
            ||| 0xc0a80000 <= a < 0xc0a90000
            ||| 0xa9fe0000 <= a < 0xa9ff0000
            ||| a == 0
            ||| a == 0xffffffff
        },
{
    let (b0, b1, b2, b3) = (o[0] as int, o[1] as int, o[2] as int, o[3] as int);
    assert(0 <= b0 < 256 && 0 <= b1 < 256 && 0 <= b2 < 256 && 0 <= b3 < 256);
}

/// An IPv6 address counts as private or loopback exactly where it is `::1` or
/// lies in fc00::/7, whose first octet is 0xfc or 0xfd.
pub proof fn lemma_ipv6_private_ranges(o: Seq<u8>)
    requires
        o.len() == 16,
    ensures
        is_private_or_loopback_octets(o) <==> (o =~= seq![0u8, 0, 0, 0, 0, 0, 0, 0, 0, 0, 0, 0, 0, 0, 0, 1]
            || 0xfc <= o[0] <= 0xfd),
{
    if (forall|i: int| 0 <= i < 15 ==> #[trigger] o[i] == 0) && o[15] == 1 {
        assert(o =~= seq![0u8, 0, 0, 0, 0, 0, 0, 0, 0, 0, 0, 0, 0, 0, 0, 1]);
    }
    if o =~= seq![0u8, 0, 0, 0, 0, 0, 0, 0, 0, 0, 0, 0, 0, 0, 0, 1] {
        assert(forall|i: int| 0 <= i < 15 ==> #[trigger] o[i] == 0);
    }
}

} // verus!

verus! {

/// With trusted proxy headers, a client named by `X-Forwarded-For` is the
/// resolved address, whatever the other headers and the connection say.
pub proof fn lemma_forwarded_for_wins(
    entries: Seq<(Seq<char>, Seq<u8>)>,
    connect_ip: Option<Seq<char>>,
    value: Seq<char>,
    ip: Seq<char>,
)
    requires
        header_text_of(entries, "x-forwarded-for"@) == Some(value),
        spec_extract_from_header(value) == Some(ip),
    ensures
        spec_resolve_client_ip(entries, connect_ip, true) == ip,
{
    assert(proxy_header_names()[0] == "x-forwarded-for"@);
}

proof fn lemma_no_header_names_client(entries: Seq<(Seq<char>, Seq<u8>)>, names: Seq<Seq<char>>)
    requires
        forall|i: int|
            0 <= i < names.len() ==> match header_text_of(entries, #[trigger] names[i]) {
                Some(v) => spec_extract_from_header(v) is None,
                None => true,
            },
    ensures
        ip_from_headers(entries, names) is None,
    decreases names.len(),
{
    if names.len() > 0 {
        let rest = names.drop_first();
        assert forall|i: int| 0 <= i < rest.len() implies match header_text_of(entries, #[trigger] rest[i]) {
            Some(v) => spec_extract_from_header(v) is None,
            None => true,
        } by {
            assert(rest[i] == names[i + 1]);
        }
        assert(match header_text_of(entries, names[0]) {
            Some(v) => spec_extract_from_header(v) is None,
            None => true,
        });
        lemma_no_header_names_client(entries, rest);
    }
}

/// Where no proxy header names a public client, the resolved address is the
/// connection's address normalised, or `127.0.0.1` where it is unknown; and
/// the same holds whatever the headers where they are not trusted.
pub proof fn lemma_connection_address_fallback(
    entries: Seq<(Seq<char>, Seq<u8>)>,
    connect_ip: Option<Seq<char>>,
    trust_proxy_headers: bool,
)
    requires
        trust_proxy_headers ==> forall|i: int|
            0 <= i < proxy_header_names().len() ==> match header_text_of(
                entries,
                #[trigger] proxy_header_names()[i],
            ) {
                Some(v) => spec_extract_from_header(v) is None,
                None => true,
            },
    ensures
        spec_resolve_client_ip(entries, connect_ip, trust_proxy_headers) == match connect_ip {
            Some(a) => spec_normalize_ip(a),
            None => "127.0.0.1"@,
        },
{
    if trust_proxy_headers {
        lemma_no_header_names_client(entries, proxy_header_names());
    }
}

/// An address written with the IPv4-mapped prefix `::ffff:` normalises to the
/// address after the prefix.
pub proof fn lemma_mapped_prefix_removed(x: Seq<char>)
    requires
        x.len() > 0,
        !crate::text::is_white_space(x.last()),
    ensures
        spec_normalize_ip("::ffff:"@ + x) == x,
{
    reveal_strlit("::ffff:");
    reveal_strlit("::1");
    reveal_strlit("0:0:0:0:0:0:0:1");
    let s = "::ffff:"@ + x;
    assert(s[0] == ':');
    assert(crate::text::trim_start(s) == s);
    assert(s.last() == x.last());
    assert(crate::text::trim_end(s) == s);
    assert(s.len() >= 8);
    assert(s[1] == ':' && "0:0:0:0:0:0:0:1"@[0] == '0');
    assert(s.take(7) =~= "::ffff:"@);
    assert(s.skip(7) =~= x);
}

} // verus!
