//! Request metadata supplied by Cloudflare's edge for an inbound request.

use vstd::prelude::*;

use crate::error::Error;
use crate::text::{all_digits, decimal, is_digit, lemma_decimal_digits, lemma_parse_decimal, parsed_usize};
use crate::text::{parse_usize, str_eq};

verus! {

/// Browser-requested prioritization information.
#[derive(Debug, Clone, Copy, PartialEq, Eq, Structural)]
pub struct RequestPriority {
    /// The browser-requested weight for the HTTP/2 prioritization
    pub weight: usize,
    /// The browser-requested HTTP/2 exclusive flag (true for Chromium-based browsers, false for others).
    pub exclusive: bool,
    /// HTTP/2 stream ID for the request group (only non-zero for Firefox)
    pub group: usize,
    /// HTTP/2 weight for the request group (only non-zero for Firefox)
    pub group_weight: usize,
}

/// The index of the first `c` in `s`, or the length of `s` when there is none.
pub open spec fn find(s: Seq<char>, c: char) -> int
    decreases s.len(),
{
    if s.len() == 0 {
        0
    } else if s[0] == c {
        0
    } else {
        1 + find(s.drop_first(), c)
    }
}

/// The pieces of `s` between occurrences of `c`, as `str::split` gives them.
pub open spec fn split(s: Seq<char>, c: char) -> Seq<Seq<char>>
    decreases s.len(),
{
    let k = find(s, c);
    if 0 <= k < s.len() {
        seq![s.take(k)] + split(s.skip(k + 1), c)
    } else {
        seq![s]
    }
}

/// The key of a `key=value` piece: the text before the first `=`.
pub open spec fn piece_key(piece: Seq<char>) -> Seq<char> {
    piece.take(find(piece, '='))
}

/// The value of a `key=value` piece: the text after the first `=`, up to the next `=`.
pub open spec fn piece_value(piece: Seq<char>) -> Seq<char> {
    let rest = piece.skip(find(piece, '=') + 1);
    rest.take(find(rest, '='))
}

/// Whether a piece names one of the known keys, with a number for numeric keys.
pub open spec fn piece_ok(piece: Seq<char>) -> bool {
    let key = piece_key(piece);
    let value = piece_value(piece);
    &&& find(piece, '=') < piece.len()
    &&& (key == "weight"@ || key == "exclusive"@ || key == "group"@ || key == "group-weight"@)
    &&& (key == "weight"@ || key == "group"@ || key == "group-weight"@) ==> parsed_usize(value) is Some
}

/// Whether a priority string is a `;`-separated list of known `key=value` pieces,
/// the form the edge supplies.
pub open spec fn priority_ok(s: Seq<char>) -> bool {
    forall|i: int| 0 <= i < split(s, ';').len() ==> piece_ok(#[trigger] split(s, ';')[i])
}

/// The priority after one piece is read.
pub open spec fn apply_piece(p: RequestPriority, piece: Seq<char>) -> RequestPriority {
    let key = piece_key(piece);
    let value = piece_value(piece);
    if key == "weight"@ {
        RequestPriority { weight: parsed_usize(value)->0, ..p }
    } else if key == "exclusive"@ {
        RequestPriority { exclusive: value == "1"@, ..p }
    } else if key == "group"@ {
        RequestPriority { group: parsed_usize(value)->0, ..p }
    } else {
        RequestPriority { group_weight: parsed_usize(value)->0, ..p }
    }
}

/// The priority after the pieces are read in order.
pub open spec fn apply_pieces(p: RequestPriority, pieces: Seq<Seq<char>>) -> RequestPriority
    decreases pieces.len(),
{
    if pieces.len() == 0 {
        p
    } else {
        apply_pieces(apply_piece(p, pieces[0]), pieces.drop_first())
    }
}

/// The priority a browser gets when it asks for none of the settings.
pub open spec fn default_priority() -> RequestPriority {
    RequestPriority { weight: 1, exclusive: false, group: 0, group_weight: 0 }
}

/// The priority a priority string denotes.
pub open spec fn parsed_priority(s: Seq<char>) -> RequestPriority {
    apply_pieces(default_priority(), split(s, ';'))
}

/// The canonical priority string for `p`, e.g. `weight=192;exclusive=0;group=3;group-weight=127`.
pub open spec fn render_priority(p: RequestPriority) -> Seq<char> {
    "weight="@ + decimal(p.weight as nat) + ";exclusive="@ + (if p.exclusive {
        "1"@
    } else {
        "0"@
    }) + ";group="@ + decimal(p.group as nat) + ";group-weight="@ + decimal(
        p.group_weight as nat,
    )
}

pub open spec fn lacks(s: Seq<char>, c: char) -> bool {
    forall|i: int| 0 <= i < s.len() ==> s[i] != c
}

proof fn lemma_find_concat(a: Seq<char>, b: Seq<char>, c: char)
    requires
        lacks(a, c),
    ensures
        find(a + b, c) == a.len() + find(b, c),
    decreases a.len(),
{
    if a.len() > 0 {
        assert((a + b).drop_first() =~= a.drop_first() + b);
        assert((a + b)[0] == a[0]);
        lemma_find_concat(a.drop_first(), b, c);
    } else {
        assert(a + b =~= b);
    }
}

proof fn lemma_find_absent(a: Seq<char>, c: char)
    requires
        lacks(a, c),
    ensures
        find(a, c) == a.len(),
{
    lemma_find_concat(a, Seq::empty(), c);
    assert(a + Seq::<char>::empty() =~= a);
}

proof fn lemma_split_cons(x: Seq<char>, y: Seq<char>, c: char)
    requires
        lacks(x, c),
    ensures
        split(x + seq![c] + y, c) == seq![x] + split(y, c),
{
    let s = x + seq![c] + y;
    lemma_find_concat(x, seq![c] + y, c);
    assert(s =~= x + (seq![c] + y));
    assert(find(seq![c] + y, c) == 0);
    assert(s.take(x.len() as int) =~= x);
    assert(s.skip(x.len() as int + 1) =~= y);
}

/// A text without `c` splits at `c` into itself alone.
pub proof fn lemma_split_last(x: Seq<char>, c: char)
    requires
        lacks(x, c),
    ensures
        split(x, c) == seq![x],
{
    lemma_find_absent(x, c);
}

/// A `key=value` piece whose key and value hold no `=` reads as that key and value.
proof fn lemma_piece_parts(key: Seq<char>, value: Seq<char>)
    requires
        lacks(key, '='),
        lacks(value, '='),
    ensures
        piece_key(key + seq!['='] + value) == key,
        piece_value(key + seq!['='] + value) == value,
        find(key + seq!['='] + value, '=') < (key + seq!['='] + value).len(),
{
    let piece = key + seq!['='] + value;
    lemma_find_concat(key, seq!['='] + value, '=');
    assert(piece =~= key + (seq!['='] + value));
    assert(find(seq!['='] + value, '=') == 0);
    assert(piece.take(key.len() as int) =~= key);
    assert(piece.skip(key.len() as int + 1) =~= value);
    lemma_find_absent(value, '=');
    assert(value.take(value.len() as int) =~= value);
}

proof fn lemma_digits_lack(s: Seq<char>, c: char)
    requires
        all_digits(s),
        !is_digit(c),
    ensures
        lacks(s, c),
{
    assert forall|i: int| 0 <= i < s.len() implies s[i] != c by {
        assert(is_digit(s[i]));
    }
}

/// `find` gives an index holding `c` preceded by none, or the length when `c`
/// does not occur.
proof fn lemma_find_spec(s: Seq<char>, c: char)
    ensures
        0 <= find(s, c) <= s.len(),
        forall|j: int| 0 <= j < find(s, c) ==> s[j] != c,
        find(s, c) < s.len() ==> s[find(s, c)] == c,
    decreases s.len(),
{
    if s.len() > 0 && s[0] != c {
        lemma_find_spec(s.drop_first(), c);
        assert forall|j: int| 0 <= j < find(s, c) implies s[j] != c by {
            if j > 0 {
                assert(s[j] == s.drop_first()[j - 1]);
            }
        }
    }
}

/// Splitting a text that ends in `c` followed by a piece without `c` gives the
/// pieces of the text before, then that last piece.
pub proof fn lemma_split_snoc(x: Seq<char>, y: Seq<char>, c: char)
    requires
        lacks(y, c),
    ensures
        split(x + seq![c] + y, c) == split(x, c).push(y),
    decreases x.len(),
{
    let s = x + seq![c] + y;
    lemma_find_spec(x, c);
    let k = find(x, c);
    if k < x.len() {
        assert forall|j: int| 0 <= j < k implies s[j] != c by {
            assert(s[j] == x[j]);
        }
        assert(s[k] == c);
        lemma_find_at(s, c, k);
        let rest = x.skip(k + 1);
        assert(s.skip(k + 1) =~= rest + seq![c] + y);
        assert(s.take(k) =~= x.take(k));
        lemma_split_snoc(rest, y, c);
        assert(split(s, c) =~= seq![x.take(k)] + split(rest, c).push(y));
        assert(split(x, c) =~= seq![x.take(k)] + split(rest, c));
        assert(split(s, c) =~= split(x, c).push(y));
    } else {
        assert(lacks(x, c));
        assert forall|j: int| 0 <= j < x.len() implies s[j] != c by {
            assert(s[j] == x[j]);
        }
        assert(s[x.len() as int] == c);
        lemma_find_at(s, c, x.len() as int);
        assert(s.take(x.len() as int) =~= x);
        assert(s.skip(x.len() as int + 1) =~= y);
        lemma_split_last(y, c);
        lemma_split_last(x, c);
        assert(split(s, c) =~= seq![x] + seq![y]);
        assert(split(x, c).push(y) =~= seq![x, y]);
    }
}

/// Reading the canonical priority string of any priority gives that priority back.
pub proof fn lemma_priority_round_trip(p: RequestPriority)
    ensures
        priority_ok(render_priority(p)),
        parsed_priority(render_priority(p)) == p,
{
    reveal_strlit("weight=");
    reveal_strlit(";exclusive=");
    reveal_strlit(";group=");
    reveal_strlit(";group-weight=");
    reveal_strlit("weight");
    reveal_strlit("exclusive");
    reveal_strlit("group");
    reveal_strlit("group-weight");
    reveal_strlit("1");
    reveal_strlit("0");
    let w = decimal(p.weight as nat);
    let e = if p.exclusive { "1"@ } else { "0"@ };
    let g = decimal(p.group as nat);
    let gw = decimal(p.group_weight as nat);
    lemma_decimal_digits(p.weight as nat);
    lemma_decimal_digits(p.group as nat);
    lemma_decimal_digits(p.group_weight as nat);
    lemma_parse_decimal(p.weight);
    lemma_parse_decimal(p.group);
    lemma_parse_decimal(p.group_weight);
    lemma_digits_lack(w, ';');
    lemma_digits_lack(w, '=');
    lemma_digits_lack(g, ';');
    lemma_digits_lack(g, '=');
    lemma_digits_lack(gw, ';');
    lemma_digits_lack(gw, '=');
    let k1 = "weight"@;
    let k2 = "exclusive"@;
    let k3 = "group"@;
    let k4 = "group-weight"@;
    let p1 = k1 + seq!['='] + w;
    let p2 = k2 + seq!['='] + e;
    let p3 = k3 + seq!['='] + g;
    let p4 = k4 + seq!['='] + gw;
    let s = render_priority(p);
    assert(s =~= p1 + seq![';'] + (p2 + seq![';'] + (p3 + seq![';'] + p4)));
    assert(lacks(p1, ';'));
    assert(lacks(p2, ';'));
    assert(lacks(p3, ';'));
    assert(lacks(p4, ';'));
    lemma_split_cons(p1, p2 + seq![';'] + (p3 + seq![';'] + p4), ';');
    lemma_split_cons(p2, p3 + seq![';'] + p4, ';');
    lemma_split_cons(p3, p4, ';');
    lemma_split_last(p4, ';');
    let parts = split(s, ';');
    assert(parts =~= seq![p1, p2, p3, p4]);
    lemma_piece_parts(k1, w);
    lemma_piece_parts(k2, e);
    lemma_piece_parts(k3, g);
    lemma_piece_parts(k4, gw);
    assert(k1 != k2 && k1 != k3 && k1 != k4 && k2 != k3 && k2 != k4 && k3 != k4);
    assert(piece_ok(p1) && piece_ok(p2) && piece_ok(p3) && piece_ok(p4));
    assert forall|i: int| 0 <= i < parts.len() implies piece_ok(#[trigger] parts[i]) by {}
    let d = default_priority();
    let a1 = apply_piece(d, p1);
    let a2 = apply_piece(a1, p2);
    let a3 = apply_piece(a2, p3);
    let a4 = apply_piece(a3, p4);
    assert(e == "1"@ <==> p.exclusive);
    assert(a4 == p);
    assert(parts.drop_first() =~= seq![p2, p3, p4]);
    assert(parts.drop_first().drop_first() =~= seq![p3, p4]);
    assert(parts.drop_first().drop_first().drop_first() =~= seq![p4]);
    assert(parts.drop_first().drop_first().drop_first().drop_first() =~= Seq::<Seq<char>>::empty());
    assert(apply_pieces(a4, Seq::<Seq<char>>::empty()) == a4);
    assert(apply_pieces(a3, seq![p4]) == a4);
    assert(apply_pieces(a2, seq![p3, p4]) == a4);
    assert(apply_pieces(a1, seq![p2, p3, p4]) == a4);
    assert(apply_pieces(d, parts) == a4);
}

/// The index of the first `c` in `s`, or the length of `s`.
fn find_char(s: &str, c: char) -> (k: usize)
    ensures
        k == find(s@, c),
        k <= s@.len(),
{
    let n = s.unicode_len();
    let mut i: usize = 0;
    while i < n
        invariant
            n == s@.len(),
            i <= n,
            forall|j: int| 0 <= j < i ==> s@[j] != c,
        decreases n - i,
    {
        if s.get_char(i) == c {
            proof {
                lemma_find_at(s@, c, i as int);
            }
            return i;
        }
        i = i + 1;
    }
    proof {
        lemma_find_at(s@, c, n as int);
    }
    n
}

/// `find` gives the first index holding `c`, or the length.
proof fn lemma_find_at(s: Seq<char>, c: char, i: int)
    requires
        0 <= i <= s.len(),
        forall|j: int| 0 <= j < i ==> s[j] != c,
        i < s.len() ==> s[i] == c,
    ensures
        find(s, c) == i,
    decreases s.len(),
{
    if s.len() > 0 && i > 0 {
        assert forall|j: int| 0 <= j < i - 1 implies s.drop_first()[j] != c by {
            assert(s.drop_first()[j] == s[j + 1]);
        }
        lemma_find_at(s.drop_first(), c, i - 1);
    }
}

proof fn lemma_find_bound(s: Seq<char>, c: char)
    ensures
        0 <= find(s, c) <= s.len(),
    decreases s.len(),
{
    if s.len() > 0 && s[0] != c {
        lemma_find_bound(s.drop_first(), c);
    }
}

/// Reads one `key=value` piece into the priority.
fn read_piece(piece: &str, p: RequestPriority) -> (r: RequestPriority)
    requires
        piece_ok(piece@),
    ensures
        r == apply_piece(p, piece@),
{
    let n = piece.unicode_len();
    let eq = find_char(piece, '=');
    let key = piece.substring_char(0, eq);
    let rest = piece.substring_char(eq + 1, n);
    assert(rest@ == piece@.skip(eq + 1));
    let end = find_char(rest, '=');
    let value = rest.substring_char(0, end);
    proof {
        assert(key@ == piece_key(piece@));
        assert(value@ == piece_value(piece@));
        reveal_strlit("weight");
        reveal_strlit("exclusive");
        reveal_strlit("group");
        reveal_strlit("group-weight");
        reveal_strlit("1");
    }
    if str_eq(key, "weight") {
        let w = parse_usize(value);
        RequestPriority { weight: w.unwrap(), ..p }
    } else if str_eq(key, "exclusive") {
        RequestPriority { exclusive: str_eq(value, "1"), ..p }
    } else if str_eq(key, "group") {
        let g = parse_usize(value);
        RequestPriority { group: g.unwrap(), ..p }
    } else {
        let gw = parse_usize(value);
        RequestPriority { group_weight: gw.unwrap(), ..p }
    }
}


/// Reads the `;`-separated pieces of `s` into the priority, in order.
fn read_pieces(s: &str, p: RequestPriority) -> (r: RequestPriority)
    requires
        priority_ok(s@),
    ensures
        r == apply_pieces(p, split(s@, ';')),
    decreases s@.len(),
{
    let n = s.unicode_len();
    let k = find_char(s, ';');
    let piece = s.substring_char(0, k);
    proof {
        assert(split(s@, ';')[0] == piece@);
    }
    let next = read_piece(piece, p);
    assert(apply_pieces(p, split(s@, ';')) == apply_pieces(next, split(s@, ';').drop_first()));
    if k >= n {
        proof {
            assert(split(s@, ';') =~= seq![s@]);
            assert(split(s@, ';').drop_first() =~= Seq::<Seq<char>>::empty());
            assert(apply_pieces(next, Seq::<Seq<char>>::empty()) == next);
        }
        next
    } else {
        let tail = s.substring_char(k + 1, n);
        proof {
            let parts = split(s@, ';');
            assert(parts.drop_first() =~= split(tail@, ';'));
            assert forall|i: int| 0 <= i < split(tail@, ';').len() implies piece_ok(
                #[trigger] split(tail@, ';')[i],
            ) by {
                assert(split(tail@, ';')[i] == parts[i + 1]);
            }
        }
        read_pieces(tail, next)
    }
}

/// Whether one `key=value` piece names a known key, with a number for the
/// numeric keys.
fn check_piece(piece: &str) -> (b: bool)
    ensures
        b == piece_ok(piece@),
{
    let n = piece.unicode_len();
    let eq = find_char(piece, '=');
    if eq >= n {
        return false;
    }
    let key = piece.substring_char(0, eq);
    let rest = piece.substring_char(eq + 1, n);
    assert(rest@ == piece@.skip(eq + 1));
    let end = find_char(rest, '=');
    let value = rest.substring_char(0, end);
    proof {
        assert(key@ == piece_key(piece@));
        assert(value@ == piece_value(piece@));
        reveal_strlit("weight");
        reveal_strlit("exclusive");
        reveal_strlit("group");
        reveal_strlit("group-weight");
    }
    if str_eq(key, "exclusive") {
        true
    } else if str_eq(key, "weight") || str_eq(key, "group") || str_eq(key, "group-weight") {
        parse_usize(value).is_some()
    } else {
        false
    }
}

/// Whether `s` is a priority string the edge supplies: `;`-separated
/// `key=value` pieces with known keys and numbers for the numeric ones.
pub fn is_valid_priority(s: &str) -> (b: bool)
    ensures
        b == priority_ok(s@),
    decreases s@.len(),
{
    let n = s.unicode_len();
    let k = find_char(s, ';');
    let piece = s.substring_char(0, k);
    let ghost parts = split(s@, ';');
    proof {
        assert(parts[0] == piece@);
    }
    if !check_piece(piece) {
        return false;
    }
    if k >= n {
        proof {
            assert(parts =~= seq![s@]);
        }
        true
    } else {
        let tail = s.substring_char(k + 1, n);
        proof {
            assert(parts.drop_first() =~= split(tail@, ';'));
        }
        let rest_ok = is_valid_priority(tail);
        proof {
            if rest_ok {
                assert forall|i: int| 0 <= i < parts.len() implies piece_ok(#[trigger] parts[i]) by {
                    if i > 0 {
                        assert(parts[i] == split(tail@, ';')[i - 1]);
                    }
                }
            } else {
                let j = choose|j: int|
                    0 <= j < split(tail@, ';').len() && !piece_ok(#[trigger] split(tail@, ';')[j]);
                assert(parts[j + 1] == split(tail@, ';')[j]);
            }
        }
        rest_ok
    }
}

/// Reads a priority string such as `weight=192;exclusive=0;group=3;group-weight=127`.
/// Settings it does not mention keep their defaults: weight 1, not exclusive,
/// group 0 and group weight 0.
pub fn parse_request_priority(s: &str) -> (r: RequestPriority)
    requires
        priority_ok(s@),
    ensures
        r == parsed_priority(s@),
{
    read_pieces(s, RequestPriority { weight: 1, exclusive: false, group: 0, group_weight: 0 })
}

/// The Cloudflare-specific properties of an inbound request, as the edge
/// supplies them (each as the text the runtime hands over).
#[derive(Debug, Clone)]
pub struct Cf {
    pub colo: String,
    pub asn: u32,
    pub as_organization: String,
    pub country: Option<String>,
    pub http_protocol: String,
    pub request_priority: Option<String>,
    pub tls_cipher: String,
    pub tls_client_auth: Option<TlsClientAuth>,
    pub tls_version: String,
    pub city: Option<String>,
    pub continent: Option<String>,
    pub latitude: Option<String>,
    pub longitude: Option<String>,
    pub postal_code: Option<String>,
    pub metro_code: Option<String>,
    pub region: Option<String>,
    pub region_code: Option<String>,
    pub timezone: String,
    pub is_eu_country: Option<String>,
}

/// Information about the client's authorization; only set when using
/// Cloudflare Access or API Shield.
#[derive(Debug, Clone)]
pub struct TlsClientAuth {
    pub cert_issuer_dn_legacy: String,
    pub cert_issuer_dn: String,
    pub cert_issuer_dn_rfc2253: String,
    pub cert_subject_dn_legacy: String,
    pub cert_verified: String,
    pub cert_not_after: String,
    pub cert_subject_dn: String,
    pub cert_fingerprint_sha1: String,
    pub cert_not_before: String,
    pub cert_serial: String,
    pub cert_presented: String,
    pub cert_subject_dn_rfc2253: String,
}

pub open spec fn opt_str_view(o: Option<String>) -> Option<Seq<char>> {
    match o {
        Some(s) => Some(s@),
        None => None,
    }
}

fn clone_opt(o: &Option<String>) -> (r: Option<String>)
    ensures
        opt_str_view(r) == opt_str_view(*o),
{
    match o {
        Some(s) => Some(s.clone()),
        None => None,
    }
}

/// Whether a timezone name is one the timezone database knows (the names
/// `chrono_tz::Tz::from_str` accepts).
pub uninterp spec fn tz_name_known(name: Seq<char>) -> bool;

/// Calls `<chrono_tz::Tz as FromStr>::from_str`, which looks the name up in the
/// timezone database; the lookup succeeds exactly for the names it holds.
#[verifier::external_body]
fn parse_tz(name: &str) -> (r: Option<chrono_tz::Tz>)
    ensures
        r is Some <==> tz_name_known(name@),
{
    name.parse::<chrono_tz::Tz>().ok()
}

impl Cf {
    /// The three-letter airport code (e.g. `ATX`, `LUX`) representing
    /// the colocation which processed the request
    pub fn colo(&self) -> (r: String)
        ensures
            r@ == self.colo@,
    {
        self.colo.clone()
    }

    /// The Autonomous System Number (ASN) of the request, e.g. `395747`
    pub fn asn(&self) -> (r: u32)
        ensures
            r == self.asn,
    {
        self.asn
    }

    /// The Autonomous System organization name of the request, e.g. `Cloudflare, Inc.`
    pub fn as_organization(&self) -> (r: String)
        ensures
            r@ == self.as_organization@,
    {
        self.as_organization.clone()
    }

    /// The two-letter country code of origin for the request, e.g. `"US"`
    pub fn country(&self) -> (r: Option<String>)
        ensures
            opt_str_view(r) == opt_str_view(self.country),
    {
        clone_opt(&self.country)
    }

    /// The HTTP Protocol (e.g. "HTTP/2") used by the request
    pub fn http_protocol(&self) -> (r: String)
        ensures
            r@ == self.http_protocol@,
    {
        self.http_protocol.clone()
    }

    /// The browser-requested prioritization information in the request object.
    pub fn request_priority(&self) -> (r: Option<RequestPriority>)
        requires
            self.request_priority matches Some(s) ==> priority_ok(s@),
        ensures
            match self.request_priority {
                Some(s) => r == Some(parsed_priority(s@)),
                None => r is None,
            },
    {
        match &self.request_priority {
            Some(priority) => Some(parse_request_priority(priority.as_str())),
            None => None,
        }
    }

    /// The cipher for the connection to Cloudflare, e.g. "AEAD-AES128-GCM-SHA256".
    pub fn tls_cipher(&self) -> (r: String)
        ensures
            r@ == self.tls_cipher@,
    {
        self.tls_cipher.clone()
    }

    /// Information about the client's authorization.
    pub fn tls_client_auth(&self) -> (r: Option<TlsClientAuth>)
        ensures
            r is Some <==> self.tls_client_auth is Some,
            r matches Some(a) ==> a.same_as(self.tls_client_auth->0),
    {
        match &self.tls_client_auth {
            Some(a) => Some(a.copy()),
            None => None,
        }
    }

    /// The TLS version of the connection to Cloudflare, e.g. TLSv1.3.
    pub fn tls_version(&self) -> (r: String)
        ensures
            r@ == self.tls_version@,
    {
        self.tls_version.clone()
    }

    /// City of the incoming request, e.g. "Austin".
    pub fn city(&self) -> (r: Option<String>)
        ensures
            opt_str_view(r) == opt_str_view(self.city),
    {
        clone_opt(&self.city)
    }

    /// Continent of the incoming request, e.g. "NA"
    pub fn continent(&self) -> (r: Option<String>)
        ensures
            opt_str_view(r) == opt_str_view(self.continent),
    {
        clone_opt(&self.continent)
    }

    /// The latitude and longitude texts, when both are known; reading them as
    /// numbers is left to the caller.
    pub fn coordinates_text(&self) -> (r: Option<(String, String)>)
        ensures
            match (self.latitude, self.longitude) {
                (Some(la), Some(lo)) => r matches Some(p) && p.0@ == la@ && p.1@ == lo@,
                _ => r is None,
            },
    {
        match (&self.latitude, &self.longitude) {
            (Some(la), Some(lo)) => Some((la.clone(), lo.clone())),
            _ => None,
        }
    }

    /// Postal code of the incoming request, e.g. "78701"
    pub fn postal_code(&self) -> (r: Option<String>)
        ensures
            opt_str_view(r) == opt_str_view(self.postal_code),
    {
        clone_opt(&self.postal_code)
    }

    /// Metro code (DMA) of the incoming request, e.g. "635"
    pub fn metro_code(&self) -> (r: Option<String>)
        ensures
            opt_str_view(r) == opt_str_view(self.metro_code),
    {
        clone_opt(&self.metro_code)
    }

    /// The ISO 3166-2 name of the first level region of the request, e.g. "Texas".
    pub fn region(&self) -> (r: Option<String>)
        ensures
            opt_str_view(r) == opt_str_view(self.region),
    {
        clone_opt(&self.region)
    }

    /// The ISO 3166-2 code of the first level region of the request, e.g. "TX".
    pub fn region_code(&self) -> (r: Option<String>)
        ensures
            opt_str_view(r) == opt_str_view(self.region_code),
    {
        clone_opt(&self.region_code)
    }

    /// Timezone of the incoming request.
    pub fn timezone(&self) -> (r: Result<chrono_tz::Tz, Error>)
        ensures
            r is Ok <==> tz_name_known(self.timezone@),
            r matches Err(e) ==> (e matches Error::RustError(m) && m@ == "Invalid timezone"@),
    {
        match parse_tz(self.timezone.as_str()) {
            Some(tz) => Ok(tz),
            None => Err(Error::RustError("Invalid timezone".to_owned())),
        }
    }

    /// Timezone name of the incoming request
    pub fn timezone_name(&self) -> (r: String)
        ensures
            r@ == self.timezone@,
    {
        self.timezone.clone()
    }

    /// Whether the country of the incoming request is in the EU
    pub fn is_eu_country(&self) -> (r: bool)
        ensures
            r == (self.is_eu_country matches Some(s) && s@ == "1"@),
    {
        match &self.is_eu_country {
            Some(s) => str_eq(s.as_str(), "1"),
            None => false,
        }
    }
}

impl TlsClientAuth {
    /// Whether two records hold the same texts.
    pub open spec fn same_as(self, other: TlsClientAuth) -> bool {
        &&& self.cert_issuer_dn_legacy@ == other.cert_issuer_dn_legacy@
        &&& self.cert_issuer_dn@ == other.cert_issuer_dn@
        &&& self.cert_issuer_dn_rfc2253@ == other.cert_issuer_dn_rfc2253@
        &&& self.cert_subject_dn_legacy@ == other.cert_subject_dn_legacy@
        &&& self.cert_verified@ == other.cert_verified@
        &&& self.cert_not_after@ == other.cert_not_after@
        &&& self.cert_subject_dn@ == other.cert_subject_dn@
        &&& self.cert_fingerprint_sha1@ == other.cert_fingerprint_sha1@
        &&& self.cert_not_before@ == other.cert_not_before@
        &&& self.cert_serial@ == other.cert_serial@
        &&& self.cert_presented@ == other.cert_presented@
        &&& self.cert_subject_dn_rfc2253@ == other.cert_subject_dn_rfc2253@
    }

    fn copy(&self) -> (r: TlsClientAuth)
        ensures
            r.same_as(*self),
    {
        TlsClientAuth {
            cert_issuer_dn_legacy: self.cert_issuer_dn_legacy.clone(),
            cert_issuer_dn: self.cert_issuer_dn.clone(),
            cert_issuer_dn_rfc2253: self.cert_issuer_dn_rfc2253.clone(),
            cert_subject_dn_legacy: self.cert_subject_dn_legacy.clone(),
            cert_verified: self.cert_verified.clone(),
            cert_not_after: self.cert_not_after.clone(),
            cert_subject_dn: self.cert_subject_dn.clone(),
            cert_fingerprint_sha1: self.cert_fingerprint_sha1.clone(),
            cert_not_before: self.cert_not_before.clone(),
            cert_serial: self.cert_serial.clone(),
            cert_presented: self.cert_presented.clone(),
            cert_subject_dn_rfc2253: self.cert_subject_dn_rfc2253.clone(),
        }
    }

    pub fn cert_issuer_dn_legacy(&self) -> (r: String)
        ensures
            r@ == self.cert_issuer_dn_legacy@,
    {
        self.cert_issuer_dn_legacy.clone()
    }

    pub fn cert_issuer_dn(&self) -> (r: String)
        ensures
            r@ == self.cert_issuer_dn@,
    {
        self.cert_issuer_dn.clone()
    }

    pub fn cert_issuer_dn_rfc2253(&self) -> (r: String)
        ensures
            r@ == self.cert_issuer_dn_rfc2253@,
    {
        self.cert_issuer_dn_rfc2253.clone()
    }

    pub fn cert_subject_dn_legacy(&self) -> (r: String)
        ensures
            r@ == self.cert_subject_dn_legacy@,
    {
        self.cert_subject_dn_legacy.clone()
    }

    pub fn cert_verified(&self) -> (r: String)
        ensures
            r@ == self.cert_verified@,
    {
        self.cert_verified.clone()
    }

    pub fn cert_not_after(&self) -> (r: String)
        ensures
            r@ == self.cert_not_after@,
    {
        self.cert_not_after.clone()
    }

    pub fn cert_subject_dn(&self) -> (r: String)
        ensures
            r@ == self.cert_subject_dn@,
    {
        self.cert_subject_dn.clone()
    }

    pub fn cert_fingerprint_sha1(&self) -> (r: String)
        ensures
            r@ == self.cert_fingerprint_sha1@,
    {
        self.cert_fingerprint_sha1.clone()
    }

    pub fn cert_not_before(&self) -> (r: String)
        ensures
            r@ == self.cert_not_before@,
    {
        self.cert_not_before.clone()
    }

    pub fn cert_serial(&self) -> (r: String)
        ensures
            r@ == self.cert_serial@,
    {
        self.cert_serial.clone()
    }

    pub fn cert_presented(&self) -> (r: String)
        ensures
            r@ == self.cert_presented@,
    {
        self.cert_presented.clone()
    }

    pub fn cert_subject_dn_rfc2253(&self) -> (r: String)
        ensures
            r@ == self.cert_subject_dn_rfc2253@,
    {
        self.cert_subject_dn_rfc2253.clone()
    }
}

} // verus!
