use vstd::prelude::*;
use vstd::string::StringExecFns;
use vstd::utf8::{
    char_is_scalar, decode_utf8, encode_scalar, encode_utf8, encode_utf8_decode_utf8,
};

use crate::error::EsError;
use crate::json::{get_i64, i64_field, Json};

verus! {

/// How many shards took part in an operation, and how each fared.
#[derive(Debug, Clone, Copy, PartialEq, Eq, Structural)]
pub struct ShardCountResult {
    pub total: i64,
    pub successful: i64,
    pub failed: i64,
}

/// The shard counts that `j` holds, if it holds all three.
pub open spec fn shard_counts_of(j: Json) -> Option<ShardCountResult> {
    if i64_field(j, "total"@) is Some && i64_field(j, "successful"@) is Some && i64_field(
        j,
        "failed"@,
    ) is Some {
        Some(
            ShardCountResult {
                total: i64_field(j, "total"@)->0,
                successful: i64_field(j, "successful"@)->0,
                failed: i64_field(j, "failed"@)->0,
            },
        )
    } else {
        None
    }
}

impl ShardCountResult {
    /// Decodes `{"total": int, "successful": int, "failed": int}`.
    pub fn from_json(j: &Json) -> (r: Result<ShardCountResult, EsError>)
        ensures
            match r {
                Ok(s) => shard_counts_of(*j) == Some(s),
                Err(e) => shard_counts_of(*j) is None && e is Decode,
            },
    {
        let total = get_i64(j, "total")?;
        let successful = get_i64(j, "successful")?;
        let failed = get_i64(j, "failed")?;
        Ok(ShardCountResult { total, successful, failed })
    }
}


/// Whether a character goes into a URL as it is.
pub open spec fn is_unreserved(c: char) -> bool {
    ('a' <= c && c <= 'z') || ('A' <= c && c <= 'Z') || ('0' <= c && c <= '9') || c == '-' || c
        == '_' || c == '.' || c == '~'
}

/// The upper-case hexadecimal digits.
pub open spec fn hex_digits() -> Seq<char> {
    seq!['0', '1', '2', '3', '4', '5', '6', '7', '8', '9', 'A', 'B', 'C', 'D', 'E', 'F']
}

/// `%XY`, the escape of one byte.
pub open spec fn escape_byte(b: u8) -> Seq<char> {
    seq!['%', hex_digits()[b as int / 16], hex_digits()[b as int % 16]]
}

/// The escapes of bytes, one after another.
pub open spec fn escape_bytes(bs: Seq<u8>) -> Seq<char>
    decreases bs.len(),
{
    if bs.len() == 0 {
        Seq::empty()
    } else {
        escape_byte(bs[0]) + escape_bytes(bs.drop_first())
    }
}

/// The escape of one character: itself when unreserved, else its UTF-8 bytes escaped.
pub open spec fn escape_char(c: char) -> Seq<char> {
    if is_unreserved(c) {
        seq![c]
    } else {
        escape_bytes(encode_scalar(c as u32))
    }
}

/// The URL encoding of a whole value, character by character.
pub open spec fn url_encoded(s: Seq<char>) -> Seq<char>
    decreases s.len(),
{
    if s.len() == 0 {
        Seq::empty()
    } else {
        url_encoded(s.drop_last()) + escape_char(s.last())
    }
}

fn hex_digit(d: u32) -> (r: &'static str)
    requires
        d < 16,
    ensures
        r@ == seq![hex_digits()[d as int]],
{
    proof {
        reveal_strlit("0123456789ABCDEF");
    }
    let r = "0123456789ABCDEF".substring_char(d as usize, d as usize + 1);
    assert(r@ =~= seq![hex_digits()[d as int]]);
    r
}

fn push_escaped_byte(out: &mut String, b: u8)
    ensures
        final(out)@ == old(out)@ + escape_byte(b),
{
    proof {
        reveal_strlit("%");
    }
    out.append("%");
    out.append(hex_digit(b as u32 / 16));
    out.append(hex_digit(b as u32 % 16));
    assert(final(out)@ =~= old(out)@ + escape_byte(b));
}

fn push_escaped_bytes(out: &mut String, bs: &[u8])
    ensures
        final(out)@ == old(out)@ + escape_bytes(bs@),
{
    let n = bs.len();
    let mut i: usize = 0;
    assert(bs@.subrange(0, n as int) =~= bs@);
    while i < n
        invariant
            n == bs@.len(),
            i <= n,
            out@ + escape_bytes(bs@.subrange(i as int, n as int)) == old(out)@ + escape_bytes(bs@),
        decreases n - i,
    {
        let ghost before = out@;
        push_escaped_byte(out, bs[i]);
        assert(bs@.subrange(i as int, n as int).drop_first() =~= bs@.subrange(i + 1, n as int));
        assert(out@ + escape_bytes(bs@.subrange(i + 1, n as int)) =~= before + escape_bytes(
            bs@.subrange(i as int, n as int),
        ));
        i = i + 1;
    }
    assert(out@ =~= out@ + escape_bytes(bs@.subrange(n as int, n as int)));
}

fn push_escaped_char(out: &mut String, c: char, one: &str)
    requires
        one@ == seq![c],
    ensures
        final(out)@ == old(out)@ + escape_char(c),
{
    proof {
        char_is_scalar(c);
    }
    let cp = c as u32;
    if ('a' <= c && c <= 'z') || ('A' <= c && c <= 'Z') || ('0' <= c && c <= '9') || c == '-'
        || c == '_' || c == '.' || c == '~' {
        out.append(one);
    } else if cp <= 0x7F {
        let bs = [(cp & 0x7F) as u8];
        assert(bs@ =~= encode_scalar(cp));
        push_escaped_bytes(out, &bs);
    } else if cp <= 0x7FF {
        let bs = [0xC0 | ((cp >> 6) & 0x1F) as u8, 0x80 | (cp & 0x3F) as u8];
        assert(bs@ =~= encode_scalar(cp));
        push_escaped_bytes(out, &bs);
    } else if cp <= 0xFFFF {
        let bs = [
            0xE0 | ((cp >> 12) & 0x0F) as u8,
            0x80 | ((cp >> 6) & 0x3F) as u8,
            0x80 | (cp & 0x3F) as u8,
        ];
        assert(bs@ =~= encode_scalar(cp));
        push_escaped_bytes(out, &bs);
    } else {
        let bs = [
            0xF0 | ((cp >> 18) & 0x7) as u8,
            0x80 | ((cp >> 12) & 0x3F) as u8,
            0x80 | ((cp >> 6) & 0x3F) as u8,
            0x80 | (cp & 0x3F) as u8,
        ];
        assert(bs@ =~= encode_scalar(cp));
        push_escaped_bytes(out, &bs);
    }
}

/// Appends the URL encoding of `v` to `out`.
pub fn push_url_encoded(out: &mut String, v: &str)
    ensures
        final(out)@ == old(out)@ + url_encoded(v@),
{
    let n = v.unicode_len();
    let mut i: usize = 0;
    while i < n
        invariant
            n == v@.len(),
            i <= n,
            out@ == old(out)@ + url_encoded(v@.subrange(0, i as int)),
        decreases n - i,
    {
        let c = v.get_char(i);
        let one = v.substring_char(i, i + 1);
        assert(one@ =~= seq![c]);
        push_escaped_char(out, c, one);
        assert(v@.subrange(0, i + 1).drop_last() =~= v@.subrange(0, i as int));
        assert(out@ =~= old(out)@ + url_encoded(v@.subrange(0, i + 1)));
        i = i + 1;
    }
    assert(v@.subrange(0, n as int) =~= v@);
}


/// Named request parameters, in the order in which they were added.
#[derive(Debug)]
pub struct Options {
    pub pairs: Vec<(String, String)>,
}

/// The parameters as pairs of character sequences.
pub open spec fn pairs_view(pairs: Seq<(String, String)>) -> Seq<(Seq<char>, Seq<char>)> {
    pairs.map_values(|p: (String, String)| (p.0@, p.1@))
}

impl View for Options {
    type V = Seq<(Seq<char>, Seq<char>)>;

    open spec fn view(&self) -> Seq<(Seq<char>, Seq<char>)> {
        pairs_view(self.pairs@)
    }
}

impl Options {
    /// No parameters.
    pub fn new() -> (r: Options)
        ensures
            r@ == Seq::<(Seq<char>, Seq<char>)>::empty(),
    {
        let r = Options { pairs: Vec::new() };
        assert(r@ =~= Seq::<(Seq<char>, Seq<char>)>::empty());
        r
    }

    /// Adds `name=value` after the parameters already there.
    pub fn push(&mut self, name: &str, value: &str)
        ensures
            final(self)@ == old(self)@.push((name@, value@)),
    {
        self.pairs.push((String::from_str(name), String::from_str(value)));
        assert(final(self)@ =~= old(self)@.push((name@, value@)));
    }
}

/// `name=value`, with the value URL-encoded.
pub open spec fn pair_text(p: (Seq<char>, Seq<char>)) -> Seq<char> {
    p.0 + seq!['='] + url_encoded(p.1)
}

/// The pairs' texts joined with `&`.
pub open spec fn joined_pairs(ps: Seq<(Seq<char>, Seq<char>)>) -> Seq<char>
    decreases ps.len(),
{
    if ps.len() == 0 {
        Seq::empty()
    } else if ps.len() == 1 {
        pair_text(ps[0])
    } else {
        joined_pairs(ps.drop_last()) + seq!['&'] + pair_text(ps.last())
    }
}

/// The query string: empty without parameters, else `?` and the joined pairs.
pub open spec fn query_string(ps: Seq<(Seq<char>, Seq<char>)>) -> Seq<char> {
    if ps.len() == 0 {
        Seq::empty()
    } else {
        seq!['?'] + joined_pairs(ps)
    }
}

/// Renders the parameters as a query string, in their order, each value URL-encoded.
pub fn format_query_string(options: &Options) -> (r: String)
    ensures
        r@ == query_string(options@),
{
    proof {
        reveal_strlit("?");
    }
    let ghost ps = options@;
    let n = options.pairs.len();
    let mut out = String::new();
    if n == 0 {
        return out;
    }
    out.append("?");
    let mut i: usize = 0;
    while i < n
        invariant
            n == options.pairs@.len(),
            ps == options@,
            ps.len() == n,
            0 < n,
            i <= n,
            i == 0 ==> out@ == seq!['?'],
            i > 0 ==> out@ == seq!['?'] + joined_pairs(ps.subrange(0, i as int)),
        decreases n - i,
    {
        proof {
            reveal_strlit("&");
            reveal_strlit("=");
        }
        if i > 0 {
            out.append("&");
        }
        out.append(options.pairs[i].0.as_str());
        out.append("=");
        push_url_encoded(&mut out, options.pairs[i].1.as_str());
        let ghost sub = ps.subrange(0, i + 1);
        assert(sub.drop_last() =~= ps.subrange(0, i as int));
        assert(sub.last() == ps[i as int]);
        assert(ps[i as int] == (options.pairs@[i as int].0@, options.pairs@[i as int].1@));
        if i == 0 {
            assert(joined_pairs(sub) == pair_text(sub[0]));
        } else {
            assert(joined_pairs(sub) == joined_pairs(sub.drop_last()) + seq!['&'] + pair_text(
                sub.last(),
            ));
        }
        assert(out@ =~= seq!['?'] + joined_pairs(sub));
        i = i + 1;
    }
    assert(ps.subrange(0, n as int) =~= ps);
    out
}

/// The value of a hexadecimal digit, in either case (0 for any other character).
pub open spec fn hex_value(c: char) -> int {
    let u = c as u32 as int;
    if '0' <= c && c <= '9' {
        u - 48
    } else if 'A' <= c && c <= 'F' {
        u - 55
    } else if 'a' <= c && c <= 'f' {
        u - 87
    } else {
        0
    }
}

/// The bytes that URL-encoded text stands for: `%XY` is one byte, any other
/// character stands for its own code taken as a byte.
pub open spec fn url_decoded(t: Seq<char>) -> Seq<u8>
    decreases t.len(),
{
    if t.len() == 0 {
        Seq::empty()
    } else if t[0] == '%' && t.len() >= 3 {
        seq![(hex_value(t[1]) * 16 + hex_value(t[2])) as u8] + url_decoded(t.subrange(3, t.len() as int))
    } else {
        seq![(t[0] as u32) as u8] + url_decoded(t.drop_first())
    }
}

/// Whether `t` holds neither `&` nor `=`.
pub open spec fn free_of_separators(t: Seq<char>) -> bool {
    forall|i: int| 0 <= i < t.len() ==> #[trigger] t[i] != '&' && t[i] != '='
}

/// The position of the last `c` in `t`, or -1.
pub open spec fn last_index_of(t: Seq<char>, c: char) -> int
    decreases t.len(),
{
    if t.len() == 0 {
        -1
    } else if t.last() == c {
        t.len() - 1
    } else {
        last_index_of(t.drop_last(), c)
    }
}

/// The position of the first `c` in `t`, or -1.
pub open spec fn first_index_of(t: Seq<char>, c: char) -> int
    decreases t.len(),
{
    if t.len() == 0 {
        -1
    } else if t[0] == c {
        0
    } else if first_index_of(t.drop_first(), c) < 0 {
        -1
    } else {
        first_index_of(t.drop_first(), c) + 1
    }
}

/// Reads `name=value`, splitting at the first `=` and decoding the value.
pub open spec fn parse_pair(t: Seq<char>) -> (Seq<char>, Seq<char>) {
    let k = first_index_of(t, '=');
    if k < 0 || k >= t.len() {
        (t, Seq::empty())
    } else {
        (t.subrange(0, k), decode_utf8(url_decoded(t.subrange(k + 1, t.len() as int))))
    }
}

/// Reads pairs joined with `&`.
pub open spec fn parse_pairs(t: Seq<char>) -> Seq<(Seq<char>, Seq<char>)>
    decreases t.len(),
{
    let k = last_index_of(t, '&');
    if k < 0 || k >= t.len() {
        seq![parse_pair(t)]
    } else {
        parse_pairs(t.subrange(0, k)).push(parse_pair(t.subrange(k + 1, t.len() as int)))
    }
}

/// Reads a query string back into its pairs.
pub open spec fn parse_query_string(t: Seq<char>) -> Seq<(Seq<char>, Seq<char>)> {
    if t.len() == 0 {
        Seq::empty()
    } else {
        parse_pairs(t.drop_first())
    }
}

proof fn lemma_hex_digit(d: int)
    requires
        0 <= d < 16,
    ensures
        hex_value(hex_digits()[d]) == d,
        is_unreserved(hex_digits()[d]),
{
    if d < 10 {
        assert(hex_digits()[d] as u32 as int == 48 + d) by {
            if d == 0 {} else if d == 1 {} else if d == 2 {} else if d == 3 {} else if d == 4 {}
            else if d == 5 {} else if d == 6 {} else if d == 7 {} else if d == 8 {} else {}
        }
    } else {
        assert(hex_digits()[d] as u32 as int == 55 + d) by {
            if d == 10 {} else if d == 11 {} else if d == 12 {} else if d == 13 {} else if d == 14 {}
            else {}
        }
    }
}

proof fn lemma_escape_bytes_safe(bs: Seq<u8>)
    ensures
        free_of_separators(escape_bytes(bs)),
    decreases bs.len(),
{
    if bs.len() > 0 {
        lemma_escape_bytes_safe(bs.drop_first());
        lemma_hex_digit(bs[0] as int / 16);
        lemma_hex_digit(bs[0] as int % 16);
        let e = escape_byte(bs[0]);
        let r = escape_bytes(bs.drop_first());
        assert forall|i: int| 0 <= i < (e + r).len() implies #[trigger] (e + r)[i] != '&' && (e
            + r)[i] != '=' by {
            if i >= 3 {
                assert((e + r)[i] == r[i - 3]);
            }
        }
    }
}

proof fn lemma_url_encoded_safe(s: Seq<char>)
    ensures
        free_of_separators(url_encoded(s)),
    decreases s.len(),
{
    if s.len() > 0 {
        lemma_url_encoded_safe(s.drop_last());
        let a = url_encoded(s.drop_last());
        let c = s.last();
        if !is_unreserved(c) {
            lemma_escape_bytes_safe(encode_scalar(c as u32));
        }
        let e = escape_char(c);
        assert forall|i: int| 0 <= i < (a + e).len() implies #[trigger] (a + e)[i] != '&' && (a
            + e)[i] != '=' by {
            if i >= a.len() {
                assert((a + e)[i] == e[i - a.len()]);
            }
        }
    }
}

proof fn lemma_url_encoded_front(s: Seq<char>)
    requires
        s.len() > 0,
    ensures
        url_encoded(s) == escape_char(s[0]) + url_encoded(s.drop_first()),
    decreases s.len(),
{
    if s.len() == 1 {
        assert(s.drop_last() =~= Seq::<char>::empty());
        assert(s.drop_first() =~= Seq::<char>::empty());
        assert(url_encoded(s) =~= escape_char(s[0]) + url_encoded(s.drop_first()));
    } else {
        lemma_url_encoded_front(s.drop_last());
        assert(s.drop_last().drop_first() =~= s.drop_first().drop_last());
        assert(url_encoded(s) =~= escape_char(s[0]) + url_encoded(s.drop_first()));
    }
}

proof fn lemma_decode_escaped_bytes(bs: Seq<u8>, rest: Seq<char>)
    ensures
        url_decoded(escape_bytes(bs) + rest) == bs + url_decoded(rest),
    decreases bs.len(),
{
    if bs.len() == 0 {
        assert(escape_bytes(bs) + rest =~= rest);
        assert(bs + url_decoded(rest) =~= url_decoded(rest));
    } else {
        let b = bs[0];
        let tail = escape_bytes(bs.drop_first()) + rest;
        let t = escape_bytes(bs) + rest;
        assert(t =~= escape_byte(b) + tail);
        lemma_hex_digit(b as int / 16);
        lemma_hex_digit(b as int % 16);
        assert(t.subrange(3, t.len() as int) =~= tail);
        lemma_decode_escaped_bytes(bs.drop_first(), rest);
        assert(url_decoded(t) == seq![b] + url_decoded(tail));
        assert(bs =~= seq![b] + bs.drop_first());
        assert(url_decoded(t) =~= bs + url_decoded(rest));
    }
}

proof fn lemma_decode_escaped_char(c: char, rest: Seq<char>)
    ensures
        url_decoded(escape_char(c) + rest) == encode_scalar(c as u32) + url_decoded(rest),
{
    if is_unreserved(c) {
        let cp = c as u32;
        assert(cp < 128);
        assert(cp & 0x7F == cp) by (bit_vector)
            requires
                cp < 128,
        ;
        let t = seq![c] + rest;
        assert(t.drop_first() =~= rest);
        assert(encode_scalar(cp) =~= seq![(cp as u32) as u8]);
    } else {
        lemma_decode_escaped_bytes(encode_scalar(c as u32), rest);
    }
}

proof fn lemma_url_decoded_encoded(s: Seq<char>)
    ensures
        url_decoded(url_encoded(s)) == encode_utf8(s),
    decreases s.len(),
{
    if s.len() == 0 {
        assert(url_decoded(url_encoded(s)) =~= encode_utf8(s));
    } else {
        lemma_url_encoded_front(s);
        lemma_decode_escaped_char(s[0], url_encoded(s.drop_first()));
        lemma_url_decoded_encoded(s.drop_first());
    }
}

/// Decoding a URL-encoded value gives the value back.
pub proof fn lemma_url_value_round_trip(v: Seq<char>)
    ensures
        decode_utf8(url_decoded(url_encoded(v))) == v,
{
    lemma_url_decoded_encoded(v);
    encode_utf8_decode_utf8(v);
}

proof fn lemma_last_index_after(a: Seq<char>, c: char, b: Seq<char>)
    requires
        forall|i: int| 0 <= i < b.len() ==> b[i] != c,
    ensures
        last_index_of(a + seq![c] + b, c) == a.len(),
    decreases b.len(),
{
    let t = a + seq![c] + b;
    if b.len() > 0 {
        assert(t.drop_last() =~= a + seq![c] + b.drop_last());
        lemma_last_index_after(a, c, b.drop_last());
    }
}

proof fn lemma_last_index_absent(t: Seq<char>, c: char)
    requires
        forall|i: int| 0 <= i < t.len() ==> t[i] != c,
    ensures
        last_index_of(t, c) == -1,
    decreases t.len(),
{
    if t.len() > 0 {
        lemma_last_index_absent(t.drop_last(), c);
    }
}

proof fn lemma_first_index_after(a: Seq<char>, c: char, b: Seq<char>)
    requires
        forall|i: int| 0 <= i < a.len() ==> a[i] != c,
    ensures
        first_index_of(a + seq![c] + b, c) == a.len(),
    decreases a.len(),
{
    let t = a + seq![c] + b;
    if a.len() > 0 {
        assert(t.drop_first() =~= a.drop_first() + seq![c] + b);
        lemma_first_index_after(a.drop_first(), c, b);
    }
}

proof fn lemma_parse_pair_text(p: (Seq<char>, Seq<char>))
    requires
        free_of_separators(p.0),
    ensures
        parse_pair(pair_text(p)) == p,
        forall|i: int| 0 <= i < pair_text(p).len() ==> #[trigger] pair_text(p)[i] != '&',
{
    let t = pair_text(p);
    lemma_first_index_after(p.0, '=', url_encoded(p.1));
    assert(t.subrange(0, p.0.len() as int) =~= p.0);
    assert(t.subrange(p.0.len() as int + 1, t.len() as int) =~= url_encoded(p.1));
    lemma_url_value_round_trip(p.1);
    lemma_url_encoded_safe(p.1);
    assert forall|i: int| 0 <= i < t.len() implies #[trigger] t[i] != '&' by {
        if i < p.0.len() {
            assert(t[i] == p.0[i]);
        } else if i > p.0.len() {
            assert(t[i] == url_encoded(p.1)[i - p.0.len() - 1]);
        }
    }
}

proof fn lemma_parse_joined_pairs(ps: Seq<(Seq<char>, Seq<char>)>)
    requires
        ps.len() > 0,
        forall|i: int| 0 <= i < ps.len() ==> free_of_separators(#[trigger] ps[i].0),
    ensures
        parse_pairs(joined_pairs(ps)) == ps,
    decreases ps.len(),
{
    let last = ps.last();
    lemma_parse_pair_text(last);
    if ps.len() == 1 {
        lemma_last_index_absent(pair_text(ps[0]), '&');
        assert(parse_pairs(joined_pairs(ps)) =~= ps);
    } else {
        let front = ps.drop_last();
        assert forall|i: int| 0 <= i < front.len() implies free_of_separators(#[trigger] front[i].0) by {
            assert(front[i] == ps[i]);
        }
        lemma_parse_joined_pairs(front);
        let a = joined_pairs(front);
        let t = joined_pairs(ps);
        assert(t == a + seq!['&'] + pair_text(last));
        lemma_last_index_after(a, '&', pair_text(last));
        assert(t.subrange(0, a.len() as int) =~= a);
        assert(t.subrange(a.len() as int + 1, t.len() as int) =~= pair_text(last));
        assert(parse_pairs(t) =~= ps);
    }
}

/// Rendering parameters as a query string and reading it back gives the same
/// pairs in the same order, each value decoded back to what it was, for
/// parameter names that hold neither `&` nor `=`.
pub proof fn lemma_query_string_round_trip(ps: Seq<(Seq<char>, Seq<char>)>)
    requires
        forall|i: int| 0 <= i < ps.len() ==> free_of_separators(#[trigger] ps[i].0),
    ensures
        parse_query_string(query_string(ps)) == ps,
{
    if ps.len() > 0 {
        lemma_parse_joined_pairs(ps);
        assert((seq!['?'] + joined_pairs(ps)).drop_first() =~= joined_pairs(ps));
    } else {
        assert(parse_query_string(query_string(ps)) =~= ps);
    }
}

/// Names as character sequences.
pub open spec fn names_view(names: Seq<String>) -> Seq<Seq<char>> {
    names.map_values(|s: String| s@)
}

/// Names joined with `,`.
pub open spec fn comma_joined(names: Seq<Seq<char>>) -> Seq<char>
    decreases names.len(),
{
    if names.len() == 0 {
        Seq::empty()
    } else if names.len() == 1 {
        names[0]
    } else {
        comma_joined(names.drop_last()) + seq![','] + names.last()
    }
}

pub fn push_comma_joined(out: &mut String, names: &Vec<String>)
    ensures
        final(out)@ == old(out)@ + comma_joined(names_view(names@)),
{
    let ghost ns = names_view(names@);
    let n = names.len();
    let mut i: usize = 0;
    while i < n
        invariant
            n == names@.len(),
            ns == names_view(names@),
            i <= n,
            out@ == old(out)@ + comma_joined(ns.subrange(0, i as int)),
        decreases n - i,
    {
        proof {
            reveal_strlit(",");
        }
        if i > 0 {
            out.append(",");
        }
        out.append(names[i].as_str());
        let ghost sub = ns.subrange(0, i + 1);
        assert(sub.drop_last() =~= ns.subrange(0, i as int));
        assert(sub.last() == names@[i as int]@);
        if i == 0 {
            assert(comma_joined(sub) == sub[0]);
        } else {
            assert(comma_joined(sub) == comma_joined(sub.drop_last()) + seq![','] + sub.last());
        }
        assert(out@ =~= old(out)@ + comma_joined(sub));
        i = i + 1;
    }
    assert(ns.subrange(0, n as int) =~= ns);
}

/// The path segments that pick indexes and types: none without indexes, else
/// `/indexes`, followed by `/types` where there are types.
pub open spec fn target_path(indexes: Seq<Seq<char>>, types: Seq<Seq<char>>) -> Seq<char> {
    if indexes.len() == 0 {
        Seq::empty()
    } else if types.len() == 0 {
        seq!['/'] + comma_joined(indexes)
    } else {
        seq!['/'] + comma_joined(indexes) + seq!['/'] + comma_joined(types)
    }
}

/// Without indexes the path has no index segment, and then no type segment either,
/// whatever types were given.
pub proof fn lemma_no_indexes_no_segments(indexes: Seq<Seq<char>>, types: Seq<Seq<char>>)
    requires
        indexes.len() == 0,
    ensures
        target_path(indexes, types) == Seq::<char>::empty(),
{
}

/// Renders the index and type segments of a multi-index path.
pub fn format_indexes_and_types(indexes: &Vec<String>, types: &Vec<String>) -> (r: String)
    ensures
        r@ == target_path(names_view(indexes@), names_view(types@)),
{
    proof {
        reveal_strlit("/");
    }
    let mut out = String::new();
    if indexes.len() == 0 {
        return out;
    }
    out.append("/");
    push_comma_joined(&mut out, indexes);
    if types.len() > 0 {
        out.append("/");
        push_comma_joined(&mut out, types);
    }
    assert(out@ =~= target_path(names_view(indexes@), names_view(types@)));
    out
}


/// The HTTP verb of a request.
#[derive(Debug, Clone, Copy, PartialEq, Eq, Structural)]
pub enum Method {
    Get,
    Post,
    Delete,
}

/// A rendered request: verb, path with query string, and optional JSON body.
#[derive(Debug)]
pub struct Request {
    pub method: Method,
    pub path: String,
    pub body: Option<Json>,
}

/// The HTTP client through which operations are sent.
///
/// `execute` fails, with a message, only when the exchange itself fails; a status
/// that the server reports is handed back with the parsed body, if there was one.
pub trait Transport {
    fn execute(&mut self, method: Method, path: &str, body: &Option<Json>) -> Result<
        (u16, Option<Json>),
        String,
    >;
}

/// Runs `req` through `client`, turning a failed exchange into `EsError::Transport`.
pub fn execute<T: Transport>(client: &mut T, req: &Request) -> (r: Result<(u16, Option<Json>), EsError>)
    ensures
        r matches Err(e) ==> e is Transport,
{
    match client.execute(req.method, req.path.as_str(), &req.body) {
        Ok(answer) => Ok(answer),
        Err(message) => Err(EsError::Transport(message)),
    }
}

/// The status of a successful answer.
pub const STATUS_OK: u16 = 200;

/// The status of an answer that found nothing.
pub const STATUS_NOT_FOUND: u16 = 404;

} // verus!
