//! Documents of a dataset: their identifiers and default type, the database
//! migrations, and whether a document is written as an update or an insert.

use vstd::prelude::*;
use base64::Engine;
use rand::RngCore;
use vstd::string::StringExecFns;
use crate::text::{
    join,
    chars_of, string_of, sub_chars, trim_chars, find_chars, trim, split, split_from,
    first_non_space_from, end_non_space, is_space,
};

verus! {

#[verifier::external_type_specification]
#[verifier::external_body]
pub struct ExJsonValue(serde_json::Value);

/// A document: its identifier, its type, and its other members as a JSON
/// value.
pub struct Doc {
    pub _id: String,
    pub _type: String,
    pub d: serde_json::Value,
}

/// A document body as stored in the database.
pub struct DbDoc(pub String);

/// Fills a buffer with random bytes from `rand::rng()` (the thread-local
/// generator) through `RngCore::fill_bytes`. Only the length of the buffer
/// is stated: the bytes are random.
#[verifier::external_body]
fn fill_random(buf: &mut Vec<u8>)
    ensures
        final(buf)@.len() == old(buf)@.len(),
{
    rand::rng().fill_bytes(buf.as_mut_slice())
}

/// The character of the standard Base64 alphabet for a six-bit value.
pub open spec fn b64_char(v: int) -> char {
    if v < 26 {
        (65 + v) as char
    } else if v < 52 {
        (97 + v - 26) as char
    } else if v < 62 {
        (48 + v - 52) as char
    } else if v == 62 {
        '+'
    } else {
        '/'
    }
}

/// Standard Base64 (RFC 4648, with `+`, `/` and `=` padding) of a byte
/// sequence: each group of three bytes gives four characters, and a last
/// group of one or two bytes gives two or three characters and padding.
pub open spec fn base64_std(b: Seq<u8>) -> Seq<char>
    decreases b.len(),
{
    if b.len() == 0 {
        seq![]
    } else if b.len() == 1 {
        seq![b64_char(b[0] as int / 4), b64_char((b[0] as int % 4) * 16), '=', '=']
    } else if b.len() == 2 {
        seq![
            b64_char(b[0] as int / 4),
            b64_char((b[0] as int % 4) * 16 + b[1] as int / 16),
            b64_char((b[1] as int % 16) * 4),
            '=',
        ]
    } else {
        seq![
            b64_char(b[0] as int / 4),
            b64_char((b[0] as int % 4) * 16 + b[1] as int / 16),
            b64_char((b[1] as int % 16) * 4 + b[2] as int / 64),
            b64_char(b[2] as int % 64),
        ] + base64_std(b.subrange(3, b.len() as int))
    }
}

/// Encodes bytes with the `base64` crate's `general_purpose::STANDARD`
/// engine (standard alphabet, padded), whose output is standard Base64.
#[verifier::external_body]
fn base64_standard(bytes: &[u8]) -> (r: String)
    ensures
        r@ == base64_std(bytes@),
{
    base64::engine::general_purpose::STANDARD.encode(bytes)
}

/// A string without its trailing `=` characters.
pub open spec fn strip_padding(s: Seq<char>) -> Seq<char>
    decreases s.len(),
{
    if s.len() > 0 && s.last() == '=' {
        strip_padding(s.drop_last())
    } else {
        s
    }
}

/// The URL-safe counterpart of a Base64 character: `-` for `+`, `_` for
/// `/`.
pub open spec fn url_safe(c: char) -> char {
    if c == '+' {
        '-'
    } else if c == '/' {
        '_'
    } else {
        c
    }
}

/// The identifier made from standard Base64: padding removed, `+` and `/`
/// replaced by `-` and `_`.
pub open spec fn id_from_base64(s: Seq<char>) -> Seq<char> {
    strip_padding(s).map_values(|c: char| url_safe(c))
}

/// A character of the URL-safe Base64 alphabet.
pub open spec fn is_id_char(c: char) -> bool {
    let u = c as u32;
    ||| 65 <= u <= 90
    ||| 97 <= u <= 122
    ||| 48 <= u <= 57
    ||| c == '-'
    ||| c == '_'
}

/// A character of the standard Base64 alphabet (without padding).
pub open spec fn is_b64_char(c: char) -> bool {
    let u = c as u32;
    ||| 65 <= u <= 90
    ||| 97 <= u <= 122
    ||| 48 <= u <= 57
    ||| c == '+'
    ||| c == '/'
}

/// The identifier for the given bytes: their standard Base64 without
/// padding, with `-` and `_` in place of `+` and `/`.
pub fn id_from_bytes(bytes: &[u8]) -> (r: String)
    ensures
        r@ == id_from_base64(base64_std(bytes@)),
{
    let b = base64_standard(bytes);
    let cs = chars_of(b.as_str());
    let mut n: usize = cs.len();
    assert(cs@ =~= cs@.take(cs@.len() as int));
    while n > 0 && cs[n - 1] == '='
        invariant
            n <= cs@.len(),
            strip_padding(cs@) == strip_padding(cs@.take(n as int)),
        decreases n,
    {
        assert(cs@.take(n as int).drop_last() =~= cs@.take(n - 1));
        n = n - 1;
    }
    assert(strip_padding(cs@.take(n as int)) == cs@.take(n as int));
    let mut out: Vec<char> = Vec::new();
    let mut i: usize = 0;
    while i < n
        invariant
            n <= cs@.len(),
            i <= n,
            out@ == cs@.take(i as int).map_values(|c: char| url_safe(c)),
        decreases n - i,
    {
        let c = cs[i];
        let d = if c == '+' {
            '-'
        } else if c == '/' {
            '_'
        } else {
            c
        };
        out.push(d);
        assert(cs@.take(i + 1).map_values(|c: char| url_safe(c)) =~= cs@.take(
            i as int,
        ).map_values(|c: char| url_safe(c)).push(url_safe(c)));
        i = i + 1;
    }
    assert(cs@.take(n as int).map_values(|c: char| url_safe(c)) == id_from_base64(b@));
    string_of(out.as_slice())
}

/// The number of Base64 characters before the padding for `n` bytes.
pub open spec fn b64_data_len(n: int) -> int {
    (4 * n + 2) / 3
}

proof fn lemma_b64_char(v: int)
    requires
        0 <= v < 64,
    ensures
        is_b64_char(b64_char(v)),
        b64_char(v) != '=',
{
}

proof fn lemma_base64_shape(b: Seq<u8>)
    ensures
        base64_std(b).len() == 4 * ((b.len() + 2) / 3),
        forall|i: int| 0 <= i < b64_data_len(b.len() as int) ==> is_b64_char(
            #[trigger] base64_std(b)[i],
        ),
        forall|i: int|
            b64_data_len(b.len() as int) <= i < base64_std(b).len() ==> #[trigger] base64_std(
                b,
            )[i] == '=',
    decreases b.len(),
{
    let s = base64_std(b);
    if b.len() == 0 {
    } else if b.len() == 1 {
        lemma_b64_char(b[0] as int / 4);
        lemma_b64_char((b[0] as int % 4) * 16);
        assert forall|i: int| 0 <= i < b64_data_len(b.len() as int) implies is_b64_char(
            #[trigger] s[i],
        ) by {}
    } else if b.len() == 2 {
        lemma_b64_char(b[0] as int / 4);
        lemma_b64_char((b[0] as int % 4) * 16 + b[1] as int / 16);
        lemma_b64_char((b[1] as int % 16) * 4);
    } else {
        let rest = b.subrange(3, b.len() as int);
        lemma_base64_shape(rest);
        lemma_b64_char(b[0] as int / 4);
        lemma_b64_char((b[0] as int % 4) * 16 + b[1] as int / 16);
        lemma_b64_char((b[1] as int % 16) * 4 + b[2] as int / 64);
        lemma_b64_char(b[2] as int % 64);
        let head = seq![
            b64_char(b[0] as int / 4),
            b64_char((b[0] as int % 4) * 16 + b[1] as int / 16),
            b64_char((b[1] as int % 16) * 4 + b[2] as int / 64),
            b64_char(b[2] as int % 64),
        ];
        let r = base64_std(rest);
        assert(s == head + r);
        assert(b64_data_len(b.len() as int) == b64_data_len(rest.len() as int) + 4);
        assert forall|i: int| 0 <= i < b64_data_len(b.len() as int) implies is_b64_char(
            #[trigger] s[i],
        ) by {
            if i >= 4 {
                assert(s[i] == r[i - 4]);
            }
        }
        assert forall|i: int| b64_data_len(b.len() as int) <= i < s.len() implies #[trigger] s[i]
            == '=' by {
            assert(s[i] == r[i - 4]);
        }
    }
}

proof fn lemma_strip_padding(s: Seq<char>, k: int)
    requires
        0 <= k <= s.len(),
        forall|i: int| k <= i < s.len() ==> #[trigger] s[i] == '=',
        k == 0 || s[k - 1] != '=',
    ensures
        strip_padding(s) == s.take(k),
    decreases s.len(),
{
    if s.len() > k {
        lemma_strip_padding(s.drop_last(), k);
        assert(s.drop_last().take(k) =~= s.take(k));
    } else {
        assert(s.take(k) =~= s);
    }
}

/// An identifier made from `n` bytes has `(4n + 2) / 3` characters, all of
/// the URL-safe Base64 alphabet; for the sixteen random bytes of
/// [`Doc::gen_id`] that is twenty-two characters.
pub proof fn law_id_shape(b: Seq<u8>)
    ensures
        id_from_base64(base64_std(b)).len() == b64_data_len(b.len() as int),
        forall|i: int|
            0 <= i < id_from_base64(base64_std(b)).len() ==> is_id_char(
                #[trigger] id_from_base64(base64_std(b))[i],
            ),
{
    let s = base64_std(b);
    let k = b64_data_len(b.len() as int);
    lemma_base64_shape(b);
    assert(k <= s.len());
    if k > 0 {
        assert(is_b64_char(s[k - 1]));
    }
    lemma_strip_padding(s, k);
    let id = id_from_base64(s);
    assert forall|i: int| 0 <= i < id.len() implies is_id_char(#[trigger] id[i]) by {
        assert(id[i] == url_safe(s[i]));
        assert(is_b64_char(s[i]));
    }
}

impl Doc {
    /// A new random document identifier: sixteen random bytes in URL-safe
    /// Base64 without padding, so twenty-two characters of `A`-`Z`,
    /// `a`-`z`, `0`-`9`, `-` and `_`.
    pub fn gen_id() -> (r: String)
        ensures
            exists|b: Seq<u8>| b.len() == 16 && r@ == id_from_base64(#[trigger] base64_std(b)),
            r@.len() == 22,
            forall|i: int| 0 <= i < r@.len() ==> is_id_char(#[trigger] r@[i]),
    {
        let mut buf: Vec<u8> = vec![0u8; 16];
        fill_random(&mut buf);
        let r = id_from_bytes(buf.as_slice());
        proof {
            law_id_shape(buf@);
        }
        r
    }

    /// The type of a document that names none: `_idk`.
    pub fn default_type() -> (r: String)
        ensures
            r@ == "_idk"@,
    {
        "_idk".to_owned()
    }
}

/// A piece of the migration script that is a comment: it starts with `#`.
pub open spec fn is_comment(t: Seq<char>) -> bool {
    t.len() > 0 && t[0] == '#'
}

/// The trimmed pieces that are no comments, in order.
pub open spec fn kept_parts(ps: Seq<Seq<char>>) -> Seq<Seq<char>>
    decreases ps.len(),
{
    if ps.len() == 0 {
        seq![]
    } else {
        let t = trim(ps[0]);
        (if is_comment(t) {
            seq![]
        } else {
            seq![t]
        }) + kept_parts(ps.drop_first())
    }
}

/// The migration statements of a script: the pieces between `----`
/// separators, trimmed, without those that start with `#`.
pub open spec fn migrations_of(sql: Seq<char>) -> Seq<Seq<char>> {
    kept_parts(split(sql, "----"@))
}

/// The migration statements of a script whose statements are separated by
/// lines of `----`; pieces that start with `#` are comments and dropped.
pub fn get_migrations(sql: &str) -> (r: Vec<String>)
    ensures
        r@.map_values(|m: String| m@) == migrations_of(sql@),
{
    let s = chars_of(sql);
    let sep = chars_of("----");
    proof {
        reveal_strlit("----");
    }
    assert(sep@.len() == 4);
    let mut out: Vec<String> = Vec::new();
    let mut i: usize = 0;
    let slen = s.len();
    loop
        invariant
            slen == s@.len(),
            i <= s@.len(),
            sep@ == "----"@,
            sep@.len() == 4,
            out@.map_values(|m: String| m@) + kept_parts(split_from(s@, sep@, i as int))
                == migrations_of(sql@),
        decreases s@.len() - i,
    {
        let ghost before = out@.map_values(|m: String| m@);
        let found = find_chars(&s, &sep, i);
        let end = match found {
            Some(j) => j,
            None => s.len(),
        };
        let part = sub_chars(&s, i, end);
        let t = trim_chars(&part);
        let ghost parts = split_from(s@, sep@, i as int);
        assert(parts[0] == part@);
        assert(parts.len() >= 1);
        if !(t.len() > 0 && t[0] == '#') {
            out.push(string_of(t.as_slice()));
            assert(out@.map_values(|m: String| m@) =~= before.push(t@));
        }
        match found {
            Some(j) => {
                assert(parts.drop_first() =~= split_from(s@, sep@, j + 4));
                assert(out@.map_values(|m: String| m@) + kept_parts(split_from(s@, sep@, j + 4))
                    =~= before + kept_parts(parts));
                i = j + 4;
            },
            None => {
                assert(parts.drop_first() =~= Seq::<Seq<char>>::empty());
                assert(kept_parts(Seq::<Seq<char>>::empty()) =~= Seq::<Seq<char>>::empty());
                assert(out@.map_values(|m: String| m@) =~= before + kept_parts(parts));
                return out;
            },
        }
    }
}

/// Trimming twice trims nothing more.
pub proof fn law_trim_idempotent(s: Seq<char>)
    ensures
        trim(trim(s)) == trim(s),
{
    let t = trim(s);
    crate::text::lemma_trim_bounds(s);
    if t.len() > 0 {
        assert(first_non_space_from(t, 0) == 0);
        assert(end_non_space(t, t.len() as int) == t.len());
        assert(t.subrange(0, t.len() as int) =~= t);
    }
}

proof fn lemma_kept_parts_clean(ps: Seq<Seq<char>>)
    ensures
        forall|k: int|
            0 <= k < kept_parts(ps).len() ==> !is_comment(#[trigger] kept_parts(ps)[k]) && trim(
                kept_parts(ps)[k],
            ) == kept_parts(ps)[k],
    decreases ps.len(),
{
    if ps.len() > 0 {
        lemma_kept_parts_clean(ps.drop_first());
        law_trim_idempotent(ps[0]);
        let t = trim(ps[0]);
        let head: Seq<Seq<char>> = if is_comment(t) {
            seq![]
        } else {
            seq![t]
        };
        let rest = kept_parts(ps.drop_first());
        assert(kept_parts(ps) == head + rest);
        assert forall|k: int| 0 <= k < kept_parts(ps).len() implies !is_comment(
            #[trigger] kept_parts(ps)[k],
        ) && trim(kept_parts(ps)[k]) == kept_parts(ps)[k] by {
            if k >= head.len() {
                assert(kept_parts(ps)[k] == rest[k - head.len()]);
            }
        }
    }
}

/// Every migration statement is trimmed and none is a comment.
pub proof fn law_migrations_clean(sql: Seq<char>)
    ensures
        forall|k: int|
            0 <= k < migrations_of(sql).len() ==> !is_comment(#[trigger] migrations_of(sql)[k])
                && trim(migrations_of(sql)[k]) == migrations_of(sql)[k],
{
    lemma_kept_parts_clean(split(sql, "----"@));
}

proof fn lemma_kept_parts_filter(ps: Seq<Seq<char>>)
    ensures
        kept_parts(ps) == ps.map_values(|p: Seq<char>| trim(p)).filter(
            |t: Seq<char>| !is_comment(t),
        ),
    decreases ps.len(),
{
    let f = |p: Seq<char>| trim(p);
    let keep = |t: Seq<char>| !is_comment(t);
    if ps.len() == 0 {
        assert(ps.map_values(f) =~= Seq::<Seq<char>>::empty());
        reveal(Seq::filter);
    } else {
        lemma_kept_parts_filter(ps.drop_first());
        let t = trim(ps[0]);
        assert(ps.map_values(f) =~= seq![t] + ps.drop_first().map_values(f));
        Seq::filter_distributes_over_add(seq![t], ps.drop_first().map_values(f), keep);
        reveal_with_fuel(Seq::filter, 2);
        assert(seq![t].drop_last() =~= Seq::<Seq<char>>::empty());
        if is_comment(t) {
            assert(seq![t].filter(keep) =~= Seq::<Seq<char>>::empty());
        } else {
            assert(seq![t].filter(keep) =~= seq![t]);
        }
    }
}

/// The migration statements are the pieces of the script between `----`
/// separators, each trimmed whole (line breaks inside a statement stay),
/// with the pieces that then start with `#` left out.
pub proof fn law_migrations_are_trimmed_pieces(sql: Seq<char>)
    ensures
        migrations_of(sql) == split(sql, "----"@).map_values(|p: Seq<char>| trim(p)).filter(
            |t: Seq<char>| !is_comment(t),
        ),
{
    lemma_kept_parts_filter(split(sql, "----"@));
}

proof fn lemma_kept_parts_no_comment(ps: Seq<Seq<char>>)
    requires
        forall|k: int| 0 <= k < ps.len() ==> !is_comment(trim(#[trigger] ps[k])),
    ensures
        kept_parts(ps) == ps.map_values(|p: Seq<char>| trim(p)),
    decreases ps.len(),
{
    if ps.len() > 0 {
        assert(!is_comment(trim(ps[0])));
        assert forall|k: int| 0 <= k < ps.drop_first().len() implies !is_comment(
            trim(#[trigger] ps.drop_first()[k]),
        ) by {
            assert(ps.drop_first()[k] == ps[k + 1]);
        }
        lemma_kept_parts_no_comment(ps.drop_first());
        assert(ps.map_values(|p: Seq<char>| trim(p)) =~= seq![trim(ps[0])]
            + ps.drop_first().map_values(|p: Seq<char>| trim(p)));
    } else {
        assert(ps.map_values(|p: Seq<char>| trim(p)) =~= Seq::<Seq<char>>::empty());
    }
}

/// In a script without comments there is one statement per piece between
/// `----` separators, and the `k`-th statement is the whole `k`-th piece,
/// trimmed: a statement keeps every line it spans.
pub proof fn law_migrations_without_comments(sql: Seq<char>)
    requires
        forall|k: int|
            0 <= k < split(sql, "----"@).len() ==> !is_comment(trim(#[trigger] split(sql, "----"@)[k])),
    ensures
        migrations_of(sql).len() == split(sql, "----"@).len(),
        forall|k: int|
            0 <= k < migrations_of(sql).len() ==> #[trigger] migrations_of(sql)[k] == trim(
                split(sql, "----"@)[k],
            ),
{
    lemma_kept_parts_no_comment(split(sql, "----"@));
}

/// Joins strings with a separator between them.
pub fn join_strings(parts: &Vec<String>, sep: &str) -> (r: String)
    ensures
        r@ == join(parts@.map_values(|m: String| m@), sep@),
{
    let ghost views = parts@.map_values(|m: String| m@);
    let n = parts.len();
    if n == 0 {
        return String::new();
    }
    let mut r = parts[n - 1].clone();
    let mut i: usize = n - 1;
    assert(views.subrange(i as int, n as int) =~= seq![views[i as int]]);
    while i > 0
        invariant
            n == parts@.len(),
            views == parts@.map_values(|m: String| m@),
            0 <= i < n,
            r@ == join(views.subrange(i as int, n as int), sep@),
        decreases i,
    {
        i = i - 1;
        let mut next = parts[i].clone();
        next.append(sep);
        next.append(r.as_str());
        let ghost tail = views.subrange(i + 1, n as int);
        assert(views.subrange(i as int, n as int).drop_first() =~= tail);
        assert(views.subrange(i as int, n as int)[0] == views[i as int]);
        r = next;
    }
    assert(views.subrange(0, n as int) =~= views);
    r
}

/// The migration statements of a script as one batch, separated by `;`
/// and a line break.
pub fn migration_batch(sql: &str) -> (r: String)
    ensures
        r@ == join(migrations_of(sql@), ";\n"@),
{
    let m = get_migrations(sql);
    join_strings(&m, ";\n")
}

/// How a document is written: over an existing one, or as a new one.
#[derive(Debug, Clone, Copy, PartialEq, Eq, Structural)]
pub enum WriteKind {
    Update,
    Insert,
}

/// A document whose identifier is already stored is updated; any other
/// is inserted.
pub fn write_kind(exists: bool) -> (r: WriteKind)
    ensures
        r == (if exists {
            WriteKind::Update
        } else {
            WriteKind::Insert
        }),
{
    if exists {
        WriteKind::Update
    } else {
        WriteKind::Insert
    }
}

/// A count of stored documents with an identifier says the identifier
/// exists when it is positive.
pub fn exists_from_count(total: u64) -> (r: bool)
    ensures
        r == (total > 0),
{
    total > 0
}

} // verus!
