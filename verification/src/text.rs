//! Character-level helpers on strings: equality, conversion to and from
//! character vectors, decimal and hexadecimal rendering.

use vstd::prelude::*;

verus! {

/// Compares two string slices with std's `==` on `str`: true exactly when
/// both hold the same characters.
#[verifier::external_body]
pub fn str_eq(a: &str, b: &str) -> (r: bool)
    ensures
        r == (a@ == b@),
{
    a == b
}

/// Collects the characters of a string slice with std's `str::chars` and
/// `collect`: the vector holds the slice's characters in order.
#[verifier::external_body]
pub fn chars_of(s: &str) -> (v: Vec<char>)
    ensures
        v@ == s@,
{
    s.chars().collect()
}

/// Builds a `String` from characters with std's `collect`: the string holds
/// exactly the given characters in order.
#[verifier::external_body]
pub fn string_of(cs: &[char]) -> (s: String)
    ensures
        s@ == cs@,
{
    cs.iter().collect()
}

/// The decimal digit for a value below ten.
pub open spec fn digit_char(d: int) -> char {
    if d == 0 { '0' } else if d == 1 { '1' } else if d == 2 { '2' } else if d == 3 { '3' }
    else if d == 4 { '4' } else if d == 5 { '5' } else if d == 6 { '6' } else if d == 7 { '7' }
    else if d == 8 { '8' } else { '9' }
}

/// The decimal rendering of a natural number, without leading zeros
/// (zero renders as "0").
pub open spec fn decimal(n: nat) -> Seq<char>
    decreases n,
{
    if n < 10 {
        seq![digit_char(n as int)]
    } else {
        decimal(n / 10).push(digit_char((n % 10) as int))
    }
}

/// The decimal digit character for `d`, which is below ten.
pub fn digit_of(d: usize) -> (c: char)
    requires
        d < 10,
    ensures
        c == digit_char(d as int),
{
    if d == 0 { '0' } else if d == 1 { '1' } else if d == 2 { '2' } else if d == 3 { '3' }
    else if d == 4 { '4' } else if d == 5 { '5' } else if d == 6 { '6' } else if d == 7 { '7' }
    else if d == 8 { '8' } else { '9' }
}

/// Renders `n` in decimal, as `usize::to_string` does.
pub fn decimal_string(n: usize) -> (s: String)
    ensures
        s@ == decimal(n as nat),
{
    let mut acc: Vec<char> = Vec::new();
    let mut m: usize = n;
    while m >= 10
        invariant
            decimal(n as nat) == decimal(m as nat) + acc@,
        decreases m,
    {
        let c = digit_of(m % 10);
        let ghost old_acc = acc@;
        acc.insert(0, c);
        assert(decimal(m as nat) == decimal((m / 10) as nat).push(c));
        assert(decimal(m as nat) + old_acc =~= decimal((m / 10) as nat) + acc@);
        m = m / 10;
    }
    let c = digit_of(m);
    let ghost old_acc = acc@;
    acc.insert(0, c);
    assert(acc@ =~= decimal(m as nat) + old_acc);
    string_of(acc.as_slice())
}


/// Copies the characters at positions `a` up to `b` of a vector.
pub fn sub_chars(v: &Vec<char>, a: usize, b: usize) -> (r: Vec<char>)
    requires
        a <= b <= v@.len(),
    ensures
        r@ == v@.subrange(a as int, b as int),
{
    let mut r: Vec<char> = Vec::new();
    let mut i: usize = a;
    while i < b
        invariant
            a <= i <= b <= v@.len(),
            r@ == v@.subrange(a as int, i as int),
        decreases b - i,
    {
        r.push(v[i]);
        i = i + 1;
        assert(r@ =~= v@.subrange(a as int, i as int));
    }
    r
}

/// A white-space character in the sense of Unicode's White_Space property,
/// which `char::is_whitespace` follows.
pub open spec fn is_space(c: char) -> bool {
    let u = c as u32;
    ||| 9 <= u <= 13
    ||| u == 32
    ||| u == 0x85
    ||| u == 0xA0
    ||| u == 0x1680
    ||| 0x2000 <= u <= 0x200A
    ||| u == 0x2028
    ||| u == 0x2029
    ||| u == 0x202F
    ||| u == 0x205F
    ||| u == 0x3000
}

/// Whether a character is white space.
pub fn is_space_char(c: char) -> (r: bool)
    ensures
        r == is_space(c),
{
    let u = c as u32;
    (9 <= u && u <= 13) || u == 32 || u == 0x85 || u == 0xA0 || u == 0x1680 || (0x2000 <= u && u
        <= 0x200A) || u == 0x2028 || u == 0x2029 || u == 0x202F || u == 0x205F || u == 0x3000
}

/// The position of the first non-space character from `i` on, or the
/// length when there is none.
pub open spec fn first_non_space_from(s: Seq<char>, i: int) -> int
    decreases s.len() - i,
{
    if i < 0 || i >= s.len() {
        s.len() as int
    } else if !is_space(s[i]) {
        i
    } else {
        first_non_space_from(s, i + 1)
    }
}

/// The position just after the last non-space character among the first
/// `n`, or zero when there is none.
pub open spec fn end_non_space(s: Seq<char>, n: int) -> int
    decreases n,
{
    if n <= 0 || n > s.len() {
        0
    } else if !is_space(s[n - 1]) {
        n
    } else {
        end_non_space(s, n - 1)
    }
}

/// A string without its leading and trailing white space, as `str::trim`
/// gives it.
pub open spec fn trim(s: Seq<char>) -> Seq<char> {
    let a = first_non_space_from(s, 0);
    if a >= s.len() {
        seq![]
    } else {
        s.subrange(a, end_non_space(s, s.len() as int))
    }
}

proof fn lemma_first_non_space_from(s: Seq<char>, i: int)
    requires
        0 <= i <= s.len(),
    ensures
        i <= first_non_space_from(s, i) <= s.len(),
        first_non_space_from(s, i) < s.len() ==> !is_space(s[first_non_space_from(s, i)]),
        forall|k: int| i <= k < first_non_space_from(s, i) ==> is_space(#[trigger] s[k]),
    decreases s.len() - i,
{
    if i < s.len() && is_space(s[i]) {
        lemma_first_non_space_from(s, i + 1);
    }
}

proof fn lemma_end_non_space(s: Seq<char>, n: int, k: int)
    requires
        0 <= k < n <= s.len(),
        !is_space(s[k]),
    ensures
        k < end_non_space(s, n) <= n,
        !is_space(s[end_non_space(s, n) - 1]),
        forall|j: int| end_non_space(s, n) <= j < n ==> is_space(#[trigger] s[j]),
    decreases n,
{
    if is_space(s[n - 1]) {
        lemma_end_non_space(s, n - 1, k);
    }
}

/// A trimmed string that is not empty starts and ends with a character
/// that is no white space.
pub proof fn lemma_trim_bounds(s: Seq<char>)
    ensures
        trim(s).len() > 0 ==> !is_space(trim(s)[0]) && !is_space(trim(s).last()),
{
    lemma_first_non_space_from(s, 0);
    let a = first_non_space_from(s, 0);
    if a < s.len() {
        lemma_end_non_space(s, s.len() as int, a);
        let b = end_non_space(s, s.len() as int);
        assert(trim(s)[0] == s[a]);
        assert(trim(s).last() == s[b - 1]);
    }
}

/// Removes leading and trailing white space, as `str::trim` does.
pub fn trim_chars(p: &Vec<char>) -> (r: Vec<char>)
    ensures
        r@ == trim(p@),
{
    let n = p.len();
    let mut a: usize = 0;
    while a < n && is_space_char(p[a])
        invariant
            n == p@.len(),
            a <= n,
            first_non_space_from(p@, 0) == first_non_space_from(p@, a as int),
        decreases n - a,
    {
        a = a + 1;
    }
    if a >= n {
        return Vec::new();
    }
    proof {
        lemma_end_non_space(p@, n as int, a as int);
    }
    let mut b: usize = n;
    while b > a + 1 && is_space_char(p[b - 1])
        invariant
            n == p@.len(),
            a < b <= n,
            !is_space(p@[a as int]),
            end_non_space(p@, n as int) == end_non_space(p@, b as int),
        decreases b,
    {
        b = b - 1;
    }
    sub_chars(p, a, b)
}

/// The position of the first occurrence of `sep` that starts at `i` or
/// later.
pub open spec fn find_from(s: Seq<char>, sep: Seq<char>, i: int) -> Option<int>
    decreases s.len() - i,
{
    if i < 0 || i >= s.len() || i + sep.len() > s.len() {
        None
    } else if s.subrange(i, i + sep.len()) == sep {
        Some(i)
    } else {
        find_from(s, sep, i + 1)
    }
}

/// The pieces of `s` from `i` on between the occurrences of a non-empty
/// `sep`, found from left to right without overlap, as `str::split` gives
/// them.
pub open spec fn split_from(s: Seq<char>, sep: Seq<char>, i: int) -> Seq<Seq<char>>
    decreases s.len() - i,
{
    if i < 0 || i > s.len() || sep.len() == 0 {
        seq![]
    } else {
        match find_from(s, sep, i) {
            Some(j) => if i <= j && j + sep.len() <= s.len() {
                seq![s.subrange(i, j)] + split_from(s, sep, j + sep.len())
            } else {
                seq![]
            },
            None => seq![s.subrange(i, s.len() as int)],
        }
    }
}

/// The pieces of `s` between the occurrences of a non-empty `sep`.
pub open spec fn split(s: Seq<char>, sep: Seq<char>) -> Seq<Seq<char>> {
    split_from(s, sep, 0)
}

/// The pieces joined back together with `sep` between them.
pub open spec fn join(parts: Seq<Seq<char>>, sep: Seq<char>) -> Seq<char>
    decreases parts.len(),
{
    if parts.len() == 0 {
        seq![]
    } else if parts.len() == 1 {
        parts[0]
    } else {
        parts[0] + sep + join(parts.drop_first(), sep)
    }
}

proof fn lemma_find_from(s: Seq<char>, sep: Seq<char>, i: int)
    requires
        0 <= i,
    ensures
        find_from(s, sep, i) matches Some(j) ==> i <= j && j + sep.len() <= s.len()
            && s.subrange(j, j + sep.len()) == sep,
    decreases s.len() - i,
{
    if i < s.len() && i + sep.len() <= s.len() && s.subrange(i, i + sep.len()) != sep {
        lemma_find_from(s, sep, i + 1);
    }
}

proof fn lemma_split_join_from(s: Seq<char>, sep: Seq<char>, i: int)
    requires
        0 <= i <= s.len(),
        sep.len() > 0,
    ensures
        split_from(s, sep, i).len() > 0,
        join(split_from(s, sep, i), sep) == s.subrange(i, s.len() as int),
    decreases s.len() - i,
{
    lemma_find_from(s, sep, i);
    match find_from(s, sep, i) {
        Some(j) => {
            lemma_split_join_from(s, sep, j + sep.len());
            let rest = split_from(s, sep, j + sep.len());
            let parts = split_from(s, sep, i);
            assert(parts =~= seq![s.subrange(i, j)] + rest);
            assert(parts.drop_first() =~= rest);
            assert(s.subrange(i, s.len() as int) =~= s.subrange(i, j) + sep + s.subrange(
                j + sep.len(),
                s.len() as int,
            ));
        },
        None => {},
    }
}

/// Splitting loses nothing: the pieces joined back together with the
/// separator give the string again.
pub proof fn law_split_then_join(s: Seq<char>, sep: Seq<char>)
    requires
        sep.len() > 0,
    ensures
        join(split(s, sep), sep) == s,
{
    lemma_split_join_from(s, sep, 0);
    assert(s.subrange(0, s.len() as int) =~= s);
}

proof fn lemma_find_from_first(s: Seq<char>, sep: Seq<char>, i: int)
    requires
        0 <= i,
        sep.len() > 0,
    ensures
        forall|k: int|
            i <= k && k + sep.len() <= s.len() && (match find_from(s, sep, i) {
                Some(j) => k < j,
                None => true,
            }) ==> #[trigger] s.subrange(k, k + sep.len()) != sep,
    decreases s.len() - i,
{
    if i < s.len() && i + sep.len() <= s.len() && s.subrange(i, i + sep.len()) != sep {
        lemma_find_from_first(s, sep, i + 1);
    }
}

proof fn lemma_split_from_free(s: Seq<char>, sep: Seq<char>, i: int)
    requires
        0 <= i <= s.len(),
        sep.len() > 0,
    ensures
        forall|p: int, k: int|
            0 <= p < split_from(s, sep, i).len() && 0 <= k && k + sep.len() <= split_from(
                s,
                sep,
                i,
            )[p].len() ==> #[trigger] split_from(s, sep, i)[p].subrange(k, k + sep.len()) != sep,
    decreases s.len() - i,
{
    lemma_find_from(s, sep, i);
    lemma_find_from_first(s, sep, i);
    let parts = split_from(s, sep, i);
    let head_end: int = match find_from(s, sep, i) {
        Some(j) => j,
        None => s.len() as int,
    };
    match find_from(s, sep, i) {
        Some(j) => {
            lemma_split_from_free(s, sep, j + sep.len());
        },
        None => {},
    }
    assert forall|p: int, k: int|
        0 <= p < parts.len() && 0 <= k && k + sep.len() <= parts[p].len() implies #[trigger] parts[p].subrange(
        k,
        k + sep.len(),
    ) != sep by {
        if p == 0 {
            assert(parts[0] == s.subrange(i, head_end));
            assert(parts[0].subrange(k, k + sep.len()) =~= s.subrange(i + k, i + k + sep.len()));
        } else {
            match find_from(s, sep, i) {
                Some(j) => {
                    assert(parts[p] == split_from(s, sep, j + sep.len())[p - 1]);
                },
                None => {},
            }
        }
    }
}

/// The pieces that splitting gives hold no occurrence of the separator;
/// with [`law_split_then_join`] this fixes them: they are the text between
/// the occurrences of `sep`.
pub proof fn law_split_pieces_free(s: Seq<char>, sep: Seq<char>)
    requires
        sep.len() > 0,
    ensures
        forall|p: int, k: int|
            0 <= p < split(s, sep).len() && 0 <= k && k + sep.len() <= split(s, sep)[p].len()
                ==> #[trigger] split(s, sep)[p].subrange(k, k + sep.len()) != sep,
{
    lemma_split_from_free(s, sep, 0);
}

/// Trimming removes exactly the white space at both ends: the result is
/// the part of `s` from `a` to `b`, where everything before `a` and from
/// `b` on is white space and, when the part is not empty, its first and
/// last characters are not.
pub proof fn law_trim_exact(s: Seq<char>)
    ensures
        exists|a: int, b: int|
            #![trigger s.subrange(a, b)]
            0 <= a <= b <= s.len() && trim(s) == s.subrange(a, b) && (forall|k: int|
                0 <= k < a ==> is_space(#[trigger] s[k])) && (forall|k: int|
                b <= k < s.len() ==> is_space(#[trigger] s[k])) && (a < b ==> !is_space(s[a])
                && !is_space(s[b - 1])),
{
    lemma_first_non_space_from(s, 0);
    let a = first_non_space_from(s, 0);
    if a < s.len() {
        lemma_end_non_space(s, s.len() as int, a);
        let b = end_non_space(s, s.len() as int);
        assert(trim(s) == s.subrange(a, b));
    } else {
        let n = s.len() as int;
        assert(trim(s) =~= s.subrange(n, n));
    }
}

/// The position of the first occurrence of `sep` at `i` or later.
pub fn find_chars(s: &Vec<char>, sep: &Vec<char>, i: usize) -> (r: Option<usize>)
    requires
        i <= s@.len(),
        sep@.len() > 0,
    ensures
        r matches Some(j) ==> find_from(s@, sep@, i as int) == Some(j as int),
        r is None ==> find_from(s@, sep@, i as int) is None,
        r matches Some(j) ==> i <= j && j + sep@.len() <= s@.len(),
{
    proof {
        lemma_find_from(s@, sep@, i as int);
    }
    let n = s.len();
    let m = sep.len();
    if m > n {
        return None;
    }
    let mut k: usize = i;
    while k <= n - m
        invariant
            n == s@.len(),
            m == sep@.len(),
            0 < m <= n,
            i <= k,
            find_from(s@, sep@, i as int) == find_from(s@, sep@, k as int),
        decreases n - k,
    {
        let mut t: usize = 0;
        while t < m && s[k + t] == sep[t]
            invariant
                k + m <= n,
                n == s@.len(),
                m == sep@.len(),
                t <= m,
                forall|x: int| 0 <= x < t ==> s@[k + x] == sep@[x],
            decreases m - t,
        {
            t = t + 1;
        }
        if t == m {
            assert(s@.subrange(k as int, k + m) =~= sep@);
            return Some(k);
        }
        assert(s@.subrange(k as int, k + m)[t as int] != sep@[t as int]);
        k = k + 1;
    }
    None
}


/// `s` begins with `p`.
pub open spec fn starts_with(s: Seq<char>, p: Seq<char>) -> bool {
    p.len() <= s.len() && s.subrange(0, p.len() as int) == p
}

/// Whether `s` begins with `p`, as `str::starts_with` tells.
pub fn str_starts_with(s: &str, p: &str) -> (r: bool)
    ensures
        r == starts_with(s@, p@),
{
    let a = chars_of(s);
    let b = chars_of(p);
    if b.len() > a.len() {
        return false;
    }
    let mut i: usize = 0;
    while i < b.len()
        invariant
            a@ == s@,
            b@ == p@,
            b@.len() <= a@.len(),
            i <= b@.len(),
            forall|k: int| 0 <= k < i ==> a@[k] == b@[k],
        decreases b@.len() - i,
    {
        if a[i] != b[i] {
            assert(a@.subrange(0, b@.len() as int)[i as int] != b@[i as int]);
            return false;
        }
        i = i + 1;
    }
    assert(a@.subrange(0, b@.len() as int) =~= b@);
    true
}

/// The lower-case hexadecimal digit for a value below sixteen.
pub open spec fn hex_digit(v: int) -> char {
    if v < 10 {
        digit_char(v)
    } else if v == 10 {
        'a'
    } else if v == 11 {
        'b'
    } else if v == 12 {
        'c'
    } else if v == 13 {
        'd'
    } else if v == 14 {
        'e'
    } else {
        'f'
    }
}

/// Bytes in lower-case hexadecimal, two digits per byte, high digit first.
pub open spec fn hex_lower(b: Seq<u8>) -> Seq<char>
    decreases b.len(),
{
    if b.len() == 0 {
        seq![]
    } else {
        hex_lower(b.drop_last()) + seq![
            hex_digit(b.last() as int / 16),
            hex_digit(b.last() as int % 16),
        ]
    }
}

/// The lower-case hexadecimal digit for `v`, which is below sixteen.
pub fn hex_digit_of(v: u8) -> (c: char)
    requires
        v < 16,
    ensures
        c == hex_digit(v as int),
{
    if v < 10 {
        digit_of(v as usize)
    } else if v == 10 {
        'a'
    } else if v == 11 {
        'b'
    } else if v == 12 {
        'c'
    } else if v == 13 {
        'd'
    } else if v == 14 {
        'e'
    } else {
        'f'
    }
}

/// Renders bytes in lower-case hexadecimal.
pub fn to_hex_lower(b: &[u8]) -> (r: String)
    ensures
        r@ == hex_lower(b@),
{
    let mut out: Vec<char> = Vec::new();
    let mut i: usize = 0;
    while i < b.len()
        invariant
            i <= b@.len(),
            out@ == hex_lower(b@.take(i as int)),
        decreases b@.len() - i,
    {
        let x = b[i];
        out.push(hex_digit_of(x / 16));
        out.push(hex_digit_of(x % 16));
        assert(b@.take(i + 1).drop_last() =~= b@.take(i as int));
        assert(out@ =~= hex_lower(b@.take(i + 1)));
        i = i + 1;
    }
    assert(b@.take(b@.len() as int) =~= b@);
    string_of(out.as_slice())
}


/// Hexadecimal takes two digits per byte.
pub proof fn lemma_hex_lower_len(b: Seq<u8>)
    ensures
        hex_lower(b).len() == 2 * b.len(),
    decreases b.len(),
{
    if b.len() > 0 {
        lemma_hex_lower_len(b.drop_last());
    }
}

/// The number that a string of decimal digits stands for.
pub open spec fn digits_value(s: Seq<char>) -> int
    decreases s.len(),
{
    if s.len() == 0 {
        0
    } else {
        digits_value(s.drop_last()) * 10 + (s.last() as u32 - 48)
    }
}

/// Rendering in decimal gives digits `0` to `9` that stand for the number,
/// with no leading zero: the first digit is `0` only for zero itself.
pub proof fn law_decimal_reads_back(n: nat)
    ensures
        digits_value(decimal(n)) == n,
        decimal(n).len() > 0,
        forall|i: int|
            0 <= i < decimal(n).len() ==> 48 <= #[trigger] decimal(n)[i] as u32 <= 57,
        decimal(n)[0] == '0' ==> n == 0,
    decreases n,
{
    let c = digit_char((n % 10) as int);
    assert(c as u32 == 48 + n % 10);
    if n >= 10 {
        law_decimal_reads_back(n / 10);
        let d = decimal(n / 10);
        assert(decimal(n).drop_last() =~= d);
        assert(decimal(n).last() == c);
        assert(n == (n / 10) * 10 + n % 10) by (nonlinear_arith);
        assert(digits_value(decimal(n)) == digits_value(d) * 10 + (c as u32 - 48));
        assert(decimal(n)[0] == d[0]);
        assert forall|i: int| 0 <= i < decimal(n).len() implies 48 <= #[trigger] decimal(
            n,
        )[i] as u32 <= 57 by {
            if i < d.len() {
                assert(decimal(n)[i] == d[i]);
            }
        }
    } else {
        assert(decimal(n).drop_last() =~= Seq::<char>::empty());
        assert(digits_value(Seq::<char>::empty()) == 0);
        assert(decimal(n).last() == c);
        assert(digits_value(decimal(n)) == (c as u32 - 48));
    }
}

/// Each byte gives two lower-case hexadecimal digits, high digit first:
/// the digits at `2i` and `2i + 1` stand for the byte at `i`.
pub proof fn law_hex_lower_digits(b: Seq<u8>)
    ensures
        hex_lower(b).len() == 2 * b.len(),
        forall|i: int|
            0 <= i < b.len() ==> #[trigger] hex_lower(b)[2 * i] == hex_digit(b[i] as int / 16)
                && hex_lower(b)[2 * i + 1] == hex_digit(b[i] as int % 16),
    decreases b.len(),
{
    lemma_hex_lower_len(b);
    if b.len() > 0 {
        law_hex_lower_digits(b.drop_last());
        lemma_hex_lower_len(b.drop_last());
        assert forall|i: int| 0 <= i < b.len() implies #[trigger] hex_lower(b)[2 * i]
            == hex_digit(b[i] as int / 16) && hex_lower(b)[2 * i + 1] == hex_digit(
            b[i] as int % 16,
        ) by {
            if i < b.len() - 1 {
                assert(b.drop_last()[i] == b[i]);
                assert(hex_lower(b)[2 * i] == hex_lower(b.drop_last())[2 * i]);
                assert(hex_lower(b)[2 * i + 1] == hex_lower(b.drop_last())[2 * i + 1]);
            }
        }
    }
}

} // verus!
