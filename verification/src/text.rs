//! Text primitives shared by the library: character access, whitespace,
//! byte-wise ordering, hexadecimal and decimal rendering, and splitting and
//! joining on a separator character.
use vstd::prelude::*;
use vstd::string::*;

verus! {

/// Unicode `White_Space`: the characters that `char::is_whitespace` accepts and
/// that `str::trim` removes.
pub open spec fn is_white_space(c: char) -> bool {
    let u = c as u32;
    ||| (0x09 <= u && u <= 0x0d)
    ||| u == 0x20
    ||| u == 0x85
    ||| u == 0xa0
    ||| u == 0x1680
    ||| (0x2000 <= u && u <= 0x200a)
    ||| u == 0x2028
    ||| u == 0x2029
    ||| u == 0x202f
    ||| u == 0x205f
    ||| u == 0x3000
}

/// A text is blank when trimming it leaves nothing: every character is white space.
pub open spec fn is_blank(s: Seq<char>) -> bool {
    forall|i: int| 0 <= i < s.len() ==> is_white_space(#[trigger] s[i])
}

/// Byte-wise lexicographic order, the order of `str` comparison.
pub open spec fn bytes_less(a: Seq<u8>, b: Seq<u8>) -> bool
    decreases a.len(),
{
    if b.len() == 0 {
        false
    } else if a.len() == 0 {
        true
    } else if a[0] != b[0] {
        a[0] < b[0]
    } else {
        bytes_less(a.drop_first(), b.drop_first())
    }
}

/// The lowercase hexadecimal digit of a value below 16.
pub open spec fn hex_digit(n: u8) -> char {
    if n < 10 {
        (48 + n) as char
    } else {
        (87 + n) as char
    }
}

/// Two lowercase hexadecimal digits of a byte, as `{:02x}` renders it.
pub open spec fn hex_pair(b: u8) -> Seq<char> {
    seq![hex_digit(b / 16), hex_digit(b % 16)]
}

/// Lowercase hexadecimal rendering of a byte string, two digits per byte.
pub open spec fn hex_text(bytes: Seq<u8>) -> Seq<char>
    decreases bytes.len(),
{
    if bytes.len() == 0 {
        Seq::empty()
    } else {
        hex_text(bytes.drop_last()) + hex_pair(bytes.last())
    }
}

/// Decimal rendering of a natural number, as `{}` renders an unsigned integer.
pub open spec fn decimal_text(n: nat) -> Seq<char>
    decreases n,
{
    if n < 10 {
        seq![(48 + n) as char]
    } else {
        decimal_text(n / 10).push((48 + n % 10) as char)
    }
}

/// The pieces of `s` between occurrences of `sep`, as `str::split` yields them:
/// `k` separators give `k + 1` pieces, some of them possibly empty.
pub open spec fn split_on(s: Seq<char>, sep: char) -> Seq<Seq<char>>
    decreases s.len(),
{
    if s.len() == 0 {
        seq![Seq::empty()]
    } else {
        let prev = split_on(s.drop_last(), sep);
        if s.last() == sep {
            prev.push(Seq::empty())
        } else {
            prev.update(prev.len() - 1, prev.last().push(s.last()))
        }
    }
}

/// The pieces joined with `sep` between consecutive ones, as `[..].join(sep)`.
pub open spec fn join_with(parts: Seq<Seq<char>>, sep: char) -> Seq<char>
    decreases parts.len(),
{
    if parts.len() == 0 {
        Seq::empty()
    } else if parts.len() == 1 {
        parts[0]
    } else {
        join_with(parts.drop_last(), sep) + seq![sep] + parts.last()
    }
}

/// No character of `s` is `c`.
pub open spec fn free_of(s: Seq<char>, c: char) -> bool {
    forall|i: int| 0 <= i < s.len() ==> #[trigger] s[i] != c
}

/// The text `a`, then `b`.
pub fn concat2(a: &str, b: &str) -> (r: String)
    ensures
        r@ == a@ + b@,
{
    let mut out = a.to_owned();
    push_text(&mut out, b);
    out
}

/// The text `a`, then `b`, then `c`.
pub fn concat3(a: &str, b: &str, c: &str) -> (r: String)
    ensures
        r@ == a@ + b@ + c@,
{
    let mut out = a.to_owned();
    push_text(&mut out, b);
    push_text(&mut out, c);
    out
}

/// Owned copies of a list of texts.
pub fn owned_texts(items: &[&str]) -> (v: Vec<String>)
    ensures
        v.deep_view() == items@.map_values(|s: &str| s@),
{
    let mut v: Vec<String> = Vec::new();
    let mut i: usize = 0;
    while i < items.len()
        invariant
            i <= items@.len(),
            v.deep_view() == items@.subrange(0, i as int).map_values(|s: &str| s@),
        decreases items.len() - i,
    {
        let ghost before = v.deep_view();
        v.push(items[i].to_owned());
        assert(v.deep_view() =~= before.push(items@[i as int]@));
        assert(items@.subrange(0, i + 1).drop_last() =~= items@.subrange(0, i as int));
        i = i + 1;
        assert(v.deep_view() =~= items@.subrange(0, i as int).map_values(|s: &str| s@));
    }
    assert(items@.subrange(0, items@.len() as int) =~= items@);
    v
}

/// The characters of a text.
pub fn chars_of(s: &str) -> (v: Vec<char>)
    ensures
        v@ == s@,
{
    let n = s.unicode_len();
    let mut v: Vec<char> = Vec::new();
    let mut i: usize = 0;
    while i < n
        invariant
            n == s@.len(),
            i <= n,
            v@ == s@.subrange(0, i as int),
        decreases n - i,
    {
        let c = s.get_char(i);
        v.push(c);
        i = i + 1;
        assert(v@ =~= s@.subrange(0, i as int));
    }
    assert(v@ =~= s@);
    v
}

/// Whether no character of `s` is `c`.
pub fn text_free_of(s: &str, c: char) -> (r: bool)
    ensures
        r == free_of(s@, c),
{
    let cs = chars_of(s);
    let mut i: usize = 0;
    while i < cs.len()
        invariant
            cs@ == s@,
            i <= cs@.len(),
            forall|j: int| 0 <= j < i ==> #[trigger] cs@[j] != c,
        decreases cs.len() - i,
    {
        if cs[i] == c {
            return false;
        }
        i = i + 1;
    }
    true
}

/// Whether two character sequences are equal.
pub fn chars_equal(a: &Vec<char>, b: &Vec<char>) -> (r: bool)
    ensures
        r == (a@ == b@),
{
    if a.len() != b.len() {
        return false;
    }
    let mut i: usize = 0;
    while i < a.len()
        invariant
            a@.len() == b@.len(),
            i <= a@.len(),
            forall|j: int| 0 <= j < i ==> a@[j] == b@[j],
        decreases a.len() - i,
    {
        if a[i] != b[i] {
            return false;
        }
        i = i + 1;
    }
    assert(a@ =~= b@);
    true
}

/// Whether two texts are equal.
pub fn text_equal(a: &str, b: &str) -> (r: bool)
    ensures
        r == (a@ == b@),
{
    let ca = chars_of(a);
    let cb = chars_of(b);
    chars_equal(&ca, &cb)
}

/// Whether a text is blank (`s.trim().is_empty()`).
pub fn text_is_blank(s: &str) -> (r: bool)
    ensures
        r == is_blank(s@),
{
    let cs = chars_of(s);
    let mut i: usize = 0;
    while i < cs.len()
        invariant
            cs@ == s@,
            i <= cs@.len(),
            forall|j: int| 0 <= j < i ==> is_white_space(#[trigger] cs@[j]),
        decreases cs.len() - i,
    {
        let u = cs[i] as u32;
        let white = (0x09 <= u && u <= 0x0d) || u == 0x20 || u == 0x85 || u == 0xa0 || u
            == 0x1680 || (0x2000 <= u && u <= 0x200a) || u == 0x2028 || u == 0x2029 || u
            == 0x202f || u == 0x205f || u == 0x3000;
        if !white {
            assert(!is_white_space(s@[i as int]));
            return false;
        }
        i = i + 1;
    }
    true
}

proof fn lemma_bytes_less_skip(a: Seq<u8>, b: Seq<u8>, i: int)
    requires
        0 <= i <= a.len(),
        i <= b.len(),
        forall|j: int| 0 <= j < i ==> a[j] == b[j],
    ensures
        bytes_less(a, b) == bytes_less(a.skip(i), b.skip(i)),
    decreases i,
{
    if i > 0 {
        lemma_bytes_less_skip(a.drop_first(), b.drop_first(), i - 1);
        assert(a.drop_first().skip(i - 1) =~= a.skip(i));
        assert(b.drop_first().skip(i - 1) =~= b.skip(i));
    } else {
        assert(a.skip(0) =~= a);
        assert(b.skip(0) =~= b);
    }
}

/// Whether `a` comes before `b` in byte-wise lexicographic order (`a < b` on `str`).
pub fn text_less(a: &str, b: &str) -> (r: bool)
    ensures
        r == bytes_less(a.spec_bytes(), b.spec_bytes()),
{
    let x = a.as_bytes();
    let y = b.as_bytes();
    let mut i: usize = 0;
    while i < x.len() && i < y.len() && x[i] == y[i]
        invariant
            x@ == a.spec_bytes(),
            y@ == b.spec_bytes(),
            i <= x@.len(),
            i <= y@.len(),
            forall|j: int| 0 <= j < i ==> x@[j] == y@[j],
        decreases x@.len() - i,
    {
        i = i + 1;
    }
    proof {
        lemma_bytes_less_skip(x@, y@, i as int);
        if i < x@.len() && i < y@.len() {
            assert(x@.skip(i as int)[0] == x@[i as int]);
            assert(y@.skip(i as int)[0] == y@[i as int]);
        }
    }
    if i == y.len() {
        false
    } else if i == x.len() {
        true
    } else {
        x[i] < y[i]
    }
}

/// The lowercase hexadecimal digit of a value below 16, as a text.
pub fn hex_digit_text(n: u8) -> (s: &'static str)
    requires
        n < 16,
    ensures
        s@ == seq![hex_digit(n)],
{
    match n {
        0 => {
            proof {
                reveal_strlit("0");
            }
            "0"
        },
        1 => {
            proof {
                reveal_strlit("1");
            }
            "1"
        },
        2 => {
            proof {
                reveal_strlit("2");
            }
            "2"
        },
        3 => {
            proof {
                reveal_strlit("3");
            }
            "3"
        },
        4 => {
            proof {
                reveal_strlit("4");
            }
            "4"
        },
        5 => {
            proof {
                reveal_strlit("5");
            }
            "5"
        },
        6 => {
            proof {
                reveal_strlit("6");
            }
            "6"
        },
        7 => {
            proof {
                reveal_strlit("7");
            }
            "7"
        },
        8 => {
            proof {
                reveal_strlit("8");
            }
            "8"
        },
        9 => {
            proof {
                reveal_strlit("9");
            }
            "9"
        },
        10 => {
            proof {
                reveal_strlit("a");
            }
            "a"
        },
        11 => {
            proof {
                reveal_strlit("b");
            }
            "b"
        },
        12 => {
            proof {
                reveal_strlit("c");
            }
            "c"
        },
        13 => {
            proof {
                reveal_strlit("d");
            }
            "d"
        },
        14 => {
            proof {
                reveal_strlit("e");
            }
            "e"
        },
        15 => {
            proof {
                reveal_strlit("f");
            }
            "f"
        },
        _ => {
            proof {
                reveal_strlit("f");
            }
            "f"
        },
    }
}

/// The decimal digit of a value below 10, as a text.
fn decimal_digit_text(n: usize) -> (s: &'static str)
    requires
        n < 10,
    ensures
        s@ == seq![(48 + n) as char],
{
    match n {
        0 => {
            proof {
                reveal_strlit("0");
            }
            "0"
        },
        1 => {
            proof {
                reveal_strlit("1");
            }
            "1"
        },
        2 => {
            proof {
                reveal_strlit("2");
            }
            "2"
        },
        3 => {
            proof {
                reveal_strlit("3");
            }
            "3"
        },
        4 => {
            proof {
                reveal_strlit("4");
            }
            "4"
        },
        5 => {
            proof {
                reveal_strlit("5");
            }
            "5"
        },
        6 => {
            proof {
                reveal_strlit("6");
            }
            "6"
        },
        7 => {
            proof {
                reveal_strlit("7");
            }
            "7"
        },
        8 => {
            proof {
                reveal_strlit("8");
            }
            "8"
        },
        9 => {
            proof {
                reveal_strlit("9");
            }
            "9"
        },
        _ => {
            proof {
                reveal_strlit("9");
            }
            "9"
        },
    }
}

/// Appends the lowercase hexadecimal rendering of `bytes` to `out`.
pub fn push_hex(out: &mut String, bytes: &[u8])
    ensures
        final(out)@ == old(out)@ + hex_text(bytes@),
{
    let ghost start = out@;
    let mut i: usize = 0;
    assert(bytes@.subrange(0, 0) =~= Seq::<u8>::empty());
    while i < bytes.len()
        invariant
            i <= bytes@.len(),
            out@ == start + hex_text(bytes@.subrange(0, i as int)),
        decreases bytes.len() - i,
    {
        let b = bytes[i];
        push_text(out, hex_digit_text(b / 16));
        push_text(out, hex_digit_text(b % 16));
        proof {
            let next = bytes@.subrange(0, i + 1);
            assert(next.drop_last() =~= bytes@.subrange(0, i as int));
            assert(next.last() == b);
        }
        i = i + 1;
        assert(out@ =~= start + hex_text(bytes@.subrange(0, i as int)));
    }
    assert(bytes@.subrange(0, bytes@.len() as int) =~= bytes@);
}

/// Appends the decimal rendering of `n` to `out`.
pub fn push_decimal(out: &mut String, n: usize)
    ensures
        final(out)@ == old(out)@ + decimal_text(n as nat),
    decreases n,
{
    if n < 10 {
        push_text(out, decimal_digit_text(n));
        assert(out@ =~= old(out)@ + decimal_text(n as nat));
    } else {
        push_decimal(out, n / 10);
        push_text(out, decimal_digit_text(n % 10));
        assert(out@ =~= old(out)@ + decimal_text(n as nat));
    }
}

/// Appends the characters of `s` to `out`.
pub fn push_text(out: &mut String, s: &str)
    ensures
        final(out)@ == old(out)@ + s@,
{
    out.append(s);
}

/// Splits `s` at every `sep`, as `str::split` does.
pub fn split_chars(s: &Vec<char>, sep: char) -> (parts: Vec<Vec<char>>)
    ensures
        parts@.len() == split_on(s@, sep).len(),
        forall|j: int| 0 <= j < parts@.len() ==> #[trigger] parts@[j]@ == split_on(s@, sep)[j],
{
    let mut parts: Vec<Vec<char>> = Vec::new();
    let mut cur: Vec<char> = Vec::new();
    let mut i: usize = 0;
    assert(s@.subrange(0, 0) =~= Seq::<char>::empty());
    while i < s.len()
        invariant
            i <= s@.len(),
            parts@.len() + 1 == split_on(s@.subrange(0, i as int), sep).len(),
            forall|j: int|
                0 <= j < parts@.len() ==> #[trigger] parts@[j]@ == split_on(
                    s@.subrange(0, i as int),
                    sep,
                )[j],
            cur@ == split_on(s@.subrange(0, i as int), sep).last(),
        decreases s.len() - i,
    {
        let c = s[i];
        let ghost prefix = s@.subrange(0, i as int);
        let ghost next = s@.subrange(0, i + 1);
        assert(next.drop_last() =~= prefix);
        assert(next.last() == c);
        if c == sep {
            let done = cur;
            parts.push(done);
            cur = Vec::new();
            assert(cur@ =~= Seq::<char>::empty());
        } else {
            cur.push(c);
        }
        i = i + 1;
        assert(forall|j: int|
            0 <= j < parts@.len() ==> #[trigger] parts@[j]@ == split_on(
                s@.subrange(0, i as int),
                sep,
            )[j]);
    }
    assert(s@.subrange(0, s@.len() as int) =~= s@);
    parts.push(cur);
    parts
}

// ---------------------------------------------------------------- lemmas

/// Splitting never yields an empty list of pieces.
pub proof fn lemma_split_nonempty(s: Seq<char>, sep: char)
    ensures
        split_on(s, sep).len() >= 1,
    decreases s.len(),
{
    if s.len() > 0 {
        lemma_split_nonempty(s.drop_last(), sep);
    }
}

/// A text that splits into a single piece holds no separator.
pub proof fn lemma_split_single_free(s: Seq<char>, sep: char)
    requires
        split_on(s, sep).len() == 1,
    ensures
        free_of(s, sep),
    decreases s.len(),
{
    if s.len() > 0 {
        let p = s.drop_last();
        lemma_split_nonempty(p, sep);
        assert(s.last() != sep);
        lemma_split_single_free(p, sep);
        assert forall|i: int| 0 <= i < s.len() implies #[trigger] s[i] != sep by {
            if i < s.len() - 1 {
                assert(s[i] == p[i]);
            }
        }
    }
}

/// Splitting `a`, a separator, then `b` gives the pieces of `a` followed by those of `b`.
pub proof fn lemma_split_around_sep(a: Seq<char>, b: Seq<char>, sep: char)
    ensures
        split_on(a + seq![sep] + b, sep) == split_on(a, sep) + split_on(b, sep),
    decreases b.len(),
{
    let s = a + seq![sep] + b;
    lemma_split_nonempty(a, sep);
    if b.len() == 0 {
        assert(s.drop_last() =~= a);
        assert(s.last() == sep);
        assert(split_on(b, sep) =~= seq![Seq::<char>::empty()]);
        assert(split_on(s, sep) =~= split_on(a, sep) + split_on(b, sep));
    } else {
        let b1 = b.drop_last();
        lemma_split_around_sep(a, b1, sep);
        lemma_split_nonempty(b1, sep);
        assert(s.drop_last() =~= a + seq![sep] + b1);
        assert(s.last() == b.last());
        let pa = split_on(a, sep);
        let pb = split_on(b1, sep);
        if b.last() == sep {
            assert(split_on(s, sep) =~= pa + split_on(b, sep));
        } else {
            assert((pa + pb).last() == pb.last());
            assert(split_on(s, sep) =~= pa + split_on(b, sep));
        }
    }
}

/// A text without the separator splits into itself alone.
pub proof fn lemma_split_free(s: Seq<char>, sep: char)
    requires
        free_of(s, sep),
    ensures
        split_on(s, sep) == seq![s],
    decreases s.len(),
{
    if s.len() > 0 {
        let p = s.drop_last();
        assert(free_of(p, sep));
        lemma_split_free(p, sep);
        assert(s.last() != sep);
        assert(s =~= p.push(s.last()));
        assert(split_on(s, sep) =~= seq![s]);
    } else {
        assert(s =~= Seq::<char>::empty());
        assert(split_on(s, sep) =~= seq![s]);
    }
}

/// Joining pieces free of the separator and splitting again gives the pieces back.
pub proof fn lemma_split_join(parts: Seq<Seq<char>>, sep: char)
    requires
        parts.len() >= 1,
        forall|i: int| 0 <= i < parts.len() ==> free_of(#[trigger] parts[i], sep),
    ensures
        split_on(join_with(parts, sep), sep) == parts,
    decreases parts.len(),
{
    if parts.len() == 1 {
        lemma_split_free(parts[0], sep);
        assert(split_on(join_with(parts, sep), sep) =~= parts);
    } else {
        let init = parts.drop_last();
        assert(forall|i: int| 0 <= i < init.len() ==> free_of(#[trigger] init[i], sep)) by {
            assert forall|i: int| 0 <= i < init.len() implies free_of(#[trigger] init[i], sep) by {
                assert(init[i] == parts[i]);
            }
        }
        lemma_split_join(init, sep);
        lemma_split_around_sep(join_with(init, sep), parts.last(), sep);
        assert(free_of(parts[parts.len() - 1], sep));
        lemma_split_free(parts.last(), sep);
        assert(split_on(join_with(parts, sep), sep) =~= parts);
    }
}

/// Hexadecimal digits are never `c` when `c` is not a hexadecimal digit.
pub proof fn lemma_hex_free(bytes: Seq<u8>, c: char)
    requires
        !(('0' <= c && c <= '9') || ('a' <= c && c <= 'f')),
    ensures
        free_of(hex_text(bytes), c),
    decreases bytes.len(),
{
    if bytes.len() > 0 {
        lemma_hex_free(bytes.drop_last(), c);
        let h = hex_text(bytes);
        let p = hex_text(bytes.drop_last());
        let q = hex_pair(bytes.last());
        assert(h == p + q);
        assert forall|i: int| 0 <= i < h.len() implies #[trigger] h[i] != c by {
            if i < p.len() {
                assert(h[i] == p[i]);
            } else {
                assert(h[i] == q[i - p.len()]);
            }
        }
    }
}

/// A lowercase hexadecimal digit: `0`-`9` or `a`-`f`.
pub open spec fn is_lower_hex_digit(c: char) -> bool {
    ('0' <= c && c <= '9') || ('a' <= c && c <= 'f')
}

/// Every character of `s` is a lowercase hexadecimal digit.
pub open spec fn is_lower_hex(s: Seq<char>) -> bool {
    forall|i: int| 0 <= i < s.len() ==> is_lower_hex_digit(#[trigger] s[i])
}

/// Hexadecimal rendering uses lowercase hexadecimal digits only.
pub proof fn lemma_hex_digits(bytes: Seq<u8>)
    ensures
        is_lower_hex(hex_text(bytes)),
    decreases bytes.len(),
{
    if bytes.len() > 0 {
        lemma_hex_digits(bytes.drop_last());
        let h = hex_text(bytes);
        let p = hex_text(bytes.drop_last());
        let q = hex_pair(bytes.last());
        assert(h == p + q);
        assert forall|i: int| 0 <= i < h.len() implies is_lower_hex_digit(#[trigger] h[i]) by {
            if i < p.len() {
                assert(h[i] == p[i]);
            } else {
                assert(h[i] == q[i - p.len()]);
            }
        }
    }
}

/// Hexadecimal rendering takes two digits per byte.
pub proof fn lemma_hex_len(bytes: Seq<u8>)
    ensures
        hex_text(bytes).len() == 2 * bytes.len(),
    decreases bytes.len(),
{
    if bytes.len() > 0 {
        lemma_hex_len(bytes.drop_last());
    }
}

proof fn lemma_hex_digit_injective(x: u8, y: u8)
    requires
        x < 16,
        y < 16,
        hex_digit(x) == hex_digit(y),
    ensures
        x == y,
{
}

/// Distinct byte strings have distinct hexadecimal renderings.
pub proof fn lemma_hex_injective(a: Seq<u8>, b: Seq<u8>)
    requires
        hex_text(a) == hex_text(b),
    ensures
        a == b,
    decreases a.len(),
{
    lemma_hex_len(a);
    lemma_hex_len(b);
    if a.len() > 0 {
        let ha = hex_text(a.drop_last());
        let hb = hex_text(b.drop_last());
        lemma_hex_len(a.drop_last());
        lemma_hex_len(b.drop_last());
        let n = ha.len() as int;
        assert(hex_text(a)[n] == hex_pair(a.last())[0]);
        assert(hex_text(b)[n] == hex_pair(b.last())[0]);
        assert(hex_text(a)[n + 1] == hex_pair(a.last())[1]);
        assert(hex_text(b)[n + 1] == hex_pair(b.last())[1]);
        lemma_hex_digit_injective(a.last() / 16, b.last() / 16);
        lemma_hex_digit_injective(a.last() % 16, b.last() % 16);
        assert(a.last() == b.last());
        assert(ha =~= hex_text(a).subrange(0, n));
        assert(hb =~= hex_text(b).subrange(0, n));
        lemma_hex_injective(a.drop_last(), b.drop_last());
        assert(a =~= a.drop_last().push(a.last()));
        assert(b =~= b.drop_last().push(b.last()));
    } else {
        assert(a =~= b);
    }
}

} // verus!
