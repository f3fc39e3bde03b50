//! Text handling of the sessions: trimming input lines, lower-casing them,
//! writing counters in decimal, and making file names.
use vstd::prelude::*;

verus! {

// ---------------------------------------------------------------------------
// Whitespace and trimming.

/// The characters with the Unicode White_Space property: tab through
/// carriage return, space, next line, no-break space, ogham space mark, the
/// spaces from en quad to hair space, line and paragraph separators, narrow
/// no-break space, medium mathematical space and ideographic space.
pub open spec fn is_white_space(c: char) -> bool {
    let u = c as u32;
    ||| 0x9 <= u <= 0xd
    ||| u == 0x20
    ||| u == 0x85
    ||| u == 0xa0
    ||| u == 0x1680
    ||| 0x2000 <= u <= 0x200a
    ||| u == 0x2028
    ||| u == 0x2029
    ||| u == 0x202f
    ||| u == 0x205f
    ||| u == 0x3000
}

/// `s` without its leading whitespace.
pub open spec fn trim_start_spec(s: Seq<char>) -> Seq<char>
    decreases s.len(),
{
    if s.len() > 0 && is_white_space(s[0]) {
        trim_start_spec(s.drop_first())
    } else {
        s
    }
}

/// `s` without its trailing whitespace.
pub open spec fn trim_end_spec(s: Seq<char>) -> Seq<char>
    decreases s.len(),
{
    if s.len() > 0 && is_white_space(s.last()) {
        trim_end_spec(s.drop_last())
    } else {
        s
    }
}

/// `s` without leading and trailing whitespace.
pub open spec fn trim_spec(s: Seq<char>) -> Seq<char> {
    trim_end_spec(trim_start_spec(s))
}

/// Whether `c` is whitespace (Unicode White_Space).
pub fn is_white_space_char(c: char) -> (b: bool)
    ensures
        b == is_white_space(c),
{
    let u = c as u32;
    (0x9 <= u && u <= 0xd) || u == 0x20 || u == 0x85 || u == 0xa0 || u == 0x1680 || (0x2000 <= u
        && u <= 0x200a) || u == 0x2028 || u == 0x2029 || u == 0x202f || u == 0x205f || u == 0x3000
}

/// `s` with leading and trailing whitespace removed.
pub fn trim(s: &str) -> (t: &str)
    ensures
        t@ == trim_spec(s@),
{
    let n = s.unicode_len();
    let mut i: usize = 0;
    assert(s@.subrange(0, n as int) =~= s@);
    while i < n && is_white_space_char(s.get_char(i))
        invariant
            n == s@.len(),
            i <= n,
            trim_start_spec(s@) == trim_start_spec(s@.subrange(i as int, n as int)),
        decreases n - i,
    {
        assert(s@.subrange(i as int, n as int).drop_first() =~= s@.subrange(i + 1, n as int));
        i = i + 1;
    }
    assert(trim_start_spec(s@) == s@.subrange(i as int, n as int));
    let mut j: usize = n;
    while j > i && is_white_space_char(s.get_char(j - 1))
        invariant
            n == s@.len(),
            i <= j <= n,
            trim_spec(s@) == trim_end_spec(s@.subrange(i as int, j as int)),
        decreases j,
    {
        assert(s@.subrange(i as int, j as int).drop_last() =~= s@.subrange(i as int, j - 1));
        j = j - 1;
    }
    s.substring_char(i, j)
}

// ---------------------------------------------------------------------------
// Lower case.

/// The lower-case form of `s` that `str::to_lowercase` gives (Unicode's
/// lowercase mapping, which is not stated here).
pub uninterp spec fn lowercase(s: Seq<char>) -> Seq<char>;

/// Calls `str::to_lowercase`. Its documentation defines the result by the
/// Unicode Lowercase property of each character, a table that is not written
/// out here: the contract names the result `lowercase(s)`, a function of the
/// characters of `s` alone.
#[verifier::external_body]
pub(crate) fn to_lowercase(s: &str) -> (lower: String)
    ensures
        lower@ == lowercase(s@),
{
    s.to_lowercase()
}

// ---------------------------------------------------------------------------
// Decimal numbers and padding.

/// The character of the decimal digit `d`.
pub open spec fn digit_char(d: nat) -> char {
    (48 + d) as char
}

/// `n` written in decimal, without leading zeros.
pub open spec fn decimal(n: nat) -> Seq<char>
    decreases n,
{
    if n < 10 {
        seq![digit_char(n)]
    } else {
        decimal(n / 10).push(digit_char(n % 10))
    }
}

/// `s` preceded by as many '0' as it takes to be `width` characters long.
pub open spec fn zero_padded(s: Seq<char>, width: nat) -> Seq<char> {
    if s.len() >= width {
        s
    } else {
        Seq::new((width - s.len()) as nat, |i: int| '0') + s
    }
}

/// The one-character string of the decimal digit `d`.
fn digit_str(d: usize) -> (s: &'static str)
    requires
        d < 10,
    ensures
        s@ == seq![digit_char(d as nat)],
{
    proof {
        reveal_strlit("0");
        reveal_strlit("1");
        reveal_strlit("2");
        reveal_strlit("3");
        reveal_strlit("4");
        reveal_strlit("5");
        reveal_strlit("6");
        reveal_strlit("7");
        reveal_strlit("8");
        reveal_strlit("9");
    }
    match d {
        0 => "0",
        1 => "1",
        2 => "2",
        3 => "3",
        4 => "4",
        5 => "5",
        6 => "6",
        7 => "7",
        8 => "8",
        _ => "9",
    }
}

/// `n` written in decimal, as `format!("{}", n)` writes it.
pub fn format_decimal(n: usize) -> (s: String)
    ensures
        s@ == decimal(n as nat),
    decreases n,
{
    if n < 10 {
        String::from_str(digit_str(n))
    } else {
        let mut s = format_decimal(n / 10);
        s.append(digit_str(n % 10));
        s
    }
}

/// `n` written in decimal with zeros in front up to four digits, as
/// `format!("{:04}", n)` writes it.
pub fn format_decimal_width4(n: usize) -> (s: String)
    ensures
        s@ == zero_padded(decimal(n as nat), 4),
{
    let digits = format_decimal(n);
    let len = digits.as_str().unicode_len();
    if len >= 4 {
        digits
    } else {
        let mut s = String::new();
        let mut k: usize = 0;
        while k < 4 - len
            invariant
                len == digits@.len(),
                len < 4,
                k <= 4 - len,
                s@ == Seq::new(k as nat, |i: int| '0'),
            decreases 4 - len - k,
        {
            proof {
                reveal_strlit("0");
            }
            s.append("0");
            k = k + 1;
            assert(s@ =~= Seq::new(k as nat, |i: int| '0'));
        }
        s.append(digits.as_str());
        s
    }
}

// ---------------------------------------------------------------------------
// File names.

/// `s` with every space and every '-' replaced by '_'.
pub open spec fn underscored(s: Seq<char>) -> Seq<char> {
    s.map_values(|c: char| if c == ' ' || c == '-' { '_' } else { c })
}

/// `s` with every space and then every '-' replaced by '_', as
/// `s.replace(" ", "_").replace("-", "_")` does.
pub fn underscore_separators(s: &str) -> (t: String)
    ensures
        t@ == underscored(s@),
{
    let n = s.unicode_len();
    let mut t = String::new();
    let mut i: usize = 0;
    while i < n
        invariant
            n == s@.len(),
            i <= n,
            t@ == underscored(s@.subrange(0, i as int)),
        decreases n - i,
    {
        proof {
            reveal_strlit("_");
        }
        let c = s.get_char(i);
        let piece = if c == ' ' || c == '-' {
            "_"
        } else {
            s.substring_char(i, i + 1)
        };
        assert(piece@ =~= seq![if c == ' ' || c == '-' { '_' } else { c }]);
        t.append(piece);
        assert(s@.subrange(0, i + 1) =~= s@.subrange(0, i as int).push(c));
        i = i + 1;
        assert(t@ =~= underscored(s@.subrange(0, i as int)));
    }
    assert(s@.subrange(0, n as int) =~= s@);
    t
}

// ---------------------------------------------------------------------------
// Laws of the text functions.

/// The number that a string of decimal digits denotes.
pub open spec fn decimal_value(s: Seq<char>) -> int
    decreases s.len(),
{
    if s.len() == 0 {
        0
    } else {
        10 * decimal_value(s.drop_last()) + (s.last() as int - 48)
    }
}

proof fn lemma_decimal_value_of_decimal(n: nat)
    ensures
        decimal_value(decimal(n)) == n,
        decimal(n).len() >= 1,
    decreases n,
{
    assert(digit_char(n % 10) as int == 48 + n % 10);
    let d = decimal(n);
    if n >= 10 {
        lemma_decimal_value_of_decimal(n / 10);
        assert(d.drop_last() =~= decimal(n / 10));
        assert(d.last() == digit_char(n % 10));
    } else {
        assert(d.drop_last() =~= Seq::<char>::empty());
        assert(n % 10 == n);
    }
    assert(decimal_value(d) == 10 * decimal_value(d.drop_last()) + (d.last() as int - 48));
}

proof fn lemma_leading_zeros_value(k: nat, s: Seq<char>)
    ensures
        decimal_value(Seq::new(k, |i: int| '0') + s) == decimal_value(s) + decimal_value(
            Seq::new(k, |i: int| '0'),
        ) * pow10(s.len()),
        decimal_value(Seq::new(k, |i: int| '0')) == 0,
    decreases s.len(), k,
{
    let z = Seq::new(k, |i: int| '0');
    if s.len() == 0 {
        assert(z + s =~= z);
        if k > 0 {
            lemma_leading_zeros_value((k - 1) as nat, s);
            assert(z.drop_last() =~= Seq::new((k - 1) as nat, |i: int| '0'));
        }
    } else {
        lemma_leading_zeros_value(k, s.drop_last());
        assert((z + s).drop_last() =~= z + s.drop_last());
    }
}

/// Ten to the power `e`.
pub open spec fn pow10(e: nat) -> int
    decreases e,
{
    if e == 0 {
        1
    } else {
        10 * pow10((e - 1) as nat)
    }
}

/// A number written in decimal, with or without zeros in front, reads back
/// as the number.
pub proof fn decimal_reads_back(n: nat, width: nat)
    ensures
        decimal_value(decimal(n)) == n,
        decimal_value(zero_padded(decimal(n), width)) == n,
{
    lemma_decimal_value_of_decimal(n);
    let d = decimal(n);
    if d.len() < width {
        lemma_leading_zeros_value((width - d.len()) as nat, d);
    }
}

/// Trimming keeps a contiguous part of the text that neither starts nor ends
/// with whitespace, and drops only whitespace around it.
pub proof fn trim_law(s: Seq<char>)
    ensures
        exists|i: int, j: int|
            0 <= i <= j <= s.len() && #[trigger] s.subrange(i, j) == trim_spec(s) && (forall|
                k: int,
            | 0 <= k < i ==> is_white_space(#[trigger] s[k])) && (forall|k: int|
                j <= k < s.len() ==> is_white_space(#[trigger] s[k])),
        trim_spec(s).len() > 0 ==> !is_white_space(trim_spec(s)[0]) && !is_white_space(
            trim_spec(s).last(),
        ),
{
    let (i, t) = lemma_trim_start(s);
    let j = lemma_trim_end(t);
    assert(s.subrange(i, i + j) =~= trim_spec(s));
    assert forall|k: int| i + j <= k < s.len() implies is_white_space(#[trigger] s[k]) by {
        assert(s[k] == t[k - i]);
    }
}

proof fn lemma_trim_start(s: Seq<char>) -> (r: (int, Seq<char>))
    ensures
        0 <= r.0 <= s.len(),
        r.1 == trim_start_spec(s),
        r.1 == s.subrange(r.0, s.len() as int),
        forall|k: int| 0 <= k < r.0 ==> is_white_space(#[trigger] s[k]),
        r.1.len() > 0 ==> !is_white_space(r.1[0]),
    decreases s.len(),
{
    if s.len() > 0 && is_white_space(s[0]) {
        let (i, t) = lemma_trim_start(s.drop_first());
        assert forall|k: int| 0 <= k < i + 1 implies is_white_space(#[trigger] s[k]) by {
            if k > 0 {
                assert(s[k] == s.drop_first()[k - 1]);
            }
        }
        assert(t =~= s.subrange(i + 1, s.len() as int));
        (i + 1, t)
    } else {
        assert(s.subrange(0, s.len() as int) =~= s);
        (0, s)
    }
}

proof fn lemma_trim_end(s: Seq<char>) -> (j: int)
    ensures
        0 <= j <= s.len(),
        trim_end_spec(s) == s.subrange(0, j),
        forall|k: int| j <= k < s.len() ==> is_white_space(#[trigger] s[k]),
        j > 0 ==> !is_white_space(s[j - 1]),
        s.len() > 0 && !is_white_space(s[0]) ==> j > 0,
    decreases s.len(),
{
    if s.len() > 0 && is_white_space(s.last()) {
        let j = lemma_trim_end(s.drop_last());
        assert forall|k: int| j <= k < s.len() implies is_white_space(#[trigger] s[k]) by {
            if k < s.len() - 1 {
                assert(s[k] == s.drop_last()[k]);
            }
        }
        assert(s.drop_last().subrange(0, j) =~= s.subrange(0, j));
        if s.len() > 1 && !is_white_space(s[0]) {
            assert(s.drop_last()[0] == s[0]);
        }
        j
    } else {
        assert(s.subrange(0, s.len() as int) =~= s);
        s.len() as int
    }
}

/// The whitespace that trimming removes is exactly the Unicode White_Space
/// set: U+0009 to U+000D, U+0020, U+0085, U+00A0, U+1680, U+2000 to U+200A,
/// U+2028, U+2029, U+202F, U+205F and U+3000; every other character (every
/// ASCII letter, digit and punctuation mark among them) is kept.
pub proof fn white_space_is_unicode_white_space(c: char)
    ensures
        is_white_space(c) <==> (c == '\u{9}' || c == '\u{a}' || c == '\u{b}' || c == '\u{c}'
            || c == '\u{d}' || c == ' ' || c == '\u{85}' || c == '\u{a0}' || c == '\u{1680}'
            || c == '\u{2000}' || c == '\u{2001}' || c == '\u{2002}' || c == '\u{2003}' || c
            == '\u{2004}' || c == '\u{2005}' || c == '\u{2006}' || c == '\u{2007}' || c
            == '\u{2008}' || c == '\u{2009}' || c == '\u{200a}' || c == '\u{2028}' || c
            == '\u{2029}' || c == '\u{202f}' || c == '\u{205f}' || c == '\u{3000}'),
        ('0' <= c <= '9' || 'a' <= c <= 'z' || 'A' <= c <= 'Z' || '!' <= c <= '/' || ':' <= c
            <= '@' || '[' <= c <= '`' || '{' <= c <= '~') ==> !is_white_space(c),
{
}

/// Text whose first and last characters are outside the Unicode White_Space
/// set is left as it is by trimming.
pub proof fn trim_keeps_text_without_surrounding_white_space(s: Seq<char>)
    requires
        s.len() > 0,
        !({
            let u = s[0] as u32;
            0x9 <= u <= 0xd || u == 0x20 || u == 0x85 || u == 0xa0 || u == 0x1680 || 0x2000 <= u
                <= 0x200a || u == 0x2028 || u == 0x2029 || u == 0x202f || u == 0x205f || u == 0x3000
        }),
        !({
            let u = s.last() as u32;
            0x9 <= u <= 0xd || u == 0x20 || u == 0x85 || u == 0xa0 || u == 0x1680 || 0x2000 <= u
                <= 0x200a || u == 0x2028 || u == 0x2029 || u == 0x202f || u == 0x205f || u == 0x3000
        }),
    ensures
        trim_spec(s) == s,
{
}

proof fn lemma_trim_start_after_white_space(p: Seq<char>, r: Seq<char>)
    requires
        forall|i: int| 0 <= i < p.len() ==> is_white_space(#[trigger] p[i]),
        r.len() > 0,
        !is_white_space(r[0]),
    ensures
        trim_start_spec(p + r) == r,
    decreases p.len(),
{
    if p.len() == 0 {
        assert(p + r =~= r);
    } else {
        assert((p + r).drop_first() =~= p.drop_first() + r);
        assert forall|i: int| 0 <= i < p.drop_first().len() implies is_white_space(
            #[trigger] p.drop_first()[i],
        ) by {
            assert(p.drop_first()[i] == p[i + 1]);
        }
        lemma_trim_start_after_white_space(p.drop_first(), r);
    }
}

proof fn lemma_trim_end_before_white_space(r: Seq<char>, q: Seq<char>)
    requires
        forall|i: int| 0 <= i < q.len() ==> is_white_space(#[trigger] q[i]),
        r.len() > 0,
        !is_white_space(r.last()),
    ensures
        trim_end_spec(r + q) == r,
    decreases q.len(),
{
    if q.len() == 0 {
        assert(r + q =~= r);
    } else {
        assert((r + q).drop_last() =~= r + q.drop_last());
        assert(q[q.len() - 1] == (r + q).last());
        assert forall|i: int| 0 <= i < q.drop_last().len() implies is_white_space(
            #[trigger] q.drop_last()[i],
        ) by {
            assert(q.drop_last()[i] == q[i]);
        }
        lemma_trim_end_before_white_space(r, q.drop_last());
    }
}

/// Trimming removes any whitespace before and after a text and leaves the
/// text itself: for text `w` that neither starts nor ends with whitespace,
/// trimming `p + w + q` gives `w` whenever `p` and `q` are all whitespace.
pub proof fn trim_removes_surrounding_white_space(p: Seq<char>, w: Seq<char>, q: Seq<char>)
    requires
        forall|i: int| 0 <= i < p.len() ==> is_white_space(#[trigger] p[i]),
        forall|i: int| 0 <= i < q.len() ==> is_white_space(#[trigger] q[i]),
        w.len() > 0,
        !is_white_space(w[0]),
        !is_white_space(w.last()),
    ensures
        trim_spec(p + w + q) == w,
{
    assert(p + w + q =~= p + (w + q));
    assert((w + q)[0] == w[0]);
    lemma_trim_start_after_white_space(p, w + q);
    lemma_trim_end_before_white_space(w, q);
}

proof fn lemma_decimal_length(n: nat, k: nat)
    requires
        k >= 1,
        n < pow10(k),
    ensures
        decimal(n).len() <= k,
    decreases n,
{
    if n >= 10 {
        assert(k >= 2) by {
            if k == 1 {
                assert(pow10(0) == 1);
            }
        }
        assert(pow10(k) == 10 * pow10((k - 1) as nat));
        lemma_decimal_length(n / 10, (k - 1) as nat);
    }
}

/// Padding with zeros gives `width` characters, or the text itself when it
/// is longer: the result has length max(width, s.len()), its first
/// characters, up to where `s` begins, are all '0', and it ends with `s`.
pub proof fn zero_padded_shape(s: Seq<char>, width: nat)
    ensures
        zero_padded(s, width).len() == if s.len() >= width { s.len() } else { width },
        forall|i: int|
            0 <= i < width - s.len() ==> #[trigger] zero_padded(s, width)[i] == '0',
        zero_padded(s, width).subrange(
            zero_padded(s, width).len() - s.len(),
            zero_padded(s, width).len() as int,
        ) == s,
{
    let z = zero_padded(s, width);
    assert(z.subrange(z.len() - s.len(), z.len() as int) =~= s);
}

/// A number below 10000 written with at least four digits takes exactly four
/// characters, '0' in front, and reads back as the number.
pub proof fn four_digit_counter(n: nat)
    requires
        n < 10000,
    ensures
        zero_padded(decimal(n), 4).len() == 4,
        decimal_value(zero_padded(decimal(n), 4)) == n,
{
    assert(pow10(4) == 10000) by {
        assert(pow10(0) == 1);
        assert(pow10(1) == 10);
        assert(pow10(2) == 100);
        assert(pow10(3) == 1000);
    }
    lemma_decimal_length(n, 4);
    zero_padded_shape(decimal(n), 4);
    decimal_reads_back(n, 4);
}

} // verus!
