//! Verified plain-text building blocks: character runs, padding, decimal
//! formatting, line splitting, truncation, and the confirmation parser.

use vstd::prelude::*;

verus! {

/// A run of `n` copies of the character `c`.
pub open spec fn char_run_model(c: char, n: nat) -> Seq<char> {
    Seq::new(n, |i: int| c)
}

/// Builds a run of `n` copies of the single character that `pat` holds.
pub fn char_run(pat: &str, n: usize) -> (r: String)
    requires
        pat@.len() == 1,
    ensures
        r@ == char_run_model(pat@[0], n as nat),
{
    let mut s = String::new();
    let mut i: usize = 0;
    while i < n
        invariant
            pat@.len() == 1,
            i <= n,
            s@ =~= char_run_model(pat@[0], i as nat),
        decreases n - i,
    {
        s.append(pat);
        i = i + 1;
        proof {
            assert(s@ =~= char_run_model(pat@[0], i as nat));
        }
    }
    proof {
        assert(s@ =~= char_run_model(pat@[0], n as nat));
    }
    s
}

/// `s` left-aligned in a field of `width` characters: `s` itself when it is
/// already at least that wide, else `s` followed by spaces up to `width`.
pub open spec fn pad_right_model(s: Seq<char>, width: nat) -> Seq<char> {
    if s.len() >= width {
        s
    } else {
        s + char_run_model(' ', (width - s.len()) as nat)
    }
}

/// Left-aligns `s` in a field of `width` characters by appending spaces.
pub fn pad_right(s: &str, width: usize) -> (r: String)
    ensures
        r@ == pad_right_model(s@, width as nat),
{
    let mut out = s.to_owned();
    let len = s.unicode_len();
    if len >= width {
        proof {
            assert(out@ =~= pad_right_model(s@, width as nat));
        }
        return out;
    }
    proof {
        reveal_strlit(" ");
    }
    let fill = char_run(" ", width - len);
    let r = out.concat(fill.as_str());
    proof {
        assert(r@ =~= pad_right_model(s@, width as nat));
    }
    r
}

/// The decimal digit character for `d`.
pub open spec fn digit_char(d: nat) -> char {
    if d == 0 {
        '0'
    } else if d == 1 {
        '1'
    } else if d == 2 {
        '2'
    } else if d == 3 {
        '3'
    } else if d == 4 {
        '4'
    } else if d == 5 {
        '5'
    } else if d == 6 {
        '6'
    } else if d == 7 {
        '7'
    } else if d == 8 {
        '8'
    } else {
        '9'
    }
}

/// The usual decimal representation of `n`, with no leading zeros
/// (and the single digit `0` for zero).
pub open spec fn dec_model(n: nat) -> Seq<char>
    decreases n,
{
    if n < 10 {
        seq![digit_char(n)]
    } else {
        dec_model(n / 10).push(digit_char(n % 10))
    }
}

/// The single decimal digit `d` as a string slice.
fn digit_str(d: u64) -> (r: &'static str)
    requires
        d < 10,
    ensures
        r@ == seq![digit_char(d as nat)],
{
    proof {
        reveal_strlit("0");
        reveal_strlit("1");
        reveal_strlit("2");
        reveal_strlit("3");
        reveal_strlit("4");
        reveal_strlit("5");
        reveal_strlit("6");
        reveal_strlit("7");
        reveal_strlit("8");
        reveal_strlit("9");
    }
    let r = if d == 0 {
        "0"
    } else if d == 1 {
        "1"
    } else if d == 2 {
        "2"
    } else if d == 3 {
        "3"
    } else if d == 4 {
        "4"
    } else if d == 5 {
        "5"
    } else if d == 6 {
        "6"
    } else if d == 7 {
        "7"
    } else if d == 8 {
        "8"
    } else {
        "9"
    };
    proof {
        assert(r@ =~= seq![digit_char(d as nat)]);
    }
    r
}

/// Formats `n` in decimal.
pub fn format_u64(n: u64) -> (r: String)
    ensures
        r@ == dec_model(n as nat),
    decreases n,
{
    if n < 10 {
        digit_str(n).to_owned()
    } else {
        let mut s = format_u64(n / 10);
        s.append(digit_str(n % 10));
        proof {
            assert(s@ =~= dec_model(n as nat));
        }
        s
    }
}

/// A quantity held in hundredths, shown with exactly two decimal places:
/// the integer part in decimal, a dot, then the two fractional digits.
pub open spec fn hundredths_model(n: nat) -> Seq<char> {
    dec_model(n / 100) + seq!['.', digit_char((n / 10) % 10), digit_char(n % 10)]
}

/// Formats a quantity held in hundredths with exactly two decimal places.
pub fn format_hundredths(n: u64) -> (r: String)
    ensures
        r@ == hundredths_model(n as nat),
{
    let mut s = format_u64(n / 100);
    proof {
        reveal_strlit(".");
    }
    s.append(".");
    s.append(digit_str((n / 10) % 10));
    s.append(digit_str(n % 10));
    proof {
        assert(s@ =~= hundredths_model(n as nat));
    }
    s
}

/// Concatenation of two string slices.
pub fn cat2(a: &str, b: &str) -> (r: String)
    ensures
        r@ == a@ + b@,
{
    let mut s = a.to_owned();
    s.append(b);
    s
}

/// Concatenation of three string slices.
pub fn cat3(a: &str, b: &str, c: &str) -> (r: String)
    ensures
        r@ == a@ + b@ + c@,
{
    let mut s = a.to_owned();
    s.append(b);
    s.append(c);
    s
}

/// `needle` occurs contiguously inside `hay`.
pub open spec fn embeds(hay: Seq<char>, needle: Seq<char>) -> bool {
    exists|k: int|
        0 <= k && k + needle.len() <= hay.len() && #[trigger] hay.subrange(k, k + needle.len())
            == needle
}

/// Anything embeds in a string that extends it on both sides.
pub proof fn lemma_embeds_of_wrap(p: Seq<char>, s: Seq<char>, q: Seq<char>)
    ensures
        embeds(p + s + q, s),
{
    let hay = p + s + q;
    let k = p.len() as int;
    assert(hay.subrange(k, k + s.len()) =~= s);
}

/// Embedding survives extending the haystack on the right.
pub proof fn lemma_embeds_extend_right(hay: Seq<char>, tail: Seq<char>, needle: Seq<char>)
    requires
        embeds(hay, needle),
    ensures
        embeds(hay + tail, needle),
{
    let k = choose|k: int|
        0 <= k && k + needle.len() <= hay.len() && #[trigger] hay.subrange(k, k + needle.len())
            == needle;
    assert((hay + tail).subrange(k, k + needle.len()) =~= hay.subrange(k, k + needle.len()));
}

/// Embedding survives extending the haystack on the left.
pub proof fn lemma_embeds_extend_left(head: Seq<char>, hay: Seq<char>, needle: Seq<char>)
    requires
        embeds(hay, needle),
    ensures
        embeds(head + hay, needle),
{
    let k = choose|k: int|
        0 <= k && k + needle.len() <= hay.len() && #[trigger] hay.subrange(k, k + needle.len())
            == needle;
    assert((head + hay).subrange(head.len() + k, head.len() + k + needle.len())
        =~= hay.subrange(k, k + needle.len()));
}

/// Every character of a decimal representation is a decimal digit.
pub proof fn lemma_dec_model_digits(n: nat)
    ensures
        forall|j: int| 0 <= j < dec_model(n).len()
            ==> exists|d: nat| d < 10 && #[trigger] dec_model(n)[j] == digit_char(d),
    decreases n,
{
    if n < 10 {
        assert(dec_model(n)[0] == digit_char(n));
    } else {
        lemma_dec_model_digits(n / 10);
        assert(dec_model(n) == dec_model(n / 10).push(digit_char(n % 10)));
        assert(forall|j: int| 0 <= j < dec_model(n / 10).len()
            ==> dec_model(n)[j] == dec_model(n / 10)[j]);
        assert(dec_model(n)[dec_model(n).len() - 1] == digit_char(n % 10));
    }
}

/// The preview shown for stored content: the content itself when it is at
/// most 60 characters long, else its first 57 characters followed by `...`
/// (60 characters in all).  Truncation counts characters, never bytes, so a
/// multi-byte character is kept or dropped whole.
pub open spec fn preview_model(content: Seq<char>) -> Seq<char> {
    if content.len() <= 60 {
        content
    } else {
        content.take(57) + seq!['.', '.', '.']
    }
}

/// Builds the stored-content preview.
pub fn content_preview(content: &str) -> (r: String)
    ensures
        r@ == preview_model(content@),
{
    let len = content.unicode_len();
    if len <= 60 {
        content.to_owned()
    } else {
        let head = content.substring_char(0, 57);
        let mut s = head.to_owned();
        proof {
            reveal_strlit("...");
        }
        s.append("...");
        proof {
            assert(s@ =~= preview_model(content@));
        }
        s
    }
}

/// The characters that line-trimming removes: Unicode whitespace.
pub open spec fn is_ws_char(c: char) -> bool {
    c == ' ' || c == '\t' || c == '\n' || c == '\r' || c == '\u{b}' || c == '\u{c}'
        || c == '\u{85}' || c == '\u{a0}' || c == '\u{1680}' || c == '\u{2000}'
        || c == '\u{2001}' || c == '\u{2002}' || c == '\u{2003}' || c == '\u{2004}'
        || c == '\u{2005}' || c == '\u{2006}' || c == '\u{2007}' || c == '\u{2008}'
        || c == '\u{2009}' || c == '\u{200a}' || c == '\u{2028}' || c == '\u{2029}'
        || c == '\u{202f}' || c == '\u{205f}' || c == '\u{3000}'
}

/// Whether `c` is whitespace in the sense of `is_ws_char`.
pub fn is_ws(c: char) -> (r: bool)
    ensures
        r == is_ws_char(c),
{
    c == ' ' || c == '\t' || c == '\n' || c == '\r' || c == '\u{b}' || c == '\u{c}'
        || c == '\u{85}' || c == '\u{a0}' || c == '\u{1680}' || c == '\u{2000}'
        || c == '\u{2001}' || c == '\u{2002}' || c == '\u{2003}' || c == '\u{2004}'
        || c == '\u{2005}' || c == '\u{2006}' || c == '\u{2007}' || c == '\u{2008}'
        || c == '\u{2009}' || c == '\u{200a}' || c == '\u{2028}' || c == '\u{2029}'
        || c == '\u{202f}' || c == '\u{205f}' || c == '\u{3000}'
}

/// `s` with leading whitespace removed.
pub open spec fn trim_front(s: Seq<char>) -> Seq<char>
    decreases s.len(),
{
    if s.len() > 0 && is_ws_char(s[0]) {
        trim_front(s.skip(1))
    } else {
        s
    }
}

/// `s` with trailing whitespace removed.
pub open spec fn trim_back(s: Seq<char>) -> Seq<char>
    decreases s.len(),
{
    if s.len() > 0 && is_ws_char(s.last()) {
        trim_back(s.drop_last())
    } else {
        s
    }
}

/// `s` with both leading and trailing whitespace removed.
pub open spec fn trim_model(s: Seq<char>) -> Seq<char> {
    trim_back(trim_front(s))
}

/// A trimmed line is affirmative when it equals `y` or `yes` up to ASCII
/// case: exactly the strings `str::eq_ignore_ascii_case` accepts against
/// those two words.
pub open spec fn is_yes_word(t: Seq<char>) -> bool {
    ||| (t.len() == 1 && (t[0] == 'y' || t[0] == 'Y'))
    ||| (t.len() == 3 && (t[0] == 'y' || t[0] == 'Y') && (t[1] == 'e' || t[1] == 'E') && (
    t[2] == 's' || t[2] == 'S'))
}

/// Whether a raw prompt reply counts as a confirmation.
pub open spec fn affirmative_model(s: Seq<char>) -> bool {
    is_yes_word(trim_model(s))
}

proof fn lemma_trim_front_cut(s: Seq<char>, a: int)
    requires
        0 <= a <= s.len(),
        forall|j: int| 0 <= j < a ==> is_ws_char(s[j]),
        a < s.len() ==> !is_ws_char(s[a]),
    ensures
        trim_front(s) =~= s.skip(a),
    decreases a,
{
    if a == 0 {
        assert(trim_front(s) =~= s.skip(0));
    } else {
        assert(is_ws_char(s[0]));
        let t = s.skip(1);
        assert(forall|j: int| 0 <= j < a - 1 ==> t[j] == s[j + 1] && is_ws_char(t[j]));
        lemma_trim_front_cut(t, a - 1);
        assert(t.skip(a - 1) =~= s.skip(a));
    }
}

proof fn lemma_trim_back_cut(s: Seq<char>, b: int)
    requires
        0 <= b <= s.len(),
        forall|j: int| b <= j < s.len() ==> is_ws_char(s[j]),
        b > 0 ==> !is_ws_char(s[b - 1]),
    ensures
        trim_back(s) =~= s.take(b),
    decreases s.len() - b,
{
    if b == s.len() {
        if s.len() > 0 && is_ws_char(s.last()) {
            assert(!is_ws_char(s[b - 1]));
            assert(false);
        }
        assert(trim_back(s) =~= s.take(b));
    } else {
        assert(is_ws_char(s.last()));
        let t = s.drop_last();
        assert(forall|j: int| b <= j < t.len() ==> t[j] == s[j] && is_ws_char(t[j]));
        lemma_trim_back_cut(t, b);
        assert(t.take(b) =~= s.take(b));
    }
}

/// The number of characters before the first newline of `s`
/// (`s.len()` when `s` holds none).
pub open spec fn nl_index(s: Seq<char>) -> nat
    decreases s.len(),
{
    if s.len() == 0 {
        0
    } else if s[0] == '\n' {
        0
    } else {
        1 + nl_index(s.skip(1))
    }
}

/// `l` without a single trailing carriage return.
pub open spec fn strip_cr(l: Seq<char>) -> Seq<char> {
    if l.len() > 0 && l.last() == '\r' {
        l.drop_last()
    } else {
        l
    }
}

/// The lines of `s`, in the sense of `str::lines`: segments split on `\n`,
/// each with a trailing `\r` removed, and no empty final segment after a
/// trailing newline.
pub open spec fn split_lines_model(s: Seq<char>) -> Seq<Seq<char>>
    decreases s.len(),
{
    if s.len() == 0 {
        Seq::empty()
    } else {
        let i = nl_index(s);
        if i < s.len() {
            seq![strip_cr(s.take(i as int))] + split_lines_model(s.skip(i + 1 as int))
        } else {
            seq![strip_cr(s)]
        }
    }
}

proof fn lemma_nl_index_at(s: Seq<char>, j: int)
    requires
        0 <= j <= s.len(),
        forall|k: int| 0 <= k < j ==> s[k] != '\n',
        j < s.len() ==> s[j] == '\n',
    ensures
        nl_index(s) == j,
    decreases j,
{
    if j == 0 {
    } else {
        let t = s.skip(1);
        assert(forall|k: int| 0 <= k < j - 1 ==> t[k] == s[k + 1] && t[k] != '\n');
        assert(j - 1 < t.len() ==> t[j - 1] == s[j as int]);
        lemma_nl_index_at(t, j - 1);
    }
}

/// The lines of `s`, split as `str::lines` splits them.
pub fn split_lines(s: &str) -> (r: Vec<String>)
    ensures
        r@.map_values(|l: String| l@) == split_lines_model(s@),
{
    let n = s.unicode_len();
    let mut out: Vec<String> = Vec::new();
    let mut i: usize = 0;
    proof {
        assert(s@.skip(0) =~= s@);
    }
    while i < n
        invariant
            i <= n,
            n == s@.len(),
            out@.map_values(|l: String| l@) + split_lines_model(s@.skip(i as int))
                =~= split_lines_model(s@),
        decreases n - i,
    {
        let ghost gout = out@.map_values(|l: String| l@);
        let ghost i0 = i as int;
        let mut j: usize = i;
        while j < n && s.get_char(j) != '\n'
            invariant
                i <= j <= n,
                n == s@.len(),
                forall|k: int| i <= k < j ==> s@[k] != '\n',
            decreases n - j,
        {
            j = j + 1;
        }
        let ghost rest = s@.skip(i0);
        proof {
            assert(forall|k: int| 0 <= k < j - i0 ==> rest[k] == s@[k + i0] && rest[k] != '\n');
            assert(j < n ==> rest[j - i0] == s@[j as int]);
            lemma_nl_index_at(rest, j - i0);
        }
        let seg = if j > i && s.get_char(j - 1) == '\r' {
            s.substring_char(i, j - 1)
        } else {
            s.substring_char(i, j)
        };
        proof {
            assert(rest.take(j - i0) =~= s@.subrange(i0, j as int));
            if j < n {
                assert(seg@ =~= strip_cr(rest.take(j - i0)));
            } else {
                assert(rest.take(j - i0) =~= rest);
                assert(seg@ =~= strip_cr(rest));
            }
        }
        out.push(seg.to_owned());
        proof {
            assert(out@.map_values(|l: String| l@) =~= gout.push(seg@));
        }
        if j < n {
            i = j + 1;
            proof {
                assert(rest.skip(j - i0 + 1) =~= s@.skip(i as int));
                assert(split_lines_model(rest) =~= seq![strip_cr(rest.take(j - i0))]
                    + split_lines_model(s@.skip(i as int)));
                assert(gout.push(seg@) + split_lines_model(s@.skip(i as int))
                    =~= gout + split_lines_model(rest));
            }
        } else {
            i = n;
            proof {
                assert(split_lines_model(rest) =~= seq![strip_cr(rest)]);
                assert(s@.skip(n as int).len() == 0);
                assert(split_lines_model(s@.skip(i as int)) =~= Seq::<Seq<char>>::empty());
                assert(gout.push(seg@) + split_lines_model(s@.skip(i as int))
                    =~= gout + split_lines_model(rest));
            }
        }
    }
    proof {
        assert(s@.skip(i as int).len() == 0);
        assert(split_lines_model(s@.skip(i as int)) =~= Seq::<Seq<char>>::empty());
        assert(out@.map_values(|l: String| l@) =~= split_lines_model(s@));
    }
    out
}

/// Reads a raw prompt reply: true exactly when the reply, with surrounding
/// whitespace trimmed, equals `y` or `yes` up to ASCII case.  The empty
/// reply and anything else count as a refusal.
pub fn confirmation_accepted(input: &str) -> (r: bool)
    ensures
        r == affirmative_model(input@),
{
    let n = input.unicode_len();
    let mut a: usize = 0;
    while a < n && is_ws(input.get_char(a))
        invariant
            a <= n,
            n == input@.len(),
            forall|j: int| 0 <= j < a ==> is_ws_char(input@[j]),
        decreases n - a,
    {
        a = a + 1;
    }
    if a == n {
        proof {
            lemma_trim_front_cut(input@, a as int);
            assert(trim_front(input@).len() == 0);
            assert(trim_model(input@).len() == 0);
        }
        return false;
    }
    let mut b: usize = n;
    while b > a && is_ws(input.get_char(b - 1))
        invariant
            a <= b <= n,
            n == input@.len(),
            a < n,
            !is_ws_char(input@[a as int]),
            forall|j: int| b <= j < n ==> is_ws_char(input@[j]),
        decreases b,
    {
        b = b - 1;
    }
    proof {
        lemma_trim_front_cut(input@, a as int);
        let t = input@.skip(a as int);
        assert(forall|j: int| b - a <= j < t.len() ==> t[j] == input@[j + a] && is_ws_char(t[j]));
        assert(b > a);
        assert(!is_ws_char(t[b - a - 1]));
        lemma_trim_back_cut(t, b - a);
        assert(trim_model(input@) =~= input@.subrange(a as int, b as int));
    }
    let len = b - a;
    if len == 1 {
        let c0 = input.get_char(a);
        c0 == 'y' || c0 == 'Y'
    } else if len == 3 {
        let c0 = input.get_char(a);
        let c1 = input.get_char(a + 1);
        let c2 = input.get_char(a + 2);
        (c0 == 'y' || c0 == 'Y') && (c1 == 'e' || c1 == 'E') && (c2 == 's' || c2 == 'S')
    } else {
        false
    }
}

} // verus!

