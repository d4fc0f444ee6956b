//! Text utilities over `Seq<char>`: white space, words, prefixes, digits.

use vstd::prelude::*;
use vstd::utf8::*;

verus! {

/// `String::push` appends one character.
pub assume_specification[ String::push ](s: &mut String, ch: char)
    ensures
        final(s)@ == old(s)@.push(ch),
;

/// The characters of a text that may be absent.
pub open spec fn opt_str(s: Option<&str>) -> Option<Seq<char>> {
    match s {
        Some(t) => Some(t@),
        None => None,
    }
}

/// The characters of an owned text that may be absent.
pub open spec fn opt_string(s: Option<String>) -> Option<Seq<char>> {
    match s {
        Some(t) => Some(t@),
        None => None,
    }
}

/// The characters of a string, in order.
pub fn chars_of(s: &str) -> (r: Vec<char>)
    ensures
        r@ == s@,
{
    let mut out: Vec<char> = Vec::new();
    for c in it: s.chars()
        invariant
            out@ == s@.take(it.index() as int),
            it.seq() == s@,
    {
        out.push(c);
        assert(s@.take(it.index() + 1) =~= s@.take(it.index() as int).push(c));
    }
    assert(s@.take(s@.len() as int) =~= s@);
    out
}

/// The string made of the characters in `chars[from..to]`.
pub fn string_of(chars: &Vec<char>, from: usize, to: usize) -> (r: String)
    requires
        from <= to <= chars@.len(),
    ensures
        r@ == chars@.subrange(from as int, to as int),
{
    let mut out: String = String::new();
    let mut i: usize = from;
    while i < to
        invariant
            from <= i <= to <= chars@.len(),
            out@ == chars@.subrange(from as int, i as int),
        decreases to - i,
    {
        out.push(chars[i]);
        assert(chars@.subrange(from as int, i + 1) =~= chars@.subrange(from as int, i as int).push(chars@[i as int]));
        i = i + 1;
    }
    out
}

/// One text after another.
pub fn joined(a: &str, b: &str) -> (r: String)
    ensures
        r@ == a@ + b@,
{
    let mut out = a.to_owned();
    out.append(b);
    out
}

/// Two strings with the same bytes have the same characters.
pub proof fn lemma_bytes_determine_chars(a: Seq<char>, b: Seq<char>)
    requires
        encode_utf8(a) == encode_utf8(b),
    ensures
        a == b,
{
    encode_utf8_decode_utf8(a);
    encode_utf8_decode_utf8(b);
}

/// Whether two strings hold the same characters.
pub fn str_eq(a: &str, b: &str) -> (r: bool)
    ensures
        r == (a@ == b@),
{
    let x = a.as_bytes();
    let y = b.as_bytes();
    if x.len() != y.len() {
        return false;
    }
    let mut i: usize = 0;
    while i < x.len()
        invariant
            i <= x@.len(),
            x@ == encode_utf8(a@),
            y@ == encode_utf8(b@),
            x@.len() == y@.len(),
            x@.take(i as int) == y@.take(i as int),
        decreases x@.len() - i,
    {
        if x[i] != y[i] {
            return false;
        }
        assert(x@.take(i + 1) =~= x@.take(i as int).push(x@[i as int]));
        assert(y@.take(i + 1) =~= y@.take(i as int).push(y@[i as int]));
        i = i + 1;
    }
    assert(x@.take(x@.len() as int) =~= x@);
    assert(y@.take(y@.len() as int) =~= y@);
    proof {
        lemma_bytes_determine_chars(a@, b@);
    }
    true
}

// White space and words.

/// The characters with the Unicode property `White_Space`.
pub open spec fn is_white_space(c: char) -> bool {
    let v = c as u32;
    ||| 0x09 <= v <= 0x0d
    ||| v == 0x20
    ||| v == 0x85
    ||| v == 0xa0
    ||| v == 0x1680
    ||| 0x2000 <= v <= 0x200a
    ||| v == 0x2028
    ||| v == 0x2029
    ||| v == 0x202f
    ||| v == 0x205f
    ||| v == 0x3000
}

/// Whether a character is white space.
pub fn white_space(c: char) -> (r: bool)
    ensures
        r == is_white_space(c),
{
    let v: u32 = c as u32;
    (0x09 <= v && v <= 0x0d) || v == 0x20 || v == 0x85 || v == 0xa0 || v == 0x1680 || (0x2000 <= v
        && v <= 0x200a) || v == 0x2028 || v == 0x2029 || v == 0x202f || v == 0x205f || v == 0x3000
}

/// The first index from `i` on that does not hold white space.
pub open spec fn skip_white(s: Seq<char>, i: int) -> int
    decreases s.len() - i,
{
    if 0 <= i < s.len() && is_white_space(s[i]) {
        skip_white(s, i + 1)
    } else {
        i
    }
}

/// The first index from `i` on that holds white space, or the end.
pub open spec fn skip_word(s: Seq<char>, i: int) -> int
    decreases s.len() - i,
{
    if 0 <= i < s.len() && !is_white_space(s[i]) {
        skip_word(s, i + 1)
    } else {
        i
    }
}

/// The end of `s[b..e]` without the white space at its end.
pub open spec fn drop_white_tail(s: Seq<char>, b: int, e: int) -> int
    decreases e - b,
{
    if b < e && is_white_space(s[e - 1]) {
        drop_white_tail(s, b, e - 1)
    } else {
        e
    }
}

/// `s` without the white space at its start and at its end.
pub open spec fn trimmed(s: Seq<char>) -> Seq<char> {
    let b = skip_white(s, 0);
    s.subrange(b, drop_white_tail(s, b, s.len() as int))
}

/// The maximal runs of characters of `s` from `i` on that are not white space.
pub open spec fn words_from(s: Seq<char>, i: int) -> Seq<Seq<char>>
    decreases s.len() - i,
{
    if 0 <= i <= s.len() {
        let b = skip_white(s, i);
        let e = skip_word(s, b);
        if b < s.len() {
            proof {
                lemma_skips(s, i);
                lemma_skips(s, b);
            }
            seq![s.subrange(b, e)] + words_from(s, e)
        } else {
            Seq::empty()
        }
    } else {
        Seq::empty()
    }
}

/// The words of `s`, in order.
pub open spec fn words(s: Seq<char>) -> Seq<Seq<char>> {
    words_from(s, 0)
}

/// Skipping stays inside the text and stops where it should.
pub proof fn lemma_skips(s: Seq<char>, i: int)
    requires
        0 <= i <= s.len(),
    ensures
        i <= skip_white(s, i) <= s.len(),
        skip_white(s, i) < s.len() ==> !is_white_space(s[skip_white(s, i)]),
        i <= skip_word(s, i) <= s.len(),
        skip_word(s, i) < s.len() ==> is_white_space(s[skip_word(s, i)]),
        i < s.len() && !is_white_space(s[i]) ==> i < skip_word(s, i),
    decreases s.len() - i,
{
    if i < s.len() {
        lemma_skips(s, i + 1);
    }
}

fn find_non_white(s: &Vec<char>, from: usize) -> (r: usize)
    requires
        from <= s@.len(),
    ensures
        r == skip_white(s@, from as int),
        from <= r <= s@.len(),
{
    let mut i: usize = from;
    while i < s.len() && white_space(s[i])
        invariant
            from <= i <= s@.len(),
            skip_white(s@, from as int) == skip_white(s@, i as int),
        decreases s@.len() - i,
    {
        i = i + 1;
    }
    i
}

fn find_white(s: &Vec<char>, from: usize) -> (r: usize)
    requires
        from <= s@.len(),
    ensures
        r == skip_word(s@, from as int),
        from <= r <= s@.len(),
{
    let mut i: usize = from;
    while i < s.len() && !white_space(s[i])
        invariant
            from <= i <= s@.len(),
            skip_word(s@, from as int) == skip_word(s@, i as int),
        decreases s@.len() - i,
    {
        i = i + 1;
    }
    i
}

/// Removes the white space at the start and at the end.
pub fn trim(s: &str) -> (r: String)
    ensures
        r@ == trimmed(s@),
{
    let chars = chars_of(s);
    let b = find_non_white(&chars, 0);
    let mut e: usize = chars.len();
    while b < e && white_space(chars[e - 1])
        invariant
            b <= e <= chars@.len(),
            drop_white_tail(chars@, b as int, chars@.len() as int) == drop_white_tail(
                chars@,
                b as int,
                e as int,
            ),
        decreases e,
    {
        e = e - 1;
    }
    string_of(&chars, b, e)
}

/// Splits a text into its words.
pub fn split_words(s: &str) -> (r: Vec<String>)
    ensures
        r@.map_values(|w: String| w@) == words(s@),
{
    let chars = chars_of(s);
    let mut out: Vec<String> = Vec::new();
    let mut i: usize = 0;
    loop
        invariant
            chars@ == s@,
            i <= chars@.len(),
            words(s@) == out@.map_values(|w: String| w@) + words_from(s@, i as int),
        decreases chars@.len() - i,
    {
        let b = find_non_white(&chars, i);
        if b == chars.len() {
            assert(words_from(s@, i as int) =~= Seq::empty());
            return out;
        }
        let e = find_white(&chars, b);
        proof {
            lemma_skips(s@, i as int);
            lemma_skips(s@, b as int);
        }
        let word = string_of(&chars, b, e);
        let ghost before = out@;
        out.push(word);
        assert(out@.map_values(|w: String| w@) =~= before.map_values(|w: String| w@) + seq![
            s@.subrange(b as int, e as int),
        ]);
        i = e;
    }
}

// Prefixes and case.

/// `s` without every leading copy of `prefix`.
pub open spec fn strip_all(s: Seq<char>, prefix: Seq<char>) -> Seq<char>
    decreases s.len(),
{
    if prefix.len() > 0 && prefix.is_prefix_of(s) {
        strip_all(s.skip(prefix.len() as int), prefix)
    } else {
        s
    }
}

fn prefix_at(s: &Vec<char>, from: usize, prefix: &Vec<char>) -> (r: bool)
    requires
        from <= s@.len(),
    ensures
        r == prefix@.is_prefix_of(s@.skip(from as int)),
{
    let n: usize = s.len();
    if prefix.len() > n - from {
        return false;
    }
    let mut i: usize = 0;
    while i < prefix.len()
        invariant
            n == s@.len(),
            from + prefix@.len() <= n,
            i <= prefix@.len(),
            forall|k: int| 0 <= k < i ==> prefix@[k] == s@[from + k],
        decreases prefix@.len() - i,
    {
        if prefix[i] != s[from + i] {
            assert(prefix@[i as int] != s@.skip(from as int)[i as int]);
            return false;
        }
        i = i + 1;
    }
    assert(prefix@ =~= s@.skip(from as int).subrange(0, prefix@.len() as int));
    true
}

/// Whether `s` begins with `prefix`.
pub fn starts_with(s: &str, prefix: &str) -> (r: bool)
    ensures
        r == prefix@.is_prefix_of(s@),
{
    let chars = chars_of(s);
    assert(s@.skip(0) =~= s@);
    prefix_at(&chars, 0, &chars_of(prefix))
}

/// Removes every leading copy of `prefix`.
pub fn trim_start_matches(s: &str, prefix: &str) -> (r: String)
    ensures
        r@ == strip_all(s@, prefix@),
{
    let chars = chars_of(s);
    let p = chars_of(prefix);
    assert(s@.skip(0) =~= s@);
    let mut from: usize = 0;
    let n: usize = chars.len();
    while p.len() > 0 && prefix_at(&chars, from, &p)
        invariant
            n == chars@.len(),
            chars@ == s@,
            p@ == prefix@,
            from <= chars@.len(),
            strip_all(s@, prefix@) == strip_all(s@.skip(from as int), prefix@),
        decreases chars@.len() - from,
    {
        assert(p@.len() <= chars@.skip(from as int).len());
        assert(s@.skip(from as int).skip(p@.len() as int) =~= s@.skip(from + p@.len()));
        from = from + p.len();
    }
    let r = string_of(&chars, from, n);
    assert(r@ =~= s@.skip(from as int));
    r
}

/// The ASCII lower-case form of a character; other characters stay.
pub open spec fn ascii_lower(c: char) -> char {
    if 'A' as u32 <= c as u32 <= 'Z' as u32 {
        (c as u32 + 32) as char
    } else {
        c
    }
}

/// The ASCII lower-case form of a text.
pub open spec fn ascii_lowered(s: Seq<char>) -> Seq<char> {
    s.map_values(|c: char| ascii_lower(c))
}

fn lower(c: char) -> (r: char)
    ensures
        r == ascii_lower(c),
{
    let v: u32 = c as u32;
    if 65 <= v && v <= 90 {
        (v as u8 + 32) as char
    } else {
        c
    }
}

/// Whether two texts are the same up to the case of ASCII letters.
pub fn eq_ignore_ascii_case(a: &str, b: &str) -> (r: bool)
    ensures
        r == (ascii_lowered(a@) == ascii_lowered(b@)),
{
    let x = chars_of(a);
    let y = chars_of(b);
    if x.len() != y.len() {
        assert(ascii_lowered(a@).len() != ascii_lowered(b@).len());
        return false;
    }
    let mut i: usize = 0;
    while i < x.len()
        invariant
            x@ == a@,
            y@ == b@,
            x@.len() == y@.len(),
            i <= x@.len(),
            forall|k: int| 0 <= k < i ==> ascii_lower(x@[k]) == ascii_lower(y@[k]),
        decreases x@.len() - i,
    {
        if lower(x[i]) != lower(y[i]) {
            assert(ascii_lowered(a@)[i as int] != ascii_lowered(b@)[i as int]);
            return false;
        }
        i = i + 1;
    }
    assert(ascii_lowered(a@) =~= ascii_lowered(b@));
    true
}

// Numbers.

/// The character of a digit.
pub open spec fn digit(d: int) -> char {
    (48 + d) as char
}

/// A number in decimal, without leading zeros.
pub open spec fn decimal(n: nat) -> Seq<char>
    decreases n,
{
    if n < 10 {
        seq![digit(n as int)]
    } else {
        decimal(n / 10).push(digit((n % 10) as int))
    }
}

/// A number in decimal, with a minus sign if it is negative.
pub open spec fn signed_decimal(n: int) -> Seq<char> {
    if n < 0 {
        seq!['-'] + decimal((-n) as nat)
    } else {
        decimal(n as nat)
    }
}

proof fn lemma_decimal_digits(n: nat)
    ensures
        decimal(n).len() > 0,
        decimal(n)[0] != '-',
    decreases n,
{
    if n >= 10 {
        lemma_decimal_digits(n / 10);
    }
}

proof fn lemma_decimal_injective(n: nat, m: nat)
    requires
        decimal(n) == decimal(m),
    ensures
        n == m,
    decreases n,
{
    lemma_decimal_digits(n / 10);
    lemma_decimal_digits(m / 10);
    let a = decimal(n).last() as u32;
    let b = decimal(m).last() as u32;
    assert(a == 48 + n % 10);
    assert(b == 48 + m % 10);
    if n >= 10 {
        assert(decimal(n).drop_last() =~= decimal(n / 10));
        assert(decimal(m).drop_last() =~= decimal(m / 10));
        lemma_decimal_injective(n / 10, m / 10);
    }
}

/// A number is determined by its decimal form.
pub proof fn lemma_signed_decimal_injective(n: int, m: int)
    requires
        signed_decimal(n) == signed_decimal(m),
    ensures
        n == m,
{
    let a = if n < 0 {
        (-n) as nat
    } else {
        n as nat
    };
    let b = if m < 0 {
        (-m) as nat
    } else {
        m as nat
    };
    lemma_decimal_digits(a);
    lemma_decimal_digits(b);
    assert((n < 0) == (signed_decimal(n)[0] == '-'));
    assert((m < 0) == (signed_decimal(m)[0] == '-'));
    if n < 0 {
        assert(signed_decimal(n).skip(1) =~= decimal(a));
        assert(signed_decimal(m).skip(1) =~= decimal(b));
    }
    lemma_decimal_injective(a, b);
}

/// Appends a number in decimal.
pub fn push_decimal(out: &mut String, n: u128)
    ensures
        final(out)@ == old(out)@ + decimal(n as nat),
    decreases n,
{
    if n >= 10 {
        push_decimal(out, n / 10);
    }
    let d: u8 = (n % 10) as u8;
    out.push((48 + d) as char);
    assert(out@ =~= old(out)@ + decimal(n as nat));
}

/// Appends a number in decimal, with its sign.
pub fn push_signed(out: &mut String, n: i64)
    ensures
        final(out)@ == old(out)@ + signed_decimal(n as int),
{
    if n < 0 {
        out.push('-');
        let m: u128 = (-(n as i128)) as u128;
        push_decimal(out, m);
        assert(out@ =~= old(out)@ + signed_decimal(n as int));
    } else {
        push_decimal(out, n as u128);
    }
}


// Laws.

/// Whether a text is made of white space only.
pub open spec fn is_blank(s: Seq<char>) -> bool {
    forall|i: int| 0 <= i < s.len() ==> is_white_space(#[trigger] s[i])
}

/// Whether a text is a single word: it has characters, and none is white space.
pub open spec fn is_word(s: Seq<char>) -> bool {
    s.len() > 0 && forall|i: int| 0 <= i < s.len() ==> !is_white_space(#[trigger] s[i])
}

/// White space is the tab, the line breaks, the space, and the characters beyond ASCII that Unicode
/// counts to it; every other character is part of a word.
pub proof fn lemma_white_space(c: char, r: bool)
    requires
        call_ensures(white_space, (c,), r),
    ensures
        r == is_white_space(c),
        r <==> c == '\t' || c == '\n' || c == '\u{b}' || c == '\u{c}' || c == '\r' || c == ' ' || c
            == '\u{85}' || c == '\u{a0}' || c == '\u{1680}' || c == '\u{2000}' || c == '\u{2001}' || c
            == '\u{2002}' || c == '\u{2003}' || c == '\u{2004}' || c == '\u{2005}' || c == '\u{2006}'
            || c == '\u{2007}' || c == '\u{2008}' || c == '\u{2009}' || c == '\u{200a}' || c
            == '\u{2028}' || c == '\u{2029}' || c == '\u{202f}' || c == '\u{205f}' || c == '\u{3000}',
{
}

proof fn lemma_skipped_is_white(s: Seq<char>, i: int)
    requires
        0 <= i <= s.len(),
    ensures
        forall|k: int| i <= k < skip_white(s, i) ==> is_white_space(#[trigger] s[k]),
        forall|k: int| i <= k < skip_word(s, i) ==> !is_white_space(#[trigger] s[k]),
    decreases s.len() - i,
{
    if i < s.len() {
        lemma_skipped_is_white(s, i + 1);
    }
}

proof fn lemma_skip_white_at(s: Seq<char>, i: int, e: int)
    requires
        0 <= i <= e <= s.len(),
        forall|k: int| i <= k < e ==> is_white_space(#[trigger] s[k]),
    ensures
        skip_white(s, i) == skip_white(s, e),
    decreases e - i,
{
    if i < e {
        lemma_skip_white_at(s, i + 1, e);
    }
}

proof fn lemma_skip_word_at(s: Seq<char>, i: int, e: int)
    requires
        0 <= i <= e <= s.len(),
        forall|k: int| i <= k < e ==> !is_white_space(#[trigger] s[k]),
    ensures
        skip_word(s, i) == skip_word(s, e),
    decreases e - i,
{
    if i < e {
        lemma_skip_word_at(s, i + 1, e);
    }
}

proof fn lemma_white_tail(s: Seq<char>, b: int, e: int)
    requires
        0 <= b <= e <= s.len(),
    ensures
        b <= drop_white_tail(s, b, e) <= e,
        forall|k: int| drop_white_tail(s, b, e) <= k < e ==> is_white_space(#[trigger] s[k]),
        b < drop_white_tail(s, b, e) ==> !is_white_space(s[drop_white_tail(s, b, e) - 1]),
    decreases e - b,
{
    if b < e && is_white_space(s[e - 1]) {
        lemma_white_tail(s, b, e - 1);
    }
}

/// Trimming takes white space off both ends, all of it and nothing else: the text is the result
/// between two blank texts, and the result neither starts nor ends with white space.
pub proof fn lemma_trimmed(s: Seq<char>)
    ensures
        exists|b: int, e: int|
            0 <= b <= e <= s.len() && trimmed(s) == #[trigger] s.subrange(b, e) && is_blank(
                s.take(b),
            ) && is_blank(s.skip(e)),
        trimmed(s).len() > 0 ==> !is_white_space(trimmed(s)[0]) && !is_white_space(
            trimmed(s).last(),
        ),
{
    let b = skip_white(s, 0);
    let e = drop_white_tail(s, b, s.len() as int);
    lemma_skips(s, 0);
    lemma_skipped_is_white(s, 0);
    lemma_white_tail(s, b, s.len() as int);
    assert(is_blank(s.take(b)));
    assert forall|i: int| 0 <= i < s.skip(e).len() implies is_white_space(
        #[trigger] s.skip(e)[i],
    ) by {
        assert(s.skip(e)[i] == s[e + i]);
    }
    assert(trimmed(s) == s.subrange(b, e));
}

/// The law of `trimmed` holds of what `trim` returns.
pub proof fn lemma_trim(s: &str, r: String)
    requires
        call_ensures(trim, (s,), r),
    ensures
        exists|b: int, e: int|
            0 <= b <= e <= s@.len() && r@ == #[trigger] s@.subrange(b, e) && is_blank(s@.take(b))
                && is_blank(s@.skip(e)),
        r@.len() > 0 ==> !is_white_space(r@[0]) && !is_white_space(r@.last()),
{
    lemma_trimmed(s@);
}

proof fn lemma_skips_shift(p: Seq<char>, s: Seq<char>, i: int)
    requires
        0 <= i <= s.len(),
    ensures
        skip_white(p + s, p.len() + i) == p.len() + skip_white(s, i),
        skip_word(p + s, p.len() + i) == p.len() + skip_word(s, i),
    decreases s.len() - i,
{
    if i < s.len() {
        assert((p + s)[p.len() + i] == s[i]);
        lemma_skips_shift(p, s, i + 1);
    }
}

proof fn lemma_words_shift(p: Seq<char>, s: Seq<char>, i: int)
    requires
        0 <= i <= s.len(),
    ensures
        words_from(p + s, p.len() + i) == words_from(s, i),
    decreases s.len() - i,
{
    let b = skip_white(s, i);
    lemma_skips(s, i);
    lemma_skips_shift(p, s, i);
    if b < s.len() {
        let e = skip_word(s, b);
        lemma_skips(s, b);
        lemma_skips_shift(p, s, b);
        lemma_words_shift(p, s, e);
        assert((p + s).subrange(p.len() + b, p.len() + e) =~= s.subrange(b, e));
    }
}

proof fn lemma_words_split(a: Seq<char>, gap: Seq<char>, s: Seq<char>, i: int)
    requires
        0 <= i <= a.len(),
        is_blank(gap),
        gap.len() > 0,
    ensures
        words_from(a + gap + s, i) == words_from(a, i) + words_from(s, 0),
    decreases a.len() - i,
{
    let t = a + gap + s;
    let b = skip_white(a, i);
    lemma_skips(a, i);
    lemma_skipped_is_white(a, i);
    assert forall|k: int| i <= k < b implies is_white_space(#[trigger] t[k]) by {
        assert(t[k] == a[k]);
    }
    if b < a.len() {
        let e = skip_word(a, b);
        lemma_skips(a, b);
        lemma_skipped_is_white(a, b);
        lemma_skip_white_at(t, i, b);
        assert(t[b] == a[b]);
        assert(skip_white(t, i) == b);
        assert forall|k: int| b <= k < e implies !is_white_space(#[trigger] t[k]) by {
            assert(t[k] == a[k]);
        }
        lemma_skip_word_at(t, b, e);
        assert(is_white_space(t[e])) by {
            if e < a.len() {
                assert(t[e] == a[e]);
            } else {
                assert(t[e] == gap[0]);
            }
        }
        assert(skip_word(t, b) == e);
        lemma_words_split(a, gap, s, e);
        assert(t.subrange(b, e) =~= a.subrange(b, e));
        assert(words_from(t, i) =~= seq![a.subrange(b, e)] + words_from(t, e));
        assert(words_from(a, i) =~= seq![a.subrange(b, e)] + words_from(a, e));
        assert(words_from(t, i) =~= words_from(a, i) + words_from(s, 0));
    } else {
        let n = (a + gap).len() as int;
        assert forall|k: int| i <= k < n implies is_white_space(#[trigger] t[k]) by {
            if k < a.len() {
                assert(t[k] == a[k]);
            } else {
                assert(t[k] == gap[k - a.len()]);
            }
        }
        lemma_skip_white_at(t, i, n);
        lemma_words_shift(a + gap, s, 0);
        assert(words_from(t, i) == words_from(t, n));
        assert(words_from(a, i) =~= Seq::<Seq<char>>::empty());
        assert(words_from(t, i) =~= words_from(a, i) + words_from(s, 0));
    }
}

/// White space separates words, whatever it is and however much of it: the words of two texts
/// with white space between them are the words of the one and then those of the other.
pub proof fn lemma_words_concat(a: Seq<char>, gap: Seq<char>, s: Seq<char>)
    requires
        is_blank(gap),
        gap.len() > 0,
    ensures
        words(a + gap + s) == words(a) + words(s),
{
    lemma_words_split(a, gap, s, 0);
}

/// A blank text has no words, and a text without white space is its only word.
pub proof fn lemma_words_of_one(s: Seq<char>)
    ensures
        is_blank(s) ==> words(s) == Seq::<Seq<char>>::empty(),
        is_word(s) ==> words(s) == seq![s],
{
    let n = s.len() as int;
    if is_blank(s) {
        lemma_skip_white_at(s, 0, n);
        assert(words(s) =~= Seq::<Seq<char>>::empty());
    }
    if is_word(s) {
        assert(!is_white_space(s[0]));
        lemma_skip_word_at(s, 0, n);
        assert(skip_white(s, 0) == 0 && skip_word(s, 0) == n);
        assert(s.subrange(0, n) =~= s);
        assert(words_from(s, n) =~= Seq::<Seq<char>>::empty());
        assert(words(s) =~= seq![s]);
    }
}

/// The first two words of a text: white space before them does not matter, nor what follows the
/// white space behind them.
pub proof fn lemma_first_words(
    lead: Seq<char>,
    first: Seq<char>,
    gap: Seq<char>,
    second: Seq<char>,
    tail: Seq<char>,
)
    requires
        is_blank(lead),
        is_word(first),
        is_blank(gap),
        gap.len() > 0,
        is_word(second),
        tail.len() > 0 ==> is_white_space(tail[0]),
    ensures
        words(lead + first + gap + second + tail).len() >= 2,
        words(lead + first + gap + second + tail)[0] == first,
        words(lead + first + gap + second + tail)[1] == second,
{
    let two = first + gap + second;
    lemma_words_of_one(first);
    lemma_words_of_one(second);
    lemma_words_concat(first, gap, second);
    let body = two + tail;
    if tail.len() > 0 {
        let space = seq![tail[0]];
        assert(body =~= two + space + tail.skip(1));
        lemma_words_concat(two, space, tail.skip(1));
    } else {
        assert(body =~= two);
    }
    let whole = lead + first + gap + second + tail;
    if lead.len() > 0 {
        let none = Seq::<char>::empty();
        assert(whole =~= none + lead + body);
        lemma_words_concat(none, lead, body);
        lemma_words_of_one(none);
    } else {
        assert(whole =~= body);
    }
}

proof fn lemma_words_are_words(s: Seq<char>, i: int, k: int)
    requires
        0 <= i <= s.len(),
        0 <= k < words_from(s, i).len(),
    ensures
        is_word(words_from(s, i)[k]),
    decreases s.len() - i,
{
    let b = skip_white(s, i);
    lemma_skips(s, i);
    if b < s.len() {
        let e = skip_word(s, b);
        lemma_skips(s, b);
        lemma_skipped_is_white(s, b);
        if k > 0 {
            lemma_words_are_words(s, e, k - 1);
            assert(words_from(s, i)[k] == words_from(s, e)[k - 1]);
        } else {
            assert(words_from(s, i)[0] == s.subrange(b, e));
        }
    }
}

/// Every word has characters, and none of them is white space.
pub proof fn lemma_split_words(s: &str, r: Vec<String>, k: int)
    requires
        call_ensures(split_words, (s,), r),
        0 <= k < r@.len(),
    ensures
        is_word(r@[k]@),
        r@[k]@ == words(s@)[k],
{
    let views = r@.map_values(|w: String| w@);
    assert(views == words(s@));
    assert(views[k] == r@[k]@);
    lemma_words_are_words(s@, 0, k);
}

/// A text several times over.
pub open spec fn copies(s: Seq<char>, n: nat) -> Seq<char>
    decreases n,
{
    if n == 0 {
        Seq::empty()
    } else {
        s + copies(s, (n - 1) as nat)
    }
}

/// What is left of a text without its leading copies of a prefix does not start with the prefix,
/// and makes the text together with copies of it.
pub proof fn lemma_stripped(s: Seq<char>, prefix: Seq<char>)
    requires
        prefix.len() > 0,
    ensures
        !prefix.is_prefix_of(strip_all(s, prefix)),
        exists|n: nat| s == #[trigger] copies(prefix, n) + strip_all(s, prefix),
    decreases s.len(),
{
    if prefix.is_prefix_of(s) {
        let rest = s.skip(prefix.len() as int);
        lemma_stripped(rest, prefix);
        let n = choose|n: nat| rest == #[trigger] copies(prefix, n) + strip_all(rest, prefix);
        assert(s =~= prefix + rest);
        assert(s =~= copies(prefix, n + 1) + strip_all(s, prefix));
    } else {
        assert(s =~= copies(prefix, 0) + strip_all(s, prefix));
    }
}

/// A text that does not start with a prefix comes out of any number of copies of the prefix in
/// front of it.
pub proof fn lemma_strip_copies(prefix: Seq<char>, n: nat, rest: Seq<char>)
    requires
        prefix.len() > 0,
        !prefix.is_prefix_of(rest),
    ensures
        strip_all(copies(prefix, n) + rest, prefix) == rest,
    decreases n,
{
    let s = copies(prefix, n) + rest;
    if n == 0 {
        assert(s =~= rest);
    } else {
        let less = copies(prefix, (n - 1) as nat) + rest;
        assert(s =~= prefix + less);
        assert(prefix =~= s.subrange(0, prefix.len() as int));
        assert(s.skip(prefix.len() as int) =~= less);
        lemma_strip_copies(prefix, (n - 1) as nat, rest);
    }
}

/// The ASCII lower-case form maps the letters from `A` to `Z` to those from `a` to `z`, one by
/// one, and leaves everything else alone.
pub proof fn lemma_ascii_lower(c: char)
    ensures
        ({
            let upper = "ABCDEFGHIJKLMNOPQRSTUVWXYZ"@;
            let lower = "abcdefghijklmnopqrstuvwxyz"@;
            &&& forall|i: int| 0 <= i < 26 ==> ascii_lower(#[trigger] upper[i]) == lower[i]
            &&& !upper.contains(c) ==> ascii_lower(c) == c
        }),
{
    reveal_strlit("ABCDEFGHIJKLMNOPQRSTUVWXYZ");
    reveal_strlit("abcdefghijklmnopqrstuvwxyz");
    let upper = "ABCDEFGHIJKLMNOPQRSTUVWXYZ"@;
    let lower = "abcdefghijklmnopqrstuvwxyz"@;
    assert forall|i: int| 0 <= i < 26 implies ascii_lower(#[trigger] upper[i]) == lower[i] by {
        assert(upper[i] as u32 == 65 + i);
        assert(lower[i] as u32 == 97 + i);
    }
    if 65 <= c as u32 <= 90 {
        let i = c as u32 - 65;
        assert(upper[i] as u32 == c as u32);
        assert(upper[i] == c);
    }
}

/// The number that decimal digits stand for.
pub open spec fn digits_value(s: Seq<char>) -> int
    decreases s.len(),
{
    if s.len() == 0 {
        0
    } else {
        digits_value(s.drop_last()) * 10 + (s.last() as u32 - '0' as u32)
    }
}

/// Whether a text is a number in decimal digits, without a leading zero unless it is zero.
pub open spec fn is_decimal_of(s: Seq<char>, n: int) -> bool {
    &&& s.len() > 0
    &&& forall|i: int| 0 <= i < s.len() ==> '0' as u32 <= (#[trigger] s[i]) as u32 <= '9' as u32
    &&& s[0] == '0' ==> s.len() == 1
    &&& digits_value(s) == n
}

/// The decimal form of a number is made of digits, has no leading zero, and its digits stand for
/// the number.
pub proof fn lemma_decimal(n: nat)
    ensures
        is_decimal_of(decimal(n), n as int),
    decreases n,
{
    let d = digit((n % 10) as int);
    assert(d as u32 == 48 + n % 10);
    if n < 10 {
        assert(decimal(n) =~= seq![d]);
        assert(decimal(n).drop_last() =~= Seq::<char>::empty());
        assert(digits_value(Seq::<char>::empty()) == 0);
    } else {
        lemma_decimal(n / 10);
        let s = decimal(n / 10);
        assert(s.push(d).drop_last() =~= s);
        assert(s[0] == '0' ==> digits_value(s) == 0) by {
            if s[0] == '0' {
                assert(s.drop_last() =~= Seq::<char>::empty());
                assert(digits_value(Seq::<char>::empty()) == 0);
            }
        }
    }
}

/// What is appended for a number is its decimal form.
pub proof fn lemma_push_decimal(out: &mut String, n: u128)
    requires
        call_ensures(push_decimal, (out, n), ()),
    ensures
        old(out)@.is_prefix_of(final(out)@),
        is_decimal_of(final(out)@.skip(old(out)@.len() as int), n as int),
{
    lemma_decimal(n as nat);
    assert(final(out)@.skip(old(out)@.len() as int) =~= decimal(n as nat));
    assert(final(out)@.subrange(0, old(out)@.len() as int) =~= old(out)@);
}

/// What is appended for a number with a sign is a minus if it is negative, and then the decimal
/// form of its size.
pub proof fn lemma_push_signed(out: &mut String, n: i64)
    requires
        call_ensures(push_signed, (out, n), ()),
    ensures
        old(out)@.is_prefix_of(final(out)@),
        is_signed_decimal_of(final(out)@.skip(old(out)@.len() as int), n as int),
{
    assert(final(out)@.skip(old(out)@.len() as int) =~= signed_decimal(n as int));
    assert(final(out)@.subrange(0, old(out)@.len() as int) =~= old(out)@);
    lemma_signed_decimal(n as int);
}


/// Whether a text is a number in decimal, with a minus sign if it is negative.
pub open spec fn is_signed_decimal_of(text: Seq<char>, n: int) -> bool {
    if n < 0 {
        text.len() > 0 && text[0] == '-' && is_decimal_of(text.skip(1), -n)
    } else {
        is_decimal_of(text, n)
    }
}

/// The decimal form of a number with a sign is a minus if it is negative, and then the decimal form
/// of its size.
pub proof fn lemma_signed_decimal(n: int)
    ensures
        is_signed_decimal_of(signed_decimal(n), n),
{
    if n < 0 {
        lemma_decimal((-n) as nat);
        assert(signed_decimal(n).skip(1) =~= decimal((-n) as nat));
    } else {
        lemma_decimal(n as nat);
    }
}


/// A text starts with a prefix exactly if it is the prefix with something behind it.
pub proof fn lemma_starts_with(s: &str, prefix: &str, r: bool)
    requires
        call_ensures(starts_with, (s, prefix), r),
    ensures
        r <==> exists|rest: Seq<char>| s@ == #[trigger] (prefix@ + rest),
{
    if r {
        assert(s@ =~= prefix@ + s@.skip(prefix@.len() as int));
    }
    if exists|rest: Seq<char>| s@ == #[trigger] (prefix@ + rest) {
        assert(prefix@ =~= s@.subrange(0, prefix@.len() as int));
    }
}

/// What is left of a text without its leading copies of a prefix, over what `trim_start_matches`
/// returns.
pub proof fn lemma_trim_start_matches(s: &str, prefix: &str, r: String)
    requires
        call_ensures(trim_start_matches, (s, prefix), r),
        prefix@.len() > 0,
    ensures
        !prefix@.is_prefix_of(r@),
        exists|n: nat| s@ == #[trigger] copies(prefix@, n) + r@,
{
    lemma_stripped(s@, prefix@);
}

/// Texts are the same without regard to case exactly if they differ at most in ASCII letters that
/// are capital in one and small in the other.
pub proof fn lemma_eq_ignore_ascii_case(a: &str, b: &str, r: bool)
    requires
        call_ensures(eq_ignore_ascii_case, (a, b), r),
    ensures
        r <==> a@.len() == b@.len() && forall|i: int| #![trigger a@[i]]
            0 <= i < a@.len() ==> ascii_lower(a@[i]) == ascii_lower(b@[i]),
        a@ == b@ ==> r,
{
    if r {
        assert(ascii_lowered(a@).len() == a@.len());
        assert(ascii_lowered(b@).len() == b@.len());
        assert forall|i: int| #![trigger a@[i]] 0 <= i < a@.len() implies ascii_lower(a@[i])
            == ascii_lower(b@[i]) by {
            assert(ascii_lowered(a@)[i] == ascii_lowered(b@)[i]);
        }
    } else if a@.len() == b@.len() && (forall|i: int| #![trigger a@[i]]
        0 <= i < a@.len() ==> ascii_lower(a@[i]) == ascii_lower(b@[i])) {
        assert(ascii_lowered(a@) =~= ascii_lowered(b@));
    }
}

} // verus!
