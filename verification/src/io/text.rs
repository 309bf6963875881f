//! Text as sequences of characters.

use vstd::prelude::*;

verus! {

/// The characters of a string.
pub fn chars_of(s: &str) -> (r: Vec<char>)
    ensures
        r@ == s@,
{
    let mut v: Vec<char> = Vec::new();
    broadcast use vstd::string::axiom_spec_iter;

    for c in it: s.chars()
        invariant
            v@ == it.seq().subrange(0, it.index() as int),
    {
        v.push(c);
    }
    v
}

/// Collects characters into a string (`FromIterator<char>` of `String`).
#[verifier::external_body]
pub(crate) fn string_from_chars(chars: &Vec<char>) -> (r: String)
    ensures
        r@ == chars@,
{
    chars.iter().collect()
}


/// Whether a character has the Unicode `White_Space` property (the property
/// `char::is_whitespace` reports): the ASCII tab, line feed, vertical tab, form
/// feed, carriage return and space, next line (U+0085), no-break space
/// (U+00A0), Ogham space mark (U+1680), the spaces U+2000 to U+200A, the line
/// and paragraph separators (U+2028, U+2029), the narrow no-break space
/// (U+202F), the medium mathematical space (U+205F) and the ideographic space
/// (U+3000).
pub open spec fn unicode_white_space(c: char) -> bool {
    let n = c as u32;
    ||| 0x09 <= n <= 0x0D
    ||| n == 0x20
    ||| n == 0x85
    ||| n == 0xA0
    ||| n == 0x1680
    ||| 0x2000 <= n <= 0x200A
    ||| n == 0x2028
    ||| n == 0x2029
    ||| n == 0x202F
    ||| n == 0x205F
    ||| n == 0x3000
}

/// Whether a character is whitespace, in the sense of `char::is_whitespace`.
pub(crate) fn is_whitespace(c: char) -> (r: bool)
    ensures
        r == unicode_white_space(c),
{
    let n = c as u32;
    (0x09 <= n && n <= 0x0D) || n == 0x20 || n == 0x85 || n == 0xA0 || n == 0x1680 || (0x2000 <= n
        && n <= 0x200A) || n == 0x2028 || n == 0x2029 || n == 0x202F || n == 0x205F || n == 0x3000
}

/// Text without its leading whitespace.
pub open spec fn trim_start(s: Seq<char>) -> Seq<char>
    decreases s.len(),
{
    if s.len() > 0 && unicode_white_space(s[0]) {
        trim_start(s.drop_first())
    } else {
        s
    }
}

/// Text without its trailing whitespace.
pub open spec fn trim_end(s: Seq<char>) -> Seq<char>
    decreases s.len(),
{
    if s.len() > 0 && unicode_white_space(s.last()) {
        trim_end(s.drop_last())
    } else {
        s
    }
}

/// Text without leading and trailing whitespace (`str::trim`).
pub open spec fn trim(s: Seq<char>) -> Seq<char> {
    trim_end(trim_start(s))
}

/// The position of the first whitespace character, if any.
pub open spec fn first_whitespace(s: Seq<char>) -> Option<int>
    decreases s.len(),
{
    if s.len() == 0 {
        None
    } else if unicode_white_space(s[0]) {
        Some(0)
    } else {
        match first_whitespace(s.drop_first()) {
            Some(i) => Some(i + 1),
            None => None,
        }
    }
}

/// The characters after the last whitespace character (all of them when
/// there is none).
pub open spec fn after_last_whitespace(s: Seq<char>) -> Seq<char>
    decreases s.len(),
{
    if s.len() == 0 {
        s
    } else if unicode_white_space(s.last()) {
        Seq::empty()
    } else {
        after_last_whitespace(s.drop_last()).push(s.last())
    }
}

/// Whether `s` contains `pat` at position `i`.
pub open spec fn occurs_at(s: Seq<char>, pat: Seq<char>, i: int) -> bool {
    0 <= i && i + pat.len() <= s.len() && s.subrange(i, i + pat.len()) == pat
}

/// Whether `s` contains `pat` somewhere.
pub open spec fn contains(s: Seq<char>, pat: Seq<char>) -> bool {
    exists|i: int| occurs_at(s, pat, i)
}

/// Copies `s[start..end]`.
pub fn slice_chars(s: &Vec<char>, start: usize, end: usize) -> (r: Vec<char>)
    requires
        start <= end <= s@.len(),
    ensures
        r@ == s@.subrange(start as int, end as int),
{
    let mut r: Vec<char> = Vec::new();
    let mut i: usize = start;
    while i < end
        invariant
            start <= i <= end <= s@.len(),
            r@ == s@.subrange(start as int, i as int),
        decreases end - i,
    {
        r.push(s[i]);
        i += 1;
        assert(r@ =~= s@.subrange(start as int, i as int));
    }
    r
}

/// Leading whitespace of a suffix is that of the whole once the whitespace
/// before it is gone.
proof fn lemma_trim_start_skip(s: Seq<char>, i: int)
    requires
        0 <= i <= s.len(),
        forall|j: int| 0 <= j < i ==> unicode_white_space(s[j]),
    ensures
        trim_start(s) == trim_start(s.subrange(i, s.len() as int)),
    decreases i,
{
    if i > 0 {
        assert(s.drop_first().subrange(i - 1, s.drop_first().len() as int) =~= s.subrange(
            i,
            s.len() as int,
        ));
        lemma_trim_start_skip(s.drop_first(), i - 1);
    } else {
        assert(s.subrange(0, s.len() as int) =~= s);
    }
}

/// Trailing whitespace of a prefix is that of the whole once the whitespace
/// after it is gone.
proof fn lemma_trim_end_skip(s: Seq<char>, k: int)
    requires
        0 <= k <= s.len(),
        forall|j: int| k <= j < s.len() ==> unicode_white_space(s[j]),
    ensures
        trim_end(s) == trim_end(s.subrange(0, k)),
    decreases s.len() - k,
{
    if k < s.len() {
        assert(s.drop_last().subrange(0, k) =~= s.subrange(0, k));
        lemma_trim_end_skip(s.drop_last(), k);
    } else {
        assert(s.subrange(0, k) =~= s);
    }
}

/// Removes leading and trailing whitespace (`str::trim`).
pub fn trim_chars(s: &Vec<char>) -> (r: Vec<char>)
    ensures
        r@ == trim(s@),
{
    let mut start: usize = 0;
    while start < s.len() && is_whitespace(s[start])
        invariant
            start <= s@.len(),
            forall|j: int| 0 <= j < start ==> unicode_white_space(s@[j]),
        decreases s@.len() - start,
    {
        start += 1;
    }
    proof {
        lemma_trim_start_skip(s@, start as int);
    }
    let ghost rest = s@.subrange(start as int, s@.len() as int);
    let mut end: usize = s.len();
    while end > start && is_whitespace(s[end - 1])
        invariant
            start <= end <= s@.len(),
            rest == s@.subrange(start as int, s@.len() as int),
            forall|j: int| end <= j < s@.len() ==> unicode_white_space(s@[j]),
        decreases end,
    {
        end -= 1;
    }
    proof {
        assert(trim_start(rest) == rest);
        lemma_trim_end_skip(rest, end - start);
        assert(rest.subrange(0, end - start) =~= s@.subrange(start as int, end as int));
    }
    slice_chars(s, start, end)
}


/// Whether `t` begins with `p`.
pub open spec fn starts_with(t: Seq<char>, p: Seq<char>) -> bool {
    p.len() <= t.len() && t.subrange(0, p.len() as int) == p
}

/// Whether `t` begins with `p`.
pub fn starts_with_chars(t: &Vec<char>, p: &Vec<char>) -> (r: bool)
    ensures
        r == starts_with(t@, p@),
{
    if p.len() > t.len() {
        return false;
    }
    let mut i: usize = 0;
    while i < p.len()
        invariant
            p@.len() <= t@.len(),
            i <= p@.len(),
            forall|j: int| 0 <= j < i ==> t@[j] == p@[j],
        decreases p@.len() - i,
    {
        if t[i] != p[i] {
            assert(t@.subrange(0, p@.len() as int)[i as int] != p@[i as int]);
            return false;
        }
        i += 1;
    }
    assert(t@.subrange(0, p@.len() as int) =~= p@);
    true
}

/// Whether `t` holds `p` at position `i`.
fn occurs_at_chars(t: &Vec<char>, p: &Vec<char>, i: usize) -> (r: bool)
    requires
        i + p@.len() <= t@.len(),
    ensures
        r == occurs_at(t@, p@, i as int),
{
    let tl = t.len();
    let mut j: usize = 0;
    while j < p.len()
        invariant
            tl == t@.len(),
            i + p@.len() <= t@.len(),
            j <= p@.len(),
            forall|k: int| 0 <= k < j ==> t@[i + k] == p@[k],
        decreases p@.len() - j,
    {
        if t[i + j] != p[j] {
            assert(t@.subrange(i as int, i + p@.len())[j as int] != p@[j as int]);
            return false;
        }
        j += 1;
    }
    assert(t@.subrange(i as int, i + p@.len()) =~= p@);
    true
}

/// Whether `t` contains `p` somewhere.
pub fn contains_chars(t: &Vec<char>, p: &Vec<char>) -> (r: bool)
    ensures
        r == contains(t@, p@),
{
    if p.len() > t.len() {
        assert(forall|i: int| !occurs_at(t@, p@, i));
        return false;
    }
    if p.len() == 0 {
        assert(t@.subrange(0, 0) =~= p@);
        assert(occurs_at(t@, p@, 0));
        return true;
    }
    let last = t.len() - p.len();
    let mut i: usize = 0;
    while i <= last
        invariant
            last + p@.len() == t@.len(),
            t@.len() <= usize::MAX,
            p@.len() >= 1,
            i <= last + 1,
            forall|k: int| 0 <= k < i ==> !occurs_at(t@, p@, k),
        decreases last + 1 - i,
    {
        if occurs_at_chars(t, p, i) {
            return true;
        }
        i += 1;
    }
    assert(forall|k: int| !occurs_at(t@, p@, k));
    false
}

/// The characters after the last whitespace character.
pub fn after_last_whitespace_chars(t: &Vec<char>) -> (r: Vec<char>)
    ensures
        r@ == after_last_whitespace(t@),
{
    let mut k: usize = t.len();
    while k > 0 && !is_whitespace(t[k - 1])
        invariant
            k <= t@.len(),
            forall|j: int| k <= j < t@.len() ==> !unicode_white_space(t@[j]),
        decreases k,
    {
        k -= 1;
    }
    proof {
        lemma_after_last_whitespace(t@, k as int);
    }
    slice_chars(t, k, t.len())
}

/// The text after the last whitespace character starts where the trailing
/// run of non-whitespace does.
proof fn lemma_after_last_whitespace(s: Seq<char>, k: int)
    requires
        0 <= k <= s.len(),
        forall|j: int| k <= j < s.len() ==> !unicode_white_space(s[j]),
        k > 0 ==> unicode_white_space(s[k - 1]),
    ensures
        after_last_whitespace(s) == s.subrange(k, s.len() as int),
    decreases s.len(),
{
    if s.len() > k {
        lemma_after_last_whitespace(s.drop_last(), k);
        assert(s.drop_last().subrange(k, s.len() - 1).push(s.last()) =~= s.subrange(
            k,
            s.len() as int,
        ));
    } else if s.len() > 0 {
        assert(s.subrange(k, s.len() as int) =~= Seq::<char>::empty());
    } else {
        assert(s.subrange(k, s.len() as int) =~= s);
    }
}


/// The decimal digit of a value below ten.
pub open spec fn digit_char(d: int) -> char {
    (d + 48) as char
}

/// The decimal text of a natural number, without leading zeros.
pub open spec fn decimal_text(n: nat) -> Seq<char>
    decreases n,
{
    if n < 10 {
        seq![digit_char(n as int)]
    } else {
        decimal_text(n / 10).push(digit_char((n % 10) as int))
    }
}

/// The last `width` decimal digits of a number, with leading zeros.
pub open spec fn padded_decimal_text(n: nat, width: nat) -> Seq<char>
    decreases width,
{
    if width == 0 {
        Seq::empty()
    } else {
        padded_decimal_text(n / 10, (width - 1) as nat).push(digit_char((n % 10) as int))
    }
}

/// The decimal digit of a value below ten.
fn digit(d: u64) -> (r: char)
    requires
        d < 10,
    ensures
        r == digit_char(d as int),
{
    ((d as u8) + 48) as char
}

/// The decimal text of a number.
pub fn decimal_chars(n: u64) -> (r: Vec<char>)
    ensures
        r@ == decimal_text(n as nat),
    decreases n,
{
    if n < 10 {
        let mut v: Vec<char> = Vec::new();
        v.push(digit(n));
        assert(v@ =~= decimal_text(n as nat));
        v
    } else {
        let mut v = decimal_chars(n / 10);
        v.push(digit(n % 10));
        v
    }
}

/// The last `width` decimal digits of a number, with leading zeros.
pub fn padded_decimal_chars(n: u64, width: usize) -> (r: Vec<char>)
    ensures
        r@ == padded_decimal_text(n as nat, width as nat),
    decreases width,
{
    if width == 0 {
        let v: Vec<char> = Vec::new();
        assert(v@ =~= padded_decimal_text(n as nat, width as nat));
        v
    } else {
        let mut v = padded_decimal_chars(n / 10, width - 1);
        v.push(digit(n % 10));
        v
    }
}

} // verus!
