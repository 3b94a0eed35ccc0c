//! Character-level text handling shared by the screens and the token reader.
use vstd::prelude::*;

verus! {

/// `String::push` of std: appends `c` at the end of `s`.
#[verifier::external_body]
pub(crate) fn push_char(s: &mut String, c: char)
    ensures
        final(s)@ == old(s)@.push(c),
{
    s.push(c)
}

/// `String::pop` of std: removes the last char of `s` and returns it, or returns
/// `None` and leaves `s` as it is when `s` is empty.
#[verifier::external_body]
pub(crate) fn pop_char(s: &mut String) -> (last: Option<char>)
    ensures
        old(s)@.len() == 0 ==> last is None && final(s)@ == old(s)@,
        old(s)@.len() > 0 ==> last == Some(old(s)@.last()) && final(s)@ == old(s)@.drop_last(),
{
    s.pop()
}

/// The chars of `s`, in order.
pub fn chars_of(s: &str) -> (chars: Vec<char>)
    ensures
        chars@ == s@,
{
    let mut chars: Vec<char> = Vec::new();
    for c in it: s.chars()
        invariant
            chars@ == it.seq().take(it.index() as int),
    {
        chars.push(c);
    }
    chars
}

/// A new string made of `chars[start..end]`.
pub fn string_from_range(chars: &Vec<char>, start: usize, end: usize) -> (s: String)
    requires
        start <= end <= chars@.len(),
    ensures
        s@ == chars@.subrange(start as int, end as int),
{
    let mut s = String::new();
    let mut k = start;
    while k < end
        invariant
            start <= k <= end <= chars@.len(),
            s@ == chars@.subrange(start as int, k as int),
        decreases end - k,
    {
        push_char(&mut s, chars[k]);
        k = k + 1;
    }
    s
}

/// Whether two texts hold the same chars.
pub fn same_text(a: &str, b: &str) -> (equal: bool)
    ensures
        equal == (a@ == b@),
{
    let x = chars_of(a);
    let y = chars_of(b);
    if x.len() != y.len() {
        return false;
    }
    let mut i: usize = 0;
    while i < x.len()
        invariant
            x@ == a@,
            y@ == b@,
            x@.len() == y@.len(),
            i <= x@.len(),
            forall|k: int| 0 <= k < i ==> x@[k] == y@[k],
        decreases x@.len() - i,
    {
        if x[i] != y[i] {
            return false;
        }
        i = i + 1;
    }
    assert(x@ =~= y@);
    true
}

/// The char that writes the decimal digit `d`.
pub open spec fn digit_char(d: nat) -> char {
    (48 + d) as char
}

/// The decimal writing of `n`, without sign or leading zeros.
pub open spec fn decimal(n: nat) -> Seq<char>
    decreases n,
{
    if n < 10 {
        seq![digit_char(n)]
    } else {
        decimal(n / 10).push(digit_char(n % 10))
    }
}

/// Appends the decimal writing of `n` to `s`.
pub fn push_decimal(s: &mut String, n: u64)
    ensures
        final(s)@ == old(s)@ + decimal(n as nat),
    decreases n,
{
    if n >= 10 {
        push_decimal(s, n / 10);
    }
    let d: u8 = (n % 10) as u8;
    let c = (48u8 + d) as char;
    push_char(s, c);
    assert(final(s)@ =~= old(s)@ + decimal(n as nat));
}

/// The decimal writing of `n`.
pub fn decimal_string(n: u64) -> (s: String)
    ensures
        s@ == decimal(n as nat),
{
    let mut s = String::new();
    push_decimal(&mut s, n);
    assert(s@ =~= decimal(n as nat));
    s
}

/// `n` spaces.
pub open spec fn spaces(n: nat) -> Seq<char> {
    Seq::new(n, |i: int| ' ')
}

/// `text` followed by spaces up to `width` chars, as the `{:<width}` format pads.
pub open spec fn padded(text: Seq<char>, width: nat) -> Seq<char> {
    if text.len() < width {
        text + spaces((width - text.len()) as nat)
    } else {
        text
    }
}

/// `text` left-aligned in a column of `width` chars.
pub fn pad_right(text: &str, width: usize) -> (s: String)
    ensures
        s@ == padded(text@, width as nat),
{
    let chars = chars_of(text);
    let mut s = text.to_owned();
    let mut n = chars.len();
    while n < width
        invariant
            chars@ == text@,
            chars@.len() <= n,
            text@.len() < width ==> n <= width,
            text@.len() >= width ==> n == text@.len(),
            s@ == text@ + spaces((n - text@.len()) as nat),
        decreases width - n,
    {
        push_char(&mut s, ' ');
        n = n + 1;
        assert(s@ =~= text@ + spaces((n - text@.len()) as nat));
    }
    assert(s@ =~= padded(text@, width as nat));
    s
}

/// One `*` per byte of `secret`: what a password field shows.
pub open spec fn masked(secret: &str) -> Seq<char> {
    Seq::new(secret.len() as nat, |i: int| '*')
}

/// Hides `secret` behind as many `*` as it has bytes.
pub fn mask(secret: &str) -> (shown: String)
    ensures
        shown@ == masked(secret),
{
    let n = secret.len();
    let mut shown = String::new();
    let mut k: usize = 0;
    while k < n
        invariant
            n == secret.len(),
            k <= n,
            shown@ == Seq::new(k as nat, |i: int| '*'),
        decreases n - k,
    {
        push_char(&mut shown, '*');
        k = k + 1;
        assert(shown@ =~= Seq::new(k as nat, |i: int| '*'));
    }
    assert(shown@ =~= masked(secret));
    shown
}

} // verus!
