use vstd::prelude::*;

verus! {

/// The character of decimal digit `d` (`0 <= d < 10`).
pub open spec fn digit_char(d: nat) -> char {
    (48 + d) as char
}

/// The decimal representation of `n`, without sign or leading zeros.
pub open spec fn decimal(n: nat) -> Seq<char>
    decreases n,
{
    if n < 10 {
        seq![digit_char(n)]
    } else {
        decimal(n / 10).push(digit_char(n % 10))
    }
}

/// The decimal digits of `n` (as `u64::to_string` writes them).
pub fn decimal_string(n: u64) -> (s: String)
    ensures
        s@ == decimal(n as nat),
    decreases n,
{
    let digits = "0123456789";
    proof {
        reveal_strlit("0123456789");
    }
    let d = (n % 10) as usize;
    let last = digits.substring_char(d, d + 1);
    assert(last@ =~= seq![digit_char(d as nat)]);
    if n < 10 {
        String::from_str(last)
    } else {
        let mut s = decimal_string(n / 10);
        s.append(last);
        s
    }
}

/// Unicode `White_Space`, the property that `char::is_whitespace` tests.
pub open spec fn is_white_space(c: char) -> bool {
    let v = c as u32;
    ||| 0x9 <= v <= 0xd
    ||| v == 0x20
    ||| v == 0x85
    ||| v == 0xa0
    ||| v == 0x1680
    ||| 0x2000 <= v <= 0x200a
    ||| v == 0x2028
    ||| v == 0x2029
    ||| v == 0x202f
    ||| v == 0x205f
    ||| v == 0x3000
}

/// Whether `c` is white space in the sense of `char::is_whitespace`.
pub fn is_white_space_char(c: char) -> (r: bool)
    ensures
        r == is_white_space(c),
{
    let v = c as u32;
    (0x9 <= v && v <= 0xd) || v == 0x20 || v == 0x85 || v == 0xa0 || v == 0x1680 || (0x2000 <= v
        && v <= 0x200a) || v == 0x2028 || v == 0x2029 || v == 0x202f || v == 0x205f || v == 0x3000
}

/// The position of the first character at or after `i` that is not white space
/// (the length when there is none).
pub open spec fn skip_space_forward(s: Seq<char>, i: int) -> int
    decreases s.len() - i,
{
    if i < 0 || i >= s.len() {
        s.len() as int
    } else if is_white_space(s[i]) {
        skip_space_forward(s, i + 1)
    } else {
        i
    }
}

/// The end of the text in `s[lo..j]` once trailing white space is dropped.
pub open spec fn skip_space_backward(s: Seq<char>, lo: int, j: int) -> int
    decreases j - lo,
{
    if j <= lo || j > s.len() {
        lo
    } else if is_white_space(s[j - 1]) {
        skip_space_backward(s, lo, j - 1)
    } else {
        j
    }
}

/// `s` without its leading and trailing white space, as `str::trim` gives it.
pub open spec fn trimmed(s: Seq<char>) -> Seq<char> {
    let lo = skip_space_forward(s, 0);
    let hi = skip_space_backward(s, lo, s.len() as int);
    s.subrange(lo, hi)
}

proof fn lemma_skip_forward_bounds(s: Seq<char>, i: int)
    requires
        0 <= i <= s.len(),
    ensures
        i <= skip_space_forward(s, i) <= s.len(),
        skip_space_forward(s, i) < s.len() ==> !is_white_space(s[skip_space_forward(s, i)]),
        forall|k: int| i <= k < skip_space_forward(s, i) ==> is_white_space(#[trigger] s[k]),
    decreases s.len() - i,
{
    if i < s.len() && is_white_space(s[i]) {
        lemma_skip_forward_bounds(s, i + 1);
    }
}

proof fn lemma_skip_backward_bounds(s: Seq<char>, lo: int, j: int)
    requires
        0 <= lo <= j <= s.len(),
    ensures
        lo <= skip_space_backward(s, lo, j) <= j,
        skip_space_backward(s, lo, j) > lo ==> !is_white_space(s[skip_space_backward(s, lo, j) - 1]),
        forall|k: int| skip_space_backward(s, lo, j) <= k < j ==> is_white_space(#[trigger] s[k]),
    decreases j - lo,
{
    if j > lo && is_white_space(s[j - 1]) {
        lemma_skip_backward_bounds(s, lo, j - 1);
    }
}


/// Trimming leaves no white space at either end, and only removes white
/// space: the result is the middle of the text, between a white-space
/// prefix and a white-space suffix.
pub proof fn lemma_trimmed_has_no_outer_space(s: Seq<char>)
    ensures
        trimmed(s).len() > 0 ==> !is_white_space(trimmed(s)[0])
            && !is_white_space(trimmed(s)[trimmed(s).len() - 1]),
        exists|lo: int, hi: int| {
            &&& 0 <= lo <= hi <= s.len()
            &&& trimmed(s) == s.subrange(lo, hi)
            &&& forall|k: int| 0 <= k < lo ==> is_white_space(#[trigger] s[k])
            &&& forall|k: int| hi <= k < s.len() ==> is_white_space(#[trigger] s[k])
        },
{
    lemma_skip_forward_bounds(s, 0);
    let lo = skip_space_forward(s, 0);
    lemma_skip_backward_bounds(s, lo, s.len() as int);
    let hi = skip_space_backward(s, lo, s.len() as int);
    assert(trimmed(s) == s.subrange(lo, hi));
    if trimmed(s).len() > 0 {
        assert(trimmed(s)[0] == s[lo]);
        assert(trimmed(s)[trimmed(s).len() - 1] == s[hi - 1]);
    }
}

/// A copy of `s` without leading and trailing white space (`str::trim`).
pub fn trim(s: &str) -> (t: String)
    ensures
        t@ == trimmed(s@),
{
    let n = s.unicode_len();
    let mut lo: usize = 0;
    while lo < n && is_white_space_char(s.get_char(lo))
        invariant
            n == s@.len(),
            lo <= n,
            skip_space_forward(s@, lo as int) == skip_space_forward(s@, 0),
        decreases n - lo,
    {
        lo = lo + 1;
    }
    let mut hi: usize = n;
    while hi > lo && is_white_space_char(s.get_char(hi - 1))
        invariant
            n == s@.len(),
            lo <= hi <= n,
            lo == skip_space_forward(s@, 0),
            skip_space_backward(s@, lo as int, hi as int) == skip_space_backward(s@, lo as int, n as int),
        decreases hi - lo,
    {
        hi = hi - 1;
    }
    String::from_str(s.substring_char(lo, hi))
}

} // verus!
