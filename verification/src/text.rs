//! Character-level rules used by the validation layer: whitespace
//! trimming, the email and phone shape checks, and lowercase
//! normalization of stored emails.

use vstd::prelude::*;

verus! {

/// The Unicode `White_Space` code points, the characters that trimming
/// removes and that the email check refuses.
pub open spec fn is_space_char(c: char) -> bool {
    is_space_code(c as u32)
}

pub open spec fn is_space_code(u: u32) -> bool {
    ||| u == 0x20
    ||| u == 0x9
    ||| u == 0xa
    ||| u == 0xb
    ||| u == 0xc
    ||| u == 0xd
    ||| u == 0x85
    ||| u == 0xa0
    ||| u == 0x1680
    ||| (0x2000 <= u && u <= 0x200a)
    ||| u == 0x2028
    ||| u == 0x2029
    ||| u == 0x202f
    ||| u == 0x205f
    ||| u == 0x3000
}

pub fn space_check(c: char) -> (r: bool)
    ensures
        r == is_space_char(c),
{
    let u: u32 = c as u32;
    u == 0x20 || u == 0x9 || u == 0xa || u == 0xb || u == 0xc || u == 0xd || u == 0x85
        || u == 0xa0 || u == 0x1680 || (0x2000 <= u && u <= 0x200a) || u == 0x2028
        || u == 0x2029 || u == 0x202f || u == 0x205f || u == 0x3000
}

/// A decimal digit, `'0'` through `'9'`.
pub open spec fn is_digit_char(c: char) -> bool {
    0x30 <= c as u32 <= 0x39
}

pub fn digit_check(c: char) -> (r: bool)
    ensures
        r == is_digit_char(c),
{
    let u: u32 = c as u32;
    0x30 <= u && u <= 0x39
}

/// The input with its leading whitespace removed.
pub open spec fn trim_front(s: Seq<char>) -> Seq<char>
    decreases s.len(),
{
    if s.len() > 0 && is_space_char(s[0]) {
        trim_front(s.subrange(1, s.len() as int))
    } else {
        s
    }
}

/// The input with its trailing whitespace removed.
pub open spec fn trim_back(s: Seq<char>) -> Seq<char>
    decreases s.len(),
{
    if s.len() > 0 && is_space_char(s[s.len() - 1]) {
        trim_back(s.subrange(0, s.len() - 1))
    } else {
        s
    }
}

/// The input with leading and trailing whitespace removed.
pub open spec fn trimmed(s: Seq<char>) -> Seq<char> {
    trim_back(trim_front(s))
}

proof fn lemma_trim_front_range(s: Seq<char>, lo: int)
    requires
        0 <= lo <= s.len(),
        forall|k: int| 0 <= k < lo ==> is_space_char(s[k]),
        lo == s.len() || !is_space_char(s[lo]),
    ensures
        trim_front(s) == s.subrange(lo, s.len() as int),
    decreases lo,
{
    if lo == 0 {
        assert(s.subrange(0, s.len() as int) =~= s);
    } else {
        let t = s.subrange(1, s.len() as int);
        lemma_trim_front_range(t, lo - 1);
        assert(t.subrange(lo - 1, t.len() as int) =~= s.subrange(lo, s.len() as int));
    }
}

proof fn lemma_trim_back_range(s: Seq<char>, hi: int)
    requires
        0 <= hi <= s.len(),
        forall|k: int| hi <= k < s.len() ==> is_space_char(s[k]),
        hi == 0 || !is_space_char(s[hi - 1]),
    ensures
        trim_back(s) == s.subrange(0, hi),
    decreases s.len() - hi,
{
    if hi == s.len() {
        assert(s.subrange(0, s.len() as int) =~= s);
    } else {
        let t = s.subrange(0, s.len() - 1);
        lemma_trim_back_range(t, hi);
        assert(t.subrange(0, hi) =~= s.subrange(0, hi));
    }
}

/// Removes leading and trailing whitespace, as `trimmed` states.
pub fn trim_str(s: &str) -> (t: String)
    ensures
        t@ == trimmed(s@),
{
    let n: usize = s.unicode_len();
    let mut lo: usize = 0;
    while lo < n && space_check(s.get_char(lo))
        invariant
            n == s@.len(),
            0 <= lo <= n,
            forall|k: int| 0 <= k < lo ==> is_space_char(s@[k]),
        decreases n - lo,
    {
        lo = lo + 1;
    }
    if lo == n {
        proof {
            lemma_trim_front_range(s@, lo as int);
            assert(trim_front(s@) =~= Seq::<char>::empty());
        }
        return String::new();
    }
    let mut hi: usize = n;
    while space_check(s.get_char(hi - 1))
        invariant
            n == s@.len(),
            lo < n,
            !is_space_char(s@[lo as int]),
            lo + 1 <= hi <= n,
            forall|k: int| hi <= k < n ==> is_space_char(s@[k]),
        decreases hi,
    {
        hi = hi - 1;
    }
    proof {
        lemma_trim_front_range(s@, lo as int);
        let f = s@.subrange(lo as int, n as int);
        lemma_trim_back_range(f, hi - lo);
        assert(f.subrange(0, hi - lo) =~= s@.subrange(lo as int, hi as int));
    }
    let sub = s.substring_char(lo, hi);
    sub.to_owned()
}

/// The phone rule: ten to fifteen characters, all decimal digits.
pub open spec fn valid_phone(s: Seq<char>) -> bool {
    &&& 10 <= s.len() <= 15
    &&& forall|k: int| 0 <= k < s.len() ==> is_digit_char(s[k])
}

pub fn phone_check(s: &str) -> (r: bool)
    ensures
        r == valid_phone(s@),
{
    let n: usize = s.unicode_len();
    if n < 10 || n > 15 {
        return false;
    }
    let mut i: usize = 0;
    while i < n
        invariant
            n == s@.len(),
            0 <= i <= n,
            forall|k: int| 0 <= k < i ==> is_digit_char(s@[k]),
        decreases n - i,
    {
        if !digit_check(s.get_char(i)) {
            return false;
        }
        i = i + 1;
    }
    true
}

/// The split of an email at the position `i` of its `'@'`: a non-empty
/// local part, exactly one `'@'`, no whitespace anywhere, and a `'.'`
/// strictly inside the domain part.
pub open spec fn email_shape(s: Seq<char>, i: int) -> bool {
    &&& 1 <= i < s.len()
    &&& s[i] == '@'
    &&& forall|k: int| 0 <= k < s.len() && k != i ==> s[k] != '@'
    &&& forall|k: int| 0 <= k < s.len() ==> !is_space_char(s[k])
    &&& exists|j: int| i + 2 <= j && j + 2 <= s.len() && s[j] == '.'
}

/// The email rule: some split position makes the shape hold.
pub open spec fn valid_email(s: Seq<char>) -> bool {
    exists|i: int| email_shape(s, i)
}

pub fn email_check(s: &str) -> (r: bool)
    ensures
        r == valid_email(s@),
{
    let n: usize = s.unicode_len();
    let mut at: usize = n;
    let mut i: usize = 0;
    while i < n
        invariant
            n == s@.len(),
            0 <= i <= n,
            at == n || (at < i && s@[at as int] == '@'),
            forall|k: int| 0 <= k < i ==> !is_space_char(s@[k]),
            forall|k: int| 0 <= k < i && k != at ==> s@[k] != '@',
        decreases n - i,
    {
        let c = s.get_char(i);
        if space_check(c) {
            proof {
                if valid_email(s@) {
                    let w = choose|w: int| email_shape(s@, w);
                    assert(!is_space_char(s@[i as int]));
                }
            }
            return false;
        }
        if c == '@' {
            if at < n {
                proof {
                    if valid_email(s@) {
                        let w = choose|w: int| email_shape(s@, w);
                        assert(w == at || s@[at as int] != '@');
                        assert(w == i || s@[i as int] != '@');
                    }
                }
                return false;
            }
            at = i;
        }
        i = i + 1;
    }
    if at == n {
        proof {
            if valid_email(s@) {
                let w = choose|w: int| email_shape(s@, w);
                assert(s@[w] != '@');
            }
        }
        return false;
    }
    if at == 0 {
        proof {
            if valid_email(s@) {
                let w = choose|w: int| email_shape(s@, w);
                assert(w == 0 || s@[0] != '@');
            }
        }
        return false;
    }
    let mut j: usize = 0;
    while j < n
        invariant
            n == s@.len(),
            0 <= j <= n,
            0 < at < n,
            s@[at as int] == '@',
            forall|k: int| 0 <= k < n && k != at ==> s@[k] != '@',
            forall|k: int| 0 <= k < n ==> !is_space_char(s@[k]),
            forall|k: int| 0 <= k < j && at + 2 <= k && k + 2 <= n ==> s@[k] != '.',
        decreases n - j,
    {
        if j > at && n - j >= 2 {
            let d: usize = j - at;
            if d >= 2 && s.get_char(j) == '.' {
                proof {
                    assert(email_shape(s@, at as int));
                }
                return true;
            }
        }
        j = j + 1;
    }
    proof {
        if valid_email(s@) {
            let w = choose|w: int| email_shape(s@, w);
            assert(w == at);
            let d = choose|d: int| w + 2 <= d && d + 2 <= s@.len() && s@[d] == '.';
            assert(s@[d] != '.');
        }
    }
    false
}

/// The lowercase form of a sequence of characters; only the trusted
/// `lowercase` below gives it meaning.
pub uninterp spec fn lower_of(s: Seq<char>) -> Seq<char>;

/// Relies on `str::to_lowercase` from std: the result is the Unicode
/// lowercase form of the input and depends on its characters alone, and
/// an empty input stays empty.
#[verifier::external_body]
pub(crate) fn lowercase(s: &str) -> (r: String)
    ensures
        r@ == lower_of(s@),
        s@.len() == 0 ==> r@.len() == 0,
{
    s.to_lowercase()
}

} // verus!
