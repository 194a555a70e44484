//! Character-level helpers: string equality, decimal rendering of a port
//! number, and whitespace trimming of captured command output.

use vstd::prelude::*;
use vstd::string::StrSliceExecFns;
use vstd::string::StringExecFns;

verus! {

/// The decimal digit character for `d` (0 through 9).
pub open spec fn digit_char(d: nat) -> char {
    if d == 0 {
        '0'
    } else if d == 1 {
        '1'
    } else if d == 2 {
        '2'
    } else if d == 3 {
        '3'
    } else if d == 4 {
        '4'
    } else if d == 5 {
        '5'
    } else if d == 6 {
        '6'
    } else if d == 7 {
        '7'
    } else if d == 8 {
        '8'
    } else {
        '9'
    }
}

/// The decimal rendering of `n`, most significant digit first, no sign and
/// no leading zero (except for `n == 0`, which renders as `"0"`).
pub open spec fn decimal_of(n: nat) -> Seq<char>
    decreases n,
{
    if n < 10 {
        seq![digit_char(n)]
    } else {
        decimal_of(n / 10).push(digit_char(n % 10))
    }
}

fn digit_str(d: u16) -> (t: &'static str)
    requires
        d < 10,
    ensures
        t@ == seq![digit_char(d as nat)],
{
    if d == 0 {
        proof {
            reveal_strlit("0");
            assert("0"@ =~= seq![digit_char(0)]);
        }
        "0"
    } else if d == 1 {
        proof {
            reveal_strlit("1");
            assert("1"@ =~= seq![digit_char(1)]);
        }
        "1"
    } else if d == 2 {
        proof {
            reveal_strlit("2");
            assert("2"@ =~= seq![digit_char(2)]);
        }
        "2"
    } else if d == 3 {
        proof {
            reveal_strlit("3");
            assert("3"@ =~= seq![digit_char(3)]);
        }
        "3"
    } else if d == 4 {
        proof {
            reveal_strlit("4");
            assert("4"@ =~= seq![digit_char(4)]);
        }
        "4"
    } else if d == 5 {
        proof {
            reveal_strlit("5");
            assert("5"@ =~= seq![digit_char(5)]);
        }
        "5"
    } else if d == 6 {
        proof {
            reveal_strlit("6");
            assert("6"@ =~= seq![digit_char(6)]);
        }
        "6"
    } else if d == 7 {
        proof {
            reveal_strlit("7");
            assert("7"@ =~= seq![digit_char(7)]);
        }
        "7"
    } else if d == 8 {
        proof {
            reveal_strlit("8");
            assert("8"@ =~= seq![digit_char(8)]);
        }
        "8"
    } else {
        proof {
            reveal_strlit("9");
            assert("9"@ =~= seq![digit_char(9)]);
        }
        "9"
    }
}

/// Appends the decimal rendering of `n` to `s`.
pub fn push_decimal(s: &mut String, n: u16)
    ensures
        final(s)@ == old(s)@ + decimal_of(n as nat),
    decreases n,
{
    let ghost entry = s@;
    if n >= 10 {
        push_decimal(s, n / 10);
    }
    let t = digit_str(n % 10);
    s.append(t);
    proof {
        if n < 10 {
            assert(s@ =~= entry + decimal_of(n as nat));
        } else {
            assert(decimal_of(n as nat) == decimal_of(n as nat / 10).push(
                digit_char(n as nat % 10),
            ));
            assert(s@ =~= entry + decimal_of(n as nat));
        }
    }
}

/// The decimal rendering of `n` as an owned string.
pub fn decimal_string(n: u16) -> (s: String)
    ensures
        s@ == decimal_of(n as nat),
{
    let mut s = String::new();
    push_decimal(&mut s, n);
    proof {
        assert(s@ =~= decimal_of(n as nat));
    }
    s
}

/// Character-by-character string equality, meaningful in contracts as
/// equality of the two views.
pub fn str_eq(a: &str, b: &str) -> (r: bool)
    ensures
        r == (a@ == b@),
{
    let a_len = a.unicode_len();
    let b_len = b.unicode_len();
    if a_len != b_len {
        return false;
    }
    let mut i: usize = 0;
    while i < a_len
        invariant
            a_len == a@.len(),
            b_len == b@.len(),
            a_len == b_len,
            0 <= i <= a_len,
            forall|j: int| 0 <= j < i ==> a@[j] == b@[j],
        decreases a_len - i,
    {
        if a.get_char(i) != b.get_char(i) {
            return false;
        }
        i += 1;
    }
    proof {
        assert(a@ =~= b@);
    }
    true
}

/// Whitespace as the trimming recognises it: the blank, tab, line feed and
/// carriage return characters.
pub open spec fn is_blank(c: char) -> bool {
    c == ' ' || c == '\t' || c == '\n' || c == '\r'
}

/// `s` with its leading whitespace removed.
pub open spec fn trim_front(s: Seq<char>) -> Seq<char>
    decreases s.len(),
{
    if s.len() > 0 && is_blank(s[0]) {
        trim_front(s.drop_first())
    } else {
        s
    }
}

/// `s` with its trailing whitespace removed.
pub open spec fn trim_back(s: Seq<char>) -> Seq<char>
    decreases s.len(),
{
    if s.len() > 0 && is_blank(s[s.len() - 1]) {
        trim_back(s.drop_last())
    } else {
        s
    }
}

/// `s` with leading and trailing whitespace removed.
pub open spec fn trimmed(s: Seq<char>) -> Seq<char> {
    trim_back(trim_front(s))
}

fn is_blank_char(c: char) -> (r: bool)
    ensures
        r == is_blank(c),
{
    c == ' ' || c == '\t' || c == '\n' || c == '\r'
}

proof fn lemma_trim_front_at(s: Seq<char>, i: int)
    requires
        0 <= i <= s.len(),
        forall|j: int| 0 <= j < i ==> is_blank(s[j]),
        i == s.len() || !is_blank(s[i]),
    ensures
        trim_front(s) =~= s.subrange(i, s.len() as int),
    decreases i,
{
    if i == 0 {
        assert(trim_front(s) =~= s.subrange(0, s.len() as int));
    } else {
        let t = s.drop_first();
        assert(forall|j: int| 0 <= j < i - 1 ==> t[j] == s[j + 1]);
        lemma_trim_front_at(t, i - 1);
        assert(trim_front(s) == trim_front(t));
        assert(t.subrange(i - 1, t.len() as int) =~= s.subrange(i, s.len() as int));
    }
}

proof fn lemma_trim_back_at(s: Seq<char>, k: int)
    requires
        0 <= k <= s.len(),
        forall|j: int| k <= j < s.len() ==> is_blank(s[j]),
        k == 0 || !is_blank(s[k - 1]),
    ensures
        trim_back(s) =~= s.subrange(0, k),
    decreases s.len(),
{
    if k == s.len() {
        assert(trim_back(s) =~= s.subrange(0, k));
    } else {
        let t = s.drop_last();
        lemma_trim_back_at(t, k);
        assert(trim_back(s) == trim_back(t));
        assert(t.subrange(0, k) =~= s.subrange(0, k));
    }
}

/// The decimal rendering is never empty, and a number of two or more
/// digits renders to two or more characters.
pub proof fn lemma_decimal_len(n: nat)
    ensures
        decimal_of(n).len() >= 1,
        n >= 10 ==> decimal_of(n).len() >= 2,
    decreases n,
{
    if n >= 10 {
        vstd::arithmetic::div_mod::lemma_div_is_strictly_smaller(n as int, 10);
        lemma_decimal_len(n / 10);
    }
}

/// Distinct numbers render to distinct decimal strings.
pub proof fn lemma_decimal_injective(m: nat, n: nat)
    requires
        m != n,
    ensures
        decimal_of(m) != decimal_of(n),
    decreases m + n,
{
    if m < 10 && n < 10 {
        assert(decimal_of(m)[0] == digit_char(m) && decimal_of(n)[0] == digit_char(n));
        assert(digit_char(m) != digit_char(n));
    } else if m < 10 {
        lemma_decimal_len(n);
        assert(decimal_of(m).len() == 1);
    } else if n < 10 {
        lemma_decimal_len(m);
        assert(decimal_of(n).len() == 1);
    } else {
        vstd::arithmetic::div_mod::lemma_div_is_strictly_smaller(m as int, 10);
        vstd::arithmetic::div_mod::lemma_div_is_strictly_smaller(n as int, 10);
        let dm = decimal_of(m / 10);
        let dn = decimal_of(n / 10);
        assert(decimal_of(m) == dm.push(digit_char(m % 10)));
        assert(decimal_of(n) == dn.push(digit_char(n % 10)));
        if decimal_of(m) == decimal_of(n) {
            assert(dm.len() == dn.len());
            assert(decimal_of(m)[dm.len() as int] == digit_char(m % 10));
            assert(decimal_of(n)[dn.len() as int] == digit_char(n % 10));
            if m % 10 != n % 10 {
                assert(digit_char(m % 10) != digit_char(n % 10));
            } else {
                vstd::arithmetic::div_mod::lemma_fundamental_div_mod(m as int, 10);
                vstd::arithmetic::div_mod::lemma_fundamental_div_mod(n as int, 10);
                assert(m / 10 != n / 10);
                lemma_decimal_injective(m / 10, n / 10);
                assert(dm =~= decimal_of(m).drop_last());
                assert(dn =~= decimal_of(n).drop_last());
            }
        }
    }
}

/// `s` with leading and trailing whitespace removed, as an owned string.
pub fn trim_str(s: &str) -> (r: String)
    ensures
        r@ == trimmed(s@),
{
    let n = s.unicode_len();
    let mut lo: usize = 0;
    while lo < n && is_blank_char(s.get_char(lo))
        invariant
            n == s@.len(),
            0 <= lo <= n,
            forall|j: int| 0 <= j < lo ==> is_blank(s@[j]),
        decreases n - lo,
    {
        lo += 1;
    }
    let mut hi: usize = n;
    while hi > lo && is_blank_char(s.get_char(hi - 1))
        invariant
            n == s@.len(),
            lo <= hi <= n,
            lo == n || !is_blank(s@[lo as int]),
            forall|j: int| 0 <= j < lo ==> is_blank(s@[j]),
            forall|j: int| hi <= j < n ==> is_blank(s@[j]),
        decreases hi,
    {
        hi -= 1;
    }
    let part = s.substring_char(lo, hi);
    let r = part.to_owned();
    proof {
        lemma_trim_front_at(s@, lo as int);
        let t = s@.subrange(lo as int, n as int);
        assert(forall|j: int| (hi - lo) <= j < t.len() ==> is_blank(t[j]));
        lemma_trim_back_at(t, hi - lo);
        assert(t.subrange(0, hi - lo) =~= s@.subrange(lo as int, hi as int));
    }
    r
}

} // verus!
