use vstd::prelude::*;

verus! {

/// Whether `p` occurs in `s` as a contiguous run of characters.
pub open spec fn has_infix(s: Seq<char>, p: Seq<char>) -> bool {
    exists|i: int| 0 <= i <= s.len() - p.len() && #[trigger] s.subrange(i, i + p.len()) == p
}

/// Calls `str::contains` from std with a string pattern, which the
/// documentation describes as true when the pattern matches a sub-slice of
/// the text.
#[verifier::external_body]
pub(crate) fn contains_text(s: &str, p: &str) -> (r: bool)
    ensures
        r == has_infix(s@, p@),
{
    s.contains(p)
}

/// Compares two string slices character by character.
pub fn same_text(a: &str, b: &str) -> (r: bool)
    ensures
        r == (a@ == b@),
{
    let n: usize = a.unicode_len();
    let m: usize = b.unicode_len();
    if n != m {
        return false;
    }
    let mut i: usize = 0;
    while i < n
        invariant
            n == a@.len(),
            m == b@.len(),
            n == m,
            i <= n,
            forall|j: int| 0 <= j < i ==> a@[j] == b@[j],
        decreases n - i,
    {
        if a.get_char(i) != b.get_char(i) {
            return false;
        }
        i = i + 1;
    }
    assert(a@ =~= b@);
    true
}


/// The character of a digit below 16; `upper` selects `A`-`F` over `a`-`f`.
pub open spec fn digit_char(d: nat, upper: bool) -> char {
    if d < 10 {
        (('0' as u8) + d) as char
    } else if upper {
        (('A' as u8) + (d - 10)) as char
    } else {
        (('a' as u8) + (d - 10)) as char
    }
}

/// The decimal digits of `n`, most significant first, without leading zeros.
pub open spec fn decimal_digits(n: nat) -> Seq<char>
    decreases n,
{
    if n < 10 {
        seq![digit_char(n, false)]
    } else {
        decimal_digits(n / 10).push(digit_char(n % 10, false))
    }
}

/// The hexadecimal digits of `n`, most significant first, without leading zeros.
pub open spec fn hex_digits(n: nat, upper: bool) -> Seq<char>
    decreases n,
{
    if n < 16 {
        seq![digit_char(n, upper)]
    } else {
        hex_digits(n / 16, upper).push(digit_char(n % 16, upper))
    }
}

/// `s` with zeros in front up to `width` characters.
pub open spec fn zero_padded(s: Seq<char>, width: nat) -> Seq<char> {
    if s.len() < width {
        Seq::new((width - s.len()) as nat, |i: int| '0') + s
    } else {
        s
    }
}

/// The decimal text of `n`, as `to_string` writes an unsigned integer.
pub open spec fn decimal(n: nat) -> Seq<char> {
    decimal_digits(n)
}

/// The hexadecimal text of `n` with at least `width` digits, as the
/// formats `{:0w x}` and `{:0w X}` write an unsigned integer.
pub open spec fn hex(n: nat, width: nat, upper: bool) -> Seq<char> {
    zero_padded(hex_digits(n, upper), width)
}

fn digit_text(d: u64, upper: bool) -> (r: &'static str)
    requires
        d < 16,
    ensures
        r@ == seq![digit_char(d as nat, upper)],
{
    proof {
        reveal_strlit("0");
        reveal_strlit("1");
        reveal_strlit("2");
        reveal_strlit("3");
        reveal_strlit("4");
        reveal_strlit("5");
        reveal_strlit("6");
        reveal_strlit("7");
        reveal_strlit("8");
        reveal_strlit("9");
        reveal_strlit("a");
        reveal_strlit("b");
        reveal_strlit("c");
        reveal_strlit("d");
        reveal_strlit("e");
        reveal_strlit("f");
        reveal_strlit("A");
        reveal_strlit("B");
        reveal_strlit("C");
        reveal_strlit("D");
        reveal_strlit("E");
        reveal_strlit("F");
    }
    if d == 0 {
        "0"
    } else if d == 1 {
        "1"
    } else if d == 2 {
        "2"
    } else if d == 3 {
        "3"
    } else if d == 4 {
        "4"
    } else if d == 5 {
        "5"
    } else if d == 6 {
        "6"
    } else if d == 7 {
        "7"
    } else if d == 8 {
        "8"
    } else if d == 9 {
        "9"
    } else if upper {
        if d == 10 {
            "A"
        } else if d == 11 {
            "B"
        } else if d == 12 {
            "C"
        } else if d == 13 {
            "D"
        } else if d == 14 {
            "E"
        } else {
            "F"
        }
    } else {
        if d == 10 {
            "a"
        } else if d == 11 {
            "b"
        } else if d == 12 {
            "c"
        } else if d == 13 {
            "d"
        } else if d == 14 {
            "e"
        } else {
            "f"
        }
    }
}

fn decimal_digits_text(n: u64) -> (r: String)
    ensures
        r@ == decimal_digits(n as nat),
    decreases n,
{
    if n < 10 {
        String::from_str(digit_text(n, false))
    } else {
        let mut s: String = decimal_digits_text(n / 10);
        s.append(digit_text(n % 10, false));
        s
    }
}

fn hex_digits_text(n: u64, upper: bool) -> (r: String)
    ensures
        r@ == hex_digits(n as nat, upper),
    decreases n,
{
    if n < 16 {
        String::from_str(digit_text(n, upper))
    } else {
        let mut s: String = hex_digits_text(n / 16, upper);
        s.append(digit_text(n % 16, upper));
        s
    }
}

/// The decimal text of `n`.
pub fn decimal_text(n: u64) -> (r: String)
    ensures
        r@ == decimal(n as nat),
{
    decimal_digits_text(n)
}

/// The hexadecimal text of `n` with at least `width` digits.
pub fn hex_text(n: u64, width: usize, upper: bool) -> (r: String)
    ensures
        r@ == hex(n as nat, width as nat, upper),
{
    let d: String = hex_digits_text(n, upper);
    let len: usize = d.as_str().unicode_len();
    let mut out: String = String::new();
    proof {
        reveal_strlit("0");
    }
    if len < width {
        let mut i: usize = 0;
        while i < width - len
            invariant
                len < width,
                i <= width - len,
                out@ == Seq::new(i as nat, |k: int| '0'),
            decreases width - len - i,
        {
            proof {
                reveal_strlit("0");
            }
            out.append("0");
            i = i + 1;
            assert(out@ =~= Seq::new(i as nat, |k: int| '0'));
        }
    }
    out.append(d.as_str());
    assert(out@ =~= hex(n as nat, width as nat, upper));
    out
}

} // verus!
