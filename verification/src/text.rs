use vstd::prelude::*;
use vstd::string::StrSliceExecFns;
use vstd::string::StringExecFns;

verus! {

/// The character that spells one digit value below sixteen.
pub open spec fn digit_char(d: nat) -> char {
    if d == 0 {
        '0'
    } else if d == 1 {
        '1'
    } else if d == 2 {
        '2'
    } else if d == 3 {
        '3'
    } else if d == 4 {
        '4'
    } else if d == 5 {
        '5'
    } else if d == 6 {
        '6'
    } else if d == 7 {
        '7'
    } else if d == 8 {
        '8'
    } else if d == 9 {
        '9'
    } else if d == 10 {
        'a'
    } else if d == 11 {
        'b'
    } else if d == 12 {
        'c'
    } else if d == 13 {
        'd'
    } else if d == 14 {
        'e'
    } else {
        'f'
    }
}

/// `v` spelled in decimal, zero-padded on the left to at least `min` digits.
pub open spec fn dec_chars(v: nat, min: nat) -> Seq<char>
    decreases v, min,
{
    if v == 0 && min == 0 {
        Seq::empty()
    } else {
        dec_chars(v / 10, (if min > 0 {
            (min - 1) as nat
        } else {
            0
        })) + seq![digit_char(v % 10)]
    }
}

/// `v` spelled in lower-case hexadecimal, zero-padded to at least `min` digits.
pub open spec fn hex_chars(v: nat, min: nat) -> Seq<char>
    decreases v, min,
{
    if v == 0 && min == 0 {
        Seq::empty()
    } else {
        hex_chars(v / 16, (if min > 0 {
            (min - 1) as nat
        } else {
            0
        })) + seq![digit_char(v % 16)]
    }
}

/// `v` spelled in binary, zero-padded on the left to at least `min` digits.
pub open spec fn bin_chars(v: nat, min: nat) -> Seq<char>
    decreases v, min,
{
    if v == 0 && min == 0 {
        Seq::empty()
    } else {
        bin_chars(v / 2, (if min > 0 {
            (min - 1) as nat
        } else {
            0
        })) + seq![digit_char(v % 2)]
    }
}

/// `true` or `false`, as text.
pub open spec fn bool_chars(b: bool) -> Seq<char> {
    if b {
        "true"@
    } else {
        "false"@
    }
}

/// Append the one character of a digit value below sixteen.
fn push_digit(s: &mut String, d: u16)
    requires
        d < 16,
    ensures
        final(s)@ == old(s)@ + seq![digit_char(d as nat)],
{
    if d == 0 {
        s.append("0");
        proof {
            reveal_strlit("0");
            assert("0"@ =~= seq![digit_char(0)]);
        }
    } else if d == 1 {
        s.append("1");
        proof {
            reveal_strlit("1");
            assert("1"@ =~= seq![digit_char(1)]);
        }
    } else if d == 2 {
        s.append("2");
        proof {
            reveal_strlit("2");
            assert("2"@ =~= seq![digit_char(2)]);
        }
    } else if d == 3 {
        s.append("3");
        proof {
            reveal_strlit("3");
            assert("3"@ =~= seq![digit_char(3)]);
        }
    } else if d == 4 {
        s.append("4");
        proof {
            reveal_strlit("4");
            assert("4"@ =~= seq![digit_char(4)]);
        }
    } else if d == 5 {
        s.append("5");
        proof {
            reveal_strlit("5");
            assert("5"@ =~= seq![digit_char(5)]);
        }
    } else if d == 6 {
        s.append("6");
        proof {
            reveal_strlit("6");
            assert("6"@ =~= seq![digit_char(6)]);
        }
    } else if d == 7 {
        s.append("7");
        proof {
            reveal_strlit("7");
            assert("7"@ =~= seq![digit_char(7)]);
        }
    } else if d == 8 {
        s.append("8");
        proof {
            reveal_strlit("8");
            assert("8"@ =~= seq![digit_char(8)]);
        }
    } else if d == 9 {
        s.append("9");
        proof {
            reveal_strlit("9");
            assert("9"@ =~= seq![digit_char(9)]);
        }
    } else if d == 10 {
        s.append("a");
        proof {
            reveal_strlit("a");
            assert("a"@ =~= seq![digit_char(10)]);
        }
    } else if d == 11 {
        s.append("b");
        proof {
            reveal_strlit("b");
            assert("b"@ =~= seq![digit_char(11)]);
        }
    } else if d == 12 {
        s.append("c");
        proof {
            reveal_strlit("c");
            assert("c"@ =~= seq![digit_char(12)]);
        }
    } else if d == 13 {
        s.append("d");
        proof {
            reveal_strlit("d");
            assert("d"@ =~= seq![digit_char(13)]);
        }
    } else if d == 14 {
        s.append("e");
        proof {
            reveal_strlit("e");
            assert("e"@ =~= seq![digit_char(14)]);
        }
    } else {
        s.append("f");
        proof {
            reveal_strlit("f");
            assert("f"@ =~= seq![digit_char(15)]);
        }
    }
}

/// Append `v` in decimal, zero-padded to at least `min` digits.
pub fn push_dec(s: &mut String, v: u16, min: usize)
    ensures
        final(s)@ == old(s)@ + dec_chars(v as nat, min as nat),
    decreases v, min,
{
    if v == 0 && min == 0 {
        return ;
    }
    push_dec(s, v / 10, if min > 0 {
        min - 1
    } else {
        0
    });
    push_digit(s, v % 10);
}

/// Append `v` in lower-case hexadecimal, zero-padded to at least `min` digits.
pub fn push_hex(s: &mut String, v: u16, min: usize)
    ensures
        final(s)@ == old(s)@ + hex_chars(v as nat, min as nat),
    decreases v, min,
{
    if v == 0 && min == 0 {
        return ;
    }
    push_hex(s, v / 16, if min > 0 {
        min - 1
    } else {
        0
    });
    push_digit(s, v % 16);
}

/// Append `v` in binary, zero-padded to at least `min` digits.
pub fn push_bin(s: &mut String, v: u16, min: usize)
    ensures
        final(s)@ == old(s)@ + bin_chars(v as nat, min as nat),
    decreases v, min,
{
    if v == 0 && min == 0 {
        return ;
    }
    push_bin(s, v / 2, if min > 0 {
        min - 1
    } else {
        0
    });
    push_digit(s, v % 2);
}

/// Append `true` or `false`.
pub fn push_bool(s: &mut String, b: bool)
    ensures
        final(s)@ == old(s)@ + bool_chars(b),
{
    if b {
        s.append("true");
    } else {
        s.append("false");
    }
}

/// Whether two string slices spell the same characters.
pub fn str_eq(a: &str, b: &str) -> (r: bool)
    ensures
        r == (a@ == b@),
{
    let alen = a.unicode_len();
    let blen = b.unicode_len();
    if alen != blen {
        return false;
    }
    let mut i: usize = 0;
    while i < alen
        invariant
            i <= alen,
            alen == a@.len(),
            blen == b@.len(),
            alen == blen,
            forall|j: int| 0 <= j < i ==> a@[j] == b@[j],
        decreases alen - i,
    {
        if a.get_char(i) != b.get_char(i) {
            return false;
        }
        i = i + 1;
    }
    proof {
        assert(a@ =~= b@);
    }
    true
}

} // verus!
