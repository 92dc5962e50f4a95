use vstd::prelude::*;

verus! {

/// The only character of `s`, when `s` is exactly one character long.
pub open spec fn spec_single_char(s: Seq<char>) -> Option<char> {
    if s.len() == 1 {
        Some(s[0])
    } else {
        None
    }
}

/// Reads the only character of a one-character string.
pub fn single_char(s: &str) -> (r: Option<char>)
    ensures
        r == spec_single_char(s@),
{
    if s.unicode_len() == 1 {
        Some(s.get_char(0))
    } else {
        None
    }
}

/// Whether `s` is exactly the one-character string `c`.
pub fn is_char(s: &str, c: char) -> (r: bool)
    ensures
        r == (s@ == seq![c]),
{
    match single_char(s) {
        Some(x) => {
            if x == c {
                assert(s@ =~= seq![c]);
                true
            } else {
                false
            }
        },
        None => false,
    }
}


/// Whether `s` holds the character `c` anywhere.
pub fn contains_char(s: &str, c: char) -> (r: bool)
    ensures
        r == s@.contains(c),
{
    let n = s.unicode_len();
    let mut i: usize = 0;
    while i < n
        invariant
            n == s@.len(),
            i <= n,
            forall|j: int| 0 <= j < i ==> s@[j] != c,
        decreases n - i,
    {
        if s.get_char(i) == c {
            return true;
        }
        i = i + 1;
    }
    false
}

/// The characters of the tile notation and of decimal numbers.
pub open spec fn is_notation_char(c: char) -> bool {
    ('0' <= c && c <= '9') || c == 'E' || c == 'S' || c == 'W' || c == 'N' || c == 'r' || c == 'g'
        || c == 'w'
}

/// A one-character string.
pub fn char_string(c: char) -> (s: String)
    requires
        is_notation_char(c),
    ensures
        s@ == seq![c],
{
    let lit: &str = match c {
        '0' => {
            proof { reveal_strlit("0"); }
            "0"
        },
        '1' => {
            proof { reveal_strlit("1"); }
            "1"
        },
        '2' => {
            proof { reveal_strlit("2"); }
            "2"
        },
        '3' => {
            proof { reveal_strlit("3"); }
            "3"
        },
        '4' => {
            proof { reveal_strlit("4"); }
            "4"
        },
        '5' => {
            proof { reveal_strlit("5"); }
            "5"
        },
        '6' => {
            proof { reveal_strlit("6"); }
            "6"
        },
        '7' => {
            proof { reveal_strlit("7"); }
            "7"
        },
        '8' => {
            proof { reveal_strlit("8"); }
            "8"
        },
        '9' => {
            proof { reveal_strlit("9"); }
            "9"
        },
        'E' => {
            proof { reveal_strlit("E"); }
            "E"
        },
        'S' => {
            proof { reveal_strlit("S"); }
            "S"
        },
        'W' => {
            proof { reveal_strlit("W"); }
            "W"
        },
        'N' => {
            proof { reveal_strlit("N"); }
            "N"
        },
        'r' => {
            proof { reveal_strlit("r"); }
            "r"
        },
        'g' => {
            proof { reveal_strlit("g"); }
            "g"
        },
        _ => {
            proof { reveal_strlit("w"); }
            "w"
        },
    };
    let s = String::from_str(lit);
    assert(s@ =~= seq![c]);
    s
}


/// The decimal digit character of `d`.
pub open spec fn digit_char(d: int) -> char {
    if d == 0 {
        '0'
    } else if d == 1 {
        '1'
    } else if d == 2 {
        '2'
    } else if d == 3 {
        '3'
    } else if d == 4 {
        '4'
    } else if d == 5 {
        '5'
    } else if d == 6 {
        '6'
    } else if d == 7 {
        '7'
    } else if d == 8 {
        '8'
    } else {
        '9'
    }
}

/// The decimal writing of a natural number, without leading zeros.
pub open spec fn decimal(n: nat) -> Seq<char>
    decreases n,
{
    if n < 10 {
        seq![digit_char(n as int)]
    } else {
        decimal(n / 10).push(digit_char((n % 10) as int))
    }
}

/// Writes `n` in decimal.
pub fn decimal_string(n: u64) -> (s: String)
    ensures
        s@ == decimal(n as nat),
    decreases n,
{
    let d = n % 10;
    let c = if d == 0 {
        '0'
    } else if d == 1 {
        '1'
    } else if d == 2 {
        '2'
    } else if d == 3 {
        '3'
    } else if d == 4 {
        '4'
    } else if d == 5 {
        '5'
    } else if d == 6 {
        '6'
    } else if d == 7 {
        '7'
    } else if d == 8 {
        '8'
    } else {
        '9'
    };
    if n < 10 {
        char_string(c)
    } else {
        let mut s = decimal_string(n / 10);
        let last = char_string(c);
        s.append(last.as_str());
        s
    }
}

/// Whether `c` is an ASCII decimal digit.
pub open spec fn is_digit(c: char) -> bool {
    '0' <= c && c <= '9'
}

/// Whether every character of `s` is a decimal digit.
pub open spec fn all_digits(s: Seq<char>) -> bool {
    forall|i: int| 0 <= i < s.len() ==> is_digit(#[trigger] s[i])
}

/// The value of a string of decimal digits.
pub open spec fn digits_value(s: Seq<char>) -> int
    decreases s.len(),
{
    if s.len() == 0 {
        0
    } else {
        digits_value(s.drop_last()) * 10 + (s.last() as int - '0' as int)
    }
}

/// How the standard library reads a `u8` in decimal: an optional `+` sign followed by at
/// least one digit, with a value of at most 255.
pub open spec fn spec_parse_u8(s: Seq<char>) -> Option<u8> {
    let d = if s.len() > 0 && s[0] == '+' {
        s.drop_first()
    } else {
        s
    };
    if d.len() > 0 && all_digits(d) && digits_value(d) <= 255 {
        Some(digits_value(d) as u8)
    } else {
        None
    }
}

/// A one-character string reads as a number exactly when the character is a digit.
pub proof fn lemma_parse_single(c: char)
    ensures
        spec_parse_u8(seq![c]) == (if is_digit(c) {
            Some((c as int - '0' as int) as u8)
        } else {
            None::<u8>
        }),
{
    let s = seq![c];
    if c == '+' {
        assert(s.drop_first().len() == 0);
    } else {
        assert(s.drop_last() =~= Seq::<char>::empty());
        assert(digits_value(Seq::<char>::empty()) == 0);
        assert(digits_value(s) == c as int - '0' as int);
        assert(s.len() == 1 && s[0] == c);
        if is_digit(c) {
            assert(all_digits(s));
        } else {
            assert(!is_digit(s[0]));
            assert(!all_digits(s));
        }
    }
}

} // verus!
