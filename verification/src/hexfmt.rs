//! Verified hexadecimal formatting of byte strings, in either case.

use vstd::prelude::*;
use vstd::string::StringExecFns;

verus! {

/// The lower-case hex digit for a value below sixteen.
pub open spec fn hex_digit(d: int) -> char {
    if d == 0 {
        '0'
    } else if d == 1 {
        '1'
    } else if d == 2 {
        '2'
    } else if d == 3 {
        '3'
    } else if d == 4 {
        '4'
    } else if d == 5 {
        '5'
    } else if d == 6 {
        '6'
    } else if d == 7 {
        '7'
    } else if d == 8 {
        '8'
    } else if d == 9 {
        '9'
    } else if d == 10 {
        'a'
    } else if d == 11 {
        'b'
    } else if d == 12 {
        'c'
    } else if d == 13 {
        'd'
    } else if d == 14 {
        'e'
    } else {
        'f'
    }
}

/// The upper-case hex digit for a value below sixteen.
pub open spec fn hex_digit_upper(d: int) -> char {
    if d == 10 {
        'A'
    } else if d == 11 {
        'B'
    } else if d == 12 {
        'C'
    } else if d == 13 {
        'D'
    } else if d == 14 {
        'E'
    } else if d == 15 {
        'F'
    } else {
        hex_digit(d)
    }
}

/// The two hex characters of one byte.
pub open spec fn hex_pair(b: u8, upper: bool) -> Seq<char> {
    if upper {
        seq![hex_digit_upper(b as int / 16), hex_digit_upper(b as int % 16)]
    } else {
        seq![hex_digit(b as int / 16), hex_digit(b as int % 16)]
    }
}

/// The hex encoding of a byte string: two characters per byte.
pub open spec fn hex_of(b: Seq<u8>, upper: bool) -> Seq<char>
    decreases b.len(),
{
    if b.len() == 0 {
        Seq::empty()
    } else {
        hex_pair(b.first(), upper) + hex_of(b.drop_first(), upper)
    }
}

/// Appending one byte appends its two hex characters.
pub proof fn lemma_hex_of_push(b: Seq<u8>, x: u8, upper: bool)
    ensures
        hex_of(b.push(x), upper) == hex_of(b, upper) + hex_pair(x, upper),
    decreases b.len(),
{
    if b.len() == 0 {
        assert(b.push(x).len() == 1);
        assert(b.push(x).first() == x);
        assert(b.push(x).drop_first() =~= Seq::empty());
        assert(hex_of(b.push(x), upper) == hex_pair(x, upper) + hex_of(Seq::empty(), upper));
        assert(hex_pair(x, upper) + hex_of(Seq::empty(), upper) =~= hex_pair(x, upper));
        assert(hex_of(b, upper) + hex_pair(x, upper) =~= hex_pair(x, upper));
    } else {
        assert(b.push(x).drop_first() =~= b.drop_first().push(x));
        lemma_hex_of_push(b.drop_first(), x, upper);
        assert(hex_of(b.push(x), upper) =~= hex_of(b, upper) + hex_pair(x, upper));
    }
}

/// Hex encoding distributes over concatenation.
pub proof fn lemma_hex_of_concat(a: Seq<u8>, b: Seq<u8>, upper: bool)
    ensures
        hex_of(a + b, upper) == hex_of(a, upper) + hex_of(b, upper),
    decreases a.len(),
{
    if a.len() == 0 {
        assert(a + b =~= b);
        assert(hex_of(a, upper) + hex_of(b, upper) =~= hex_of(b, upper));
    } else {
        assert((a + b).drop_first() =~= a.drop_first() + b);
        lemma_hex_of_concat(a.drop_first(), b, upper);
        assert(hex_of(a + b, upper) =~= hex_of(a, upper) + hex_of(b, upper));
    }
}

/// The hex encoding is twice as long as the input.
pub proof fn lemma_hex_of_len(b: Seq<u8>, upper: bool)
    ensures
        hex_of(b, upper).len() == 2 * b.len(),
    decreases b.len(),
{
    if b.len() > 0 {
        lemma_hex_of_len(b.drop_first(), upper);
    }
}

fn hex_digit_str(d: u8, upper: bool) -> (r: &'static str)
    requires
        d < 16,
    ensures
        r@ == seq![
            if upper {
                hex_digit_upper(d as int)
            } else {
                hex_digit(d as int)
            },
        ],
{
    proof {
        reveal_strlit("0");
        reveal_strlit("1");
        reveal_strlit("2");
        reveal_strlit("3");
        reveal_strlit("4");
        reveal_strlit("5");
        reveal_strlit("6");
        reveal_strlit("7");
        reveal_strlit("8");
        reveal_strlit("9");
        reveal_strlit("a");
        reveal_strlit("b");
        reveal_strlit("c");
        reveal_strlit("d");
        reveal_strlit("e");
        reveal_strlit("f");
        reveal_strlit("A");
        reveal_strlit("B");
        reveal_strlit("C");
        reveal_strlit("D");
        reveal_strlit("E");
        reveal_strlit("F");
    }
    let r = if upper {
        match d {
            0 => "0",
            1 => "1",
            2 => "2",
            3 => "3",
            4 => "4",
            5 => "5",
            6 => "6",
            7 => "7",
            8 => "8",
            9 => "9",
            10 => "A",
            11 => "B",
            12 => "C",
            13 => "D",
            14 => "E",
            _ => "F",
        }
    } else {
        match d {
            0 => "0",
            1 => "1",
            2 => "2",
            3 => "3",
            4 => "4",
            5 => "5",
            6 => "6",
            7 => "7",
            8 => "8",
            9 => "9",
            10 => "a",
            11 => "b",
            12 => "c",
            13 => "d",
            14 => "e",
            _ => "f",
        }
    };
    proof {
        assert(r@ =~= seq![
            if upper {
                hex_digit_upper(d as int)
            } else {
                hex_digit(d as int)
            },
        ]);
    }
    r
}

/// Formats a byte string in hex, two characters per byte, in the
/// requested case.
pub fn bytes_to_hex(b: &[u8], upper: bool) -> (r: String)
    ensures
        r@ == hex_of(b@, upper),
{
    let mut out = String::new();
    let mut i: usize = 0;
    proof {
        assert(b@.take(0) =~= Seq::<u8>::empty());
    }
    while i < b.len()
        invariant
            i <= b@.len(),
            out@ == hex_of(b@.take(i as int), upper),
        decreases b@.len() - i,
    {
        let byte = b[i];
        out.append(hex_digit_str(byte / 16, upper));
        out.append(hex_digit_str(byte % 16, upper));
        proof {
            lemma_hex_of_push(b@.take(i as int), byte, upper);
            assert(b@.take(i as int).push(byte) =~= b@.take(i + 1));
            assert(out@ =~= hex_of(b@.take(i + 1), upper));
        }
        i = i + 1;
    }
    proof {
        assert(b@.take(b@.len() as int) =~= b@);
    }
    out
}

} // verus!
