//! Commit identifiers as plain bytes.

use vstd::prelude::*;
use crate::text::bytes_equal;

verus! {

/// The character that stands for a value below sixteen in lower-case hexadecimal.
pub open spec fn hex_digit(n: int) -> char {
    if n == 0 {
        '0'
    } else if n == 1 {
        '1'
    } else if n == 2 {
        '2'
    } else if n == 3 {
        '3'
    } else if n == 4 {
        '4'
    } else if n == 5 {
        '5'
    } else if n == 6 {
        '6'
    } else if n == 7 {
        '7'
    } else if n == 8 {
        '8'
    } else if n == 9 {
        '9'
    } else if n == 10 {
        'a'
    } else if n == 11 {
        'b'
    } else if n == 12 {
        'c'
    } else if n == 13 {
        'd'
    } else if n == 14 {
        'e'
    } else {
        'f'
    }
}

/// The lower-case hexadecimal text of `bytes`: two characters for each byte,
/// the high half first.
pub open spec fn hex_of(bytes: Seq<u8>) -> Seq<char> {
    Seq::new(
        2 * bytes.len(),
        |i: int|
            if i % 2 == 0 {
                hex_digit(bytes[i / 2] as int / 16)
            } else {
                hex_digit(bytes[i / 2] as int % 16)
            },
    )
}

/// Whether every byte of `bytes` is zero.
pub open spec fn all_zero(bytes: Seq<u8>) -> bool {
    forall|i: int| 0 <= i < bytes.len() ==> bytes[i] == 0
}

/// The first `n` characters of `text`, or all of it where it is shorter.
pub open spec fn leading(text: Seq<char>, n: int) -> Seq<char> {
    if n <= 0 {
        Seq::empty()
    } else if n >= text.len() {
        text
    } else {
        text.take(n)
    }
}

fn digit_text(n: u8) -> (r: &'static str)
    requires
        n < 16,
    ensures
        r@ == seq![hex_digit(n as int)],
{
    proof {
        reveal_strlit("0");
        reveal_strlit("1");
        reveal_strlit("2");
        reveal_strlit("3");
        reveal_strlit("4");
        reveal_strlit("5");
        reveal_strlit("6");
        reveal_strlit("7");
        reveal_strlit("8");
        reveal_strlit("9");
        reveal_strlit("a");
        reveal_strlit("b");
        reveal_strlit("c");
        reveal_strlit("d");
        reveal_strlit("e");
        reveal_strlit("f");
    }
    let r = if n == 0 {
        "0"
    } else if n == 1 {
        "1"
    } else if n == 2 {
        "2"
    } else if n == 3 {
        "3"
    } else if n == 4 {
        "4"
    } else if n == 5 {
        "5"
    } else if n == 6 {
        "6"
    } else if n == 7 {
        "7"
    } else if n == 8 {
        "8"
    } else if n == 9 {
        "9"
    } else if n == 10 {
        "a"
    } else if n == 11 {
        "b"
    } else if n == 12 {
        "c"
    } else if n == 13 {
        "d"
    } else if n == 14 {
        "e"
    } else {
        "f"
    };
    assert(r@ =~= seq![hex_digit(n as int)]);
    r
}

/// The identifier of a commit: the bytes of its hash.
#[derive(Debug)]
pub struct CommitId {
    bytes: Vec<u8>,
}

impl View for CommitId {
    type V = Seq<u8>;

    closed spec fn view(&self) -> Seq<u8> {
        self.bytes@
    }
}

impl Clone for CommitId {
    fn clone(&self) -> (r: Self)
        ensures
            r@ == self@,
    {
        CommitId { bytes: self.bytes.clone() }
    }
}

impl CommitId {
    /// The identifier made of `bytes`.
    pub fn new(bytes: Vec<u8>) -> (id: Self)
        ensures
            id@ == bytes@,
    {
        CommitId { bytes }
    }

    /// The bytes of the identifier.
    pub fn as_bytes(&self) -> (bytes: &Vec<u8>)
        ensures
            bytes@ == self@,
    {
        &self.bytes
    }

    /// Whether this is the identifier that stands for "no commit": all zeros.
    pub fn is_zero(&self) -> (zero: bool)
        ensures
            zero == all_zero(self@),
    {
        let mut i: usize = 0;
        while i < self.bytes.len()
            invariant
                i <= self.bytes.len(),
                forall|j: int| 0 <= j < i ==> self.bytes@[j] == 0,
            decreases self.bytes.len() - i,
        {
            if self.bytes[i] != 0 {
                return false;
            }
            i += 1;
        }
        true
    }

    /// Whether the two identifiers name the same commit.
    pub fn same(&self, other: &CommitId) -> (eq: bool)
        ensures
            eq == (self@ == other@),
    {
        bytes_equal(&self.bytes, &other.bytes)
    }

    /// The first `n` characters of the identifier's hexadecimal text, or the
    /// whole text where it has fewer.
    pub fn abbrev(&self, n: usize) -> (text: String)
        ensures
            text@ == leading(hex_of(self@), n as int),
    {
        let mut text = String::new();
        let mut i: usize = 0;
        while i < n && i / 2 < self.bytes.len()
            invariant
                i <= n,
                i <= 2 * self.bytes.len(),
                text@ == hex_of(self.bytes@).take(i as int),
            decreases n - i,
        {
            let byte = self.bytes[i / 2];
            let half = if i % 2 == 0 {
                byte / 16
            } else {
                byte % 16
            };
            let digit = digit_text(half);
            text.append(digit);
            assert(text@ =~= hex_of(self.bytes@).take(i + 1));
            i += 1;
        }
        assert(text@ =~= leading(hex_of(self@), n as int));
        text
    }

    /// The identifier's hexadecimal text.
    pub fn hex(&self) -> (text: String)
        ensures
            text@ == hex_of(self@),
    {
        let mut text = String::new();
        let mut i: usize = 0;
        while i < self.bytes.len()
            invariant
                i <= self.bytes.len(),
                text@ == hex_of(self.bytes@).take(2 * i),
            decreases self.bytes.len() - i,
        {
            let byte = self.bytes[i];
            text.append(digit_text(byte / 16));
            text.append(digit_text(byte % 16));
            assert(text@ =~= hex_of(self.bytes@).take(2 * (i + 1)));
            i += 1;
        }
        assert(text@ =~= hex_of(self@));
        text
    }
}

} // verus!
