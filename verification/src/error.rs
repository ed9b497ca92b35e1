//! Diagnostic helpers carried by errors.
//!
//! [`Input`] remembers the bytes at which a parse failed and renders a short
//! hexadecimal preview of them; [`Context`] collects the human-readable
//! labels of the layers an error passed through.

use vstd::prelude::*;

use crate::cursor::copy_range;
use vstd::string::StringExecFns;

verus! {

/// The hexadecimal digit for a value below 16, in upper case.
pub open spec fn hex_digit(n: int) -> char {
    if n == 0 {
        '0'
    } else if n == 1 {
        '1'
    } else if n == 2 {
        '2'
    } else if n == 3 {
        '3'
    } else if n == 4 {
        '4'
    } else if n == 5 {
        '5'
    } else if n == 6 {
        '6'
    } else if n == 7 {
        '7'
    } else if n == 8 {
        '8'
    } else if n == 9 {
        '9'
    } else if n == 10 {
        'A'
    } else if n == 11 {
        'B'
    } else if n == 12 {
        'C'
    } else if n == 13 {
        'D'
    } else if n == 14 {
        'E'
    } else {
        'F'
    }
}

/// Two upper-case hexadecimal digits and a space for every byte.
pub open spec fn hex_bytes(bytes: Seq<u8>) -> Seq<char>
    decreases bytes.len(),
{
    if bytes.len() == 0 {
        Seq::empty()
    } else {
        hex_bytes(bytes.drop_last()) + seq![
            hex_digit(bytes.last() as int / 16),
            hex_digit(bytes.last() as int % 16),
            ' ',
        ]
    }
}

/// The whole preview: brackets around the first eight bytes in hexadecimal,
/// with an ellipsis when more follow.
pub open spec fn hex_preview(bytes: Seq<u8>) -> Seq<char> {
    if bytes.len() == 0 {
        seq!['[', ']']
    } else {
        seq!['[', ' '] + hex_bytes(bytes.take(if bytes.len() > 8 {
            8
        } else {
            bytes.len() as int
        })) + (if bytes.len() > 8 {
            seq!['.', '.', '.', ' ']
        } else {
            Seq::empty()
        }) + seq![']']
    }
}

/// The upper-case hexadecimal digit of a value below 16.
fn hex_digit_str(n: u8) -> (s: &'static str)
    requires
        n < 16,
    ensures
        s@ == seq![hex_digit(n as int)],
{
    proof {
        reveal_strlit("0");
        reveal_strlit("1");
        reveal_strlit("2");
        reveal_strlit("3");
        reveal_strlit("4");
        reveal_strlit("5");
        reveal_strlit("6");
        reveal_strlit("7");
        reveal_strlit("8");
        reveal_strlit("9");
        reveal_strlit("A");
        reveal_strlit("B");
        reveal_strlit("C");
        reveal_strlit("D");
        reveal_strlit("E");
        reveal_strlit("F");
    }
    match n {
        0 => "0",
        1 => "1",
        2 => "2",
        3 => "3",
        4 => "4",
        5 => "5",
        6 => "6",
        7 => "7",
        8 => "8",
        9 => "9",
        10 => "A",
        11 => "B",
        12 => "C",
        13 => "D",
        14 => "E",
        _ => "F",
    }
}

/// The bytes at which a parse failed.
#[derive(Debug, Clone, PartialEq, Eq)]
pub struct Input(pub Vec<u8>);

impl Input {
    /// Remembers a copy of the given bytes.
    pub fn new(bytes: &[u8]) -> (r: Input)
        ensures
            r.0@ == bytes@,
    {
        proof {
            assert(bytes@.subrange(0, bytes@.len() as int) =~= bytes@);
        }
        Input(copy_range(bytes, 0, bytes.len()))
    }

    /// Renders the preview: the first eight bytes in upper-case
    /// hexadecimal between brackets, with an ellipsis when more follow.
    #[verifier::loop_isolation(false)]
    pub fn to_string(&self) -> (s: String)
        ensures
            s@ == hex_preview(self.0@),
    {
        let ghost bytes = self.0@;
        let mut s = String::new();
        proof {
            reveal_strlit("[");
            reveal_strlit("]");
            reveal_strlit(" ");
            reveal_strlit("... ");
        }
        s.append("[");
        let len = self.0.len();
        if len == 0 {
            s.append("]");
            proof {
                assert(s@ =~= hex_preview(bytes));
            }
            return s;
        }
        s.append(" ");
        let shown: usize = if len > 8 {
            8
        } else {
            len
        };
        let mut i: usize = 0;
        while i < shown
            invariant
                i <= shown,
                s@ == seq!['[', ' '] + hex_bytes(bytes.take(i as int)),
            decreases shown - i,
        {
            let b = self.0[i];
            s.append(hex_digit_str(b / 16));
            s.append(hex_digit_str(b % 16));
            s.append(" ");
            proof {
                assert(bytes.take(i + 1).drop_last() =~= bytes.take(i as int));
                assert(bytes.take(i + 1).last() == bytes[i as int]);
                assert(s@ =~= seq!['[', ' '] + hex_bytes(bytes.take(i + 1)));
            }
            i = i + 1;
        }
        if len > 8 {
            s.append("... ");
        }
        s.append("]");
        proof {
            assert(s@ =~= hex_preview(bytes));
        }
        s
    }
}

/// The labels of the layers an error passed through, outermost last.
#[derive(Debug, PartialEq, Eq)]
pub struct Context(pub Vec<String>);

impl Context {
    /// Records one more layer.
    pub fn add_context(&mut self, ctx: &str)
        ensures
            final(self).0@.len() == old(self).0@.len() + 1,
            final(self).0@.last()@ == ctx@,
            forall|j: int| 0 <= j < old(self).0@.len() ==> final(self).0@[j] == old(self).0@[j],
    {
        self.0.push(ctx.to_owned());
    }
}

impl Default for Context {
    /// A context that has passed through no layers yet.
    fn default() -> (r: Context)
        ensures
            r.0@.len() == 0,
    {
        Context(Vec::new())
    }
}

} // verus!
