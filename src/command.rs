use vstd::prelude::*;

use crate::text::{chars_of, is_name};

verus! {

/// A command handed from the operator to the real-time side.
#[derive(Clone, Copy, Debug, PartialEq, Eq, Structural)]
pub enum Command {
    /// Run the device initialization sequence.
    Init,
    /// Send these three bytes, padded with a zero byte.
    RawTriple(u8, u8, u8),
}

/// Why a line of text is not a command.
#[derive(Clone, Copy, Debug, PartialEq, Eq, Structural)]
pub enum CommandError {
    /// The line does not split into exactly three tokens.
    TokenCountError,
    /// A token is not a decimal number in 0..=255.
    ByteParseError,
}

/// Indices of the space characters of `s`, ascending.
pub open spec fn space_positions(s: Seq<char>) -> Seq<int>
    decreases s.len(),
{
    if s.len() == 0 {
        Seq::empty()
    } else {
        let p = space_positions(s.drop_last());
        if s.last() == ' ' {
            p.push(s.len() - 1)
        } else {
            p
        }
    }
}

pub open spec fn is_digit(c: char) -> bool {
    48 <= (c as u32) <= 57
}

pub open spec fn all_digits(t: Seq<char>) -> bool {
    forall|i: int| 0 <= i < t.len() ==> is_digit(#[trigger] t[i])
}

/// The number that a string of decimal digits writes.
pub open spec fn decimal_value(t: Seq<char>) -> int
    decreases t.len(),
{
    if t.len() == 0 {
        0
    } else {
        decimal_value(t.drop_last()) * 10 + ((t.last() as u32) - 48)
    }
}

/// A token read as an unsigned byte: an optional `+`, then one or more decimal
/// digits whose value is at most 255.
pub open spec fn parse_byte(t: Seq<char>) -> Option<u8> {
    let d = if t.len() > 0 && t[0] == '+' {
        t.skip(1)
    } else {
        t
    };
    if d.len() > 0 && all_digits(d) && decimal_value(d) <= 255 {
        Some(decimal_value(d) as u8)
    } else {
        None
    }
}

/// The tokens of `s` when it holds exactly two spaces.
pub open spec fn first_token(s: Seq<char>) -> Seq<char> {
    s.subrange(0, space_positions(s)[0])
}

pub open spec fn second_token(s: Seq<char>) -> Seq<char> {
    s.subrange(space_positions(s)[0] + 1, space_positions(s)[1])
}

pub open spec fn third_token(s: Seq<char>) -> Seq<char> {
    s.subrange(space_positions(s)[1] + 1, s.len() as int)
}

/// The command that a line of text stands for: `init`, or three byte tokens
/// separated by single spaces.
pub open spec fn decode_spec(s: Seq<char>) -> Result<Command, CommandError> {
    if s == "init"@ {
        Ok(Command::Init)
    } else if space_positions(s).len() != 2 {
        Err(CommandError::TokenCountError)
    } else {
        match (
            parse_byte(first_token(s)),
            parse_byte(second_token(s)),
            parse_byte(third_token(s)),
        ) {
            (Some(a), Some(b), Some(c)) => Ok(Command::RawTriple(a, b, c)),
            _ => Err(CommandError::ByteParseError),
        }
    }
}

proof fn lemma_space_positions_bounds(s: Seq<char>)
    ensures
        forall|k: int|
            0 <= k < space_positions(s).len() ==> 0 <= #[trigger] space_positions(s)[k] < s.len()
                && s[space_positions(s)[k]] == ' ',
        forall|k: int, m: int|
            0 <= k < m < space_positions(s).len() ==> space_positions(s)[k]
                < space_positions(s)[m],
    decreases s.len(),
{
    if s.len() > 0 {
        let t = s.drop_last();
        lemma_space_positions_bounds(t);
        let p = space_positions(t);
        assert forall|k: int| 0 <= k < p.len() implies 0 <= #[trigger] p[k] < s.len() && s[p[k]]
            == ' ' by {
            assert(s[p[k]] == t[p[k]]);
        }
    }
}

fn parse_byte_in(cs: &Vec<char>, lo: usize, hi: usize) -> (r: Option<u8>)
    requires
        lo <= hi <= cs@.len(),
    ensures
        r == parse_byte(cs@.subrange(lo as int, hi as int)),
{
    let ghost t = cs@.subrange(lo as int, hi as int);
    let mut start: usize = lo;
    if lo < hi && cs[lo] == '+' {
        start = lo + 1;
    }
    let ghost d = cs@.subrange(start as int, hi as int);
    assert(d == if t.len() > 0 && t[0] == '+' { t.skip(1) } else { t });
    if start == hi {
        return None;
    }
    let mut acc: u32 = 0;
    let mut i: usize = start;
    while i < hi
        invariant
            lo <= start <= i <= hi <= cs@.len(),
            d == cs@.subrange(start as int, hi as int),
            t == cs@.subrange(lo as int, hi as int),
            d == if t.len() > 0 && t[0] == '+' {
                t.skip(1)
            } else {
                t
            },
            all_digits(cs@.subrange(start as int, i as int)),
            acc as int == if decimal_value(cs@.subrange(start as int, i as int)) < 256 {
                decimal_value(cs@.subrange(start as int, i as int))
            } else {
                256
            },
        decreases hi - i,
    {
        let ghost prev = cs@.subrange(start as int, i as int);
        let ghost next = cs@.subrange(start as int, i + 1);
        let c = cs[i];
        let code = #[verifier::truncate] (c as u32);
        if code < 48 || code > 57 {
            assert(d[i - start] == c);
            return None;
        }
        assert(next.drop_last() =~= prev);
        assert(next.last() == c);
        assert(decimal_value(next) == decimal_value(prev) * 10 + (code - 48));
        if acc >= 256 {
            assert(decimal_value(next) >= 256) by (nonlinear_arith)
                requires
                    decimal_value(next) == decimal_value(prev) * 10 + (code - 48),
                    decimal_value(prev) >= 256,
                    code >= 48,
            ;
            acc = 256;
        } else {
            acc = acc * 10 + (code - 48);
            if acc > 256 {
                acc = 256;
            }
        }
        assert(all_digits(next)) by {
            assert forall|j: int| 0 <= j < next.len() implies is_digit(#[trigger] next[j]) by {
                if j < prev.len() {
                    assert(next[j] == prev[j]);
                }
            }
        }
        i = i + 1;
    }
    assert(cs@.subrange(start as int, i as int) =~= d);
    if acc > 255 {
        None
    } else {
        Some(acc as u8)
    }
}

/// Decodes one line of operator text into a command.
pub fn decode(text: &str) -> (r: Result<Command, CommandError>)
    ensures
        r == decode_spec(text@),
{
    let cs = chars_of(text);
    if is_name(&cs, "init") {
        return Ok(Command::Init);
    }
    let mut spaces: Vec<usize> = Vec::new();
    let mut i: usize = 0;
    while i < cs.len()
        invariant
            0 <= i <= cs@.len(),
            spaces@.len() == space_positions(cs@.take(i as int)).len(),
            forall|k: int|
                0 <= k < spaces@.len() ==> spaces@[k] as int == space_positions(
                    cs@.take(i as int),
                )[k],
        decreases cs@.len() - i,
    {
        assert(cs@.take(i + 1).drop_last() =~= cs@.take(i as int));
        if cs[i] == ' ' {
            spaces.push(i);
        }
        i = i + 1;
    }
    assert(cs@.take(i as int) =~= cs@);
    if spaces.len() != 2 {
        return Err(CommandError::TokenCountError);
    }
    proof {
        lemma_space_positions_bounds(cs@);
    }
    let a = parse_byte_in(&cs, 0, spaces[0]);
    let b = parse_byte_in(&cs, spaces[0] + 1, spaces[1]);
    let c = parse_byte_in(&cs, spaces[1] + 1, cs.len());
    match (a, b, c) {
        (Some(a), Some(b), Some(c)) => Ok(Command::RawTriple(a, b, c)),
        _ => Err(CommandError::ByteParseError),
    }
}

} // verus!
