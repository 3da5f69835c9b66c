//! Construction of the contextual note attached to a failure:
//! `"<file>:<line>"`, extended with `" => <message>"` when the caller
//! supplied a message.

use vstd::prelude::*;

verus! {

/// The decimal digit characters, lowest value first.
pub open spec fn dec_digit(d: nat) -> char {
    if d == 0 {
        '0'
    } else if d == 1 {
        '1'
    } else if d == 2 {
        '2'
    } else if d == 3 {
        '3'
    } else if d == 4 {
        '4'
    } else if d == 5 {
        '5'
    } else if d == 6 {
        '6'
    } else if d == 7 {
        '7'
    } else if d == 8 {
        '8'
    } else {
        '9'
    }
}

/// The decimal rendering of `n`, most significant digit first, with no
/// leading zeros (`0` alone renders as `"0"`).
pub open spec fn dec_str(n: nat) -> Seq<char>
    decreases n,
{
    if n < 10 {
        seq![dec_digit(n)]
    } else {
        dec_str(n / 10) + seq![dec_digit(n % 10)]
    }
}

/// The source-location token of a note: the file name, a colon, and the
/// line number in decimal.
pub open spec fn location_spec(file: Seq<char>, line: nat) -> Seq<char> {
    file + ":"@ + dec_str(line)
}

/// The full note: the location alone, or the location, an arrow, and the
/// caller's message.
pub open spec fn note_spec(file: Seq<char>, line: nat, message: Option<Seq<char>>) -> Seq<char> {
    match message {
        Option::Some(m) => location_spec(file, line) + " => "@ + m,
        Option::None => location_spec(file, line),
    }
}

/// Appends one decimal digit (`d < 10`) to `out`.
fn push_dec_digit(out: &mut String, d: u64)
    requires
        d < 10,
    ensures
        final(out)@ == old(out)@ + seq![dec_digit(d as nat)],
{
    let digit: &str = if d == 0 {
        "0"
    } else if d == 1 {
        "1"
    } else if d == 2 {
        "2"
    } else if d == 3 {
        "3"
    } else if d == 4 {
        "4"
    } else if d == 5 {
        "5"
    } else if d == 6 {
        "6"
    } else if d == 7 {
        "7"
    } else if d == 8 {
        "8"
    } else {
        "9"
    };
    proof {
        reveal_strlit("0");
        reveal_strlit("1");
        reveal_strlit("2");
        reveal_strlit("3");
        reveal_strlit("4");
        reveal_strlit("5");
        reveal_strlit("6");
        reveal_strlit("7");
        reveal_strlit("8");
        reveal_strlit("9");
        assert(digit@ =~= seq![dec_digit(d as nat)]);
    }
    out.append(digit);
}

/// Appends the decimal rendering of `n` to `out`.
fn push_dec(out: &mut String, n: u64)
    ensures
        final(out)@ == old(out)@ + dec_str(n as nat),
    decreases n,
{
    if n >= 10 {
        push_dec(out, n / 10);
    }
    push_dec_digit(out, n % 10);
    proof {
        assert(final(out)@ =~= old(out)@ + dec_str(n as nat));
    }
}

/// Renders `n` in decimal, most significant digit first.
pub fn u64_to_dec(n: u64) -> (r: String)
    ensures
        r@ == dec_str(n as nat),
{
    let mut out = String::new();
    push_dec(&mut out, n);
    proof {
        assert(out@ =~= dec_str(n as nat));
    }
    out
}

/// The view of an optional message.
pub open spec fn message_view(message: Option<&str>) -> Option<Seq<char>> {
    match message {
        Option::Some(m) => Option::Some(m@),
        Option::None => Option::None,
    }
}

/// Builds the note for a failure observed at `file:line`, with the caller's
/// message appended after `" => "` when one was supplied.
pub fn make_note(file: &str, line: u64, message: Option<&str>) -> (r: String)
    ensures
        r@ == note_spec(file@, line as nat, message_view(message)),
{
    let mut out = String::from_str(file);
    out.append(":");
    let digits = u64_to_dec(line);
    out.append(digits.as_str());
    proof {
        assert(out@ =~= location_spec(file@, line as nat));
    }
    match message {
        Option::Some(m) => {
            out.append(" => ");
            out.append(m);
            proof {
                assert(out@ =~= note_spec(file@, line as nat, message_view(message)));
            }
            out
        },
        Option::None => out,
    }
}

/// The note always starts with the location token; the location is the
/// file name, a colon, and the line number's decimal digits; a note built
/// without a message is the location alone.
pub proof fn lemma_note_location_prefix(file: Seq<char>, line: nat, message: Option<Seq<char>>)
    ensures
        note_spec(file, line, message).len() >= location_spec(file, line).len(),
        note_spec(file, line, message).subrange(0, location_spec(file, line).len() as int)
            == location_spec(file, line),
        location_spec(file, line).len() == file.len() + 1 + dec_str(line).len(),
        location_spec(file, line).subrange(0, file.len() as int) == file,
        location_spec(file, line)[file.len() as int] == ':',
        location_spec(file, line).subrange(
            file.len() as int + 1,
            location_spec(file, line).len() as int,
        ) == dec_str(line),
        message is None ==> note_spec(file, line, message) == location_spec(file, line),
{
    reveal_strlit(":");
    let loc = location_spec(file, line);
    let note = note_spec(file, line, message);
    assert(note.subrange(0, loc.len() as int) =~= loc);
    assert(loc.subrange(0, file.len() as int) =~= file);
    assert(loc.subrange(file.len() as int + 1, loc.len() as int) =~= dec_str(line));
}

} // verus!
