//! Source locations and their rendering as a diagnostic suffix.
use vstd::prelude::*;

verus! {

/// The place in the source where an abnormal termination began.
pub struct SourceLocation {
    pub file: String,
    pub line: u32,
    pub column: u32,
}

/// The character of a decimal digit.
pub open spec fn digit_char(d: nat) -> char {
    if d == 0 {
        '0'
    } else if d == 1 {
        '1'
    } else if d == 2 {
        '2'
    } else if d == 3 {
        '3'
    } else if d == 4 {
        '4'
    } else if d == 5 {
        '5'
    } else if d == 6 {
        '6'
    } else if d == 7 {
        '7'
    } else if d == 8 {
        '8'
    } else {
        '9'
    }
}

/// The decimal notation of `n`, without leading zeros.
pub open spec fn decimal(n: nat) -> Seq<char>
    decreases n,
{
    if n < 10 {
        seq![digit_char(n)]
    } else {
        decimal(n / 10).push(digit_char(n % 10))
    }
}

/// `" (at FILE:LINE:COL)"` for a known location, nothing for an unknown one.
pub open spec fn location_suffix(file: Seq<char>, line: nat, column: nat) -> Seq<char> {
    " (at "@ + file + ":"@ + decimal(line) + ":"@ + decimal(column) + ")"@
}

/// The suffix that a diagnostic line carries for an optional location.
pub open spec fn suffix_of(loc: Option<SourceLocation>) -> Seq<char> {
    match loc {
        Some(l) => location_suffix(l.file@, l.line as nat, l.column as nat),
        None => Seq::empty(),
    }
}

fn digit_str(d: u32) -> (r: &'static str)
    requires
        d < 10,
    ensures
        r@ == seq![digit_char(d as nat)],
{
    proof {
        reveal_strlit("0");
        reveal_strlit("1");
        reveal_strlit("2");
        reveal_strlit("3");
        reveal_strlit("4");
        reveal_strlit("5");
        reveal_strlit("6");
        reveal_strlit("7");
        reveal_strlit("8");
        reveal_strlit("9");
    }
    match d {
        0 => "0",
        1 => "1",
        2 => "2",
        3 => "3",
        4 => "4",
        5 => "5",
        6 => "6",
        7 => "7",
        8 => "8",
        _ => "9",
    }
}

/// Appends the decimal notation of `n` to `out`.
pub fn push_decimal(out: &mut String, n: u32)
    ensures
        final(out)@ == old(out)@ + decimal(n as nat),
    decreases n,
{
    if n >= 10 {
        push_decimal(out, n / 10);
    }
    out.append(digit_str(n % 10));
    proof {
        if n >= 10 {
            assert(old(out)@ + decimal(n as nat) =~= old(out)@ + decimal((n / 10) as nat)
                + seq![digit_char((n % 10) as nat)]);
        }
    }
}

impl SourceLocation {
    pub fn new(file: String, line: u32, column: u32) -> (r: SourceLocation)
        ensures
            r.file@ == file@,
            r.line == line,
            r.column == column,
    {
        SourceLocation { file, line, column }
    }

    /// The text `" (at FILE:LINE:COL)"` for this location.
    pub fn suffix(&self) -> (r: String)
        ensures
            r@ == location_suffix(self.file@, self.line as nat, self.column as nat),
    {
        proof {
            reveal_strlit(" (at ");
            reveal_strlit(":");
            reveal_strlit(")");
        }
        let mut r = String::from_str(" (at ");
        r.append(self.file.as_str());
        r.append(":");
        push_decimal(&mut r, self.line);
        r.append(":");
        push_decimal(&mut r, self.column);
        r.append(")");
        r
    }
}

/// The location suffix of a diagnostic line: empty where no location is known.
pub fn format_location(loc: &Option<SourceLocation>) -> (r: String)
    ensures
        r@ == suffix_of(*loc),
{
    match loc {
        Some(l) => l.suffix(),
        None => String::new(),
    }
}

} // verus!
