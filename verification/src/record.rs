use vstd::prelude::*;
use vstd::string::StringExecFns;

verus! {

/// One client-submitted log entry: identifiers, a caller-supplied timestamp,
/// and the message already rendered in its stable textual form.
#[derive(Debug)]
pub struct EventRecord {
    pub install_id: String,
    pub session_id: String,
    pub seq: usize,
    pub time: String,
    pub msg: String,
}

/// The character for a single decimal digit.
pub open spec fn digit_char(d: nat) -> char {
    if d == 0 {
        '0'
    } else if d == 1 {
        '1'
    } else if d == 2 {
        '2'
    } else if d == 3 {
        '3'
    } else if d == 4 {
        '4'
    } else if d == 5 {
        '5'
    } else if d == 6 {
        '6'
    } else if d == 7 {
        '7'
    } else if d == 8 {
        '8'
    } else {
        '9'
    }
}

/// The usual decimal rendering of a non-negative integer: no sign, no
/// leading zeros (a single `'0'` for zero).
pub open spec fn spec_decimal(n: nat) -> Seq<char>
    decreases n,
{
    if n < 10 {
        seq![digit_char(n)]
    } else {
        spec_decimal(n / 10) + seq![digit_char(n % 10)]
    }
}

/// The one line that a record occupies in the log file:
/// `[<timestamp>] <install_id>::<session_id>::<seq> > <message>` and a newline.
pub open spec fn line_of(r: EventRecord) -> Seq<char> {
    seq!['['] + r.time@ + seq![']', ' '] + r.install_id@ + seq![':', ':'] + r.session_id@
        + seq![':', ':'] + spec_decimal(r.seq as nat) + seq![' ', '>', ' '] + r.msg@ + seq!['\n']
}

fn digit_str(d: usize) -> (s: &'static str)
    requires
        d < 10,
    ensures
        s@ == seq![digit_char(d as nat)],
{
    proof {
        reveal_strlit("0");
        reveal_strlit("1");
        reveal_strlit("2");
        reveal_strlit("3");
        reveal_strlit("4");
        reveal_strlit("5");
        reveal_strlit("6");
        reveal_strlit("7");
        reveal_strlit("8");
        reveal_strlit("9");
    }
    let s = if d == 0 {
        "0"
    } else if d == 1 {
        "1"
    } else if d == 2 {
        "2"
    } else if d == 3 {
        "3"
    } else if d == 4 {
        "4"
    } else if d == 5 {
        "5"
    } else if d == 6 {
        "6"
    } else if d == 7 {
        "7"
    } else if d == 8 {
        "8"
    } else {
        "9"
    };
    proof {
        assert(s@ =~= seq![digit_char(d as nat)]);
    }
    s
}

/// Render a non-negative integer in decimal.
pub fn usize_to_string(n: usize) -> (r: String)
    ensures
        r@ == spec_decimal(n as nat),
    decreases n,
{
    if n < 10 {
        String::from_str(digit_str(n))
    } else {
        let mut r = usize_to_string(n / 10);
        r.append(digit_str(n % 10));
        r
    }
}

/// Format a record as the single line appended to the log file.
pub fn format_line(r: &EventRecord) -> (s: String)
    ensures
        s@ == line_of(*r),
{
    proof {
        reveal_strlit("[");
        reveal_strlit("] ");
        reveal_strlit("::");
        reveal_strlit(" > ");
        reveal_strlit("\n");
    }
    let mut s = String::from_str("[");
    s.append(r.time.as_str());
    s.append("] ");
    s.append(r.install_id.as_str());
    s.append("::");
    s.append(r.session_id.as_str());
    s.append("::");
    let num = usize_to_string(r.seq);
    s.append(num.as_str());
    s.append(" > ");
    s.append(r.msg.as_str());
    s.append("\n");
    proof {
        assert(s@ =~= line_of(*r));
    }
    s
}

} // verus!
