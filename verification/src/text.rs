//! Every operator-facing line of output, specified as a function of the data
//! it reports and built by verified code.

use vstd::prelude::*;
use vstd::string::*;
use crate::entry::{EntryKind, EntryModel, RemoteEntry};

verus! {

/// The notice naming the device about to be attached.
pub open spec fn notice_model(device: Seq<char>) -> Seq<char> {
    "Attaching to "@ + device + "."@
}

/// One line of the info report: a bullet marker followed by the item.
pub open spec fn info_line_model(item: Seq<char>) -> Seq<char> {
    " * "@ + item
}

/// One line of a directory listing: the entry's name, with a trailing
/// separator when the entry is a directory and nothing otherwise.
pub open spec fn entry_line_model(e: EntryModel) -> Seq<char> {
    if e.kind is Directory {
        e.name + "/"@
    } else {
        e.name
    }
}

/// The progress line printed before a transfer.
pub open spec fn progress_line_model(local: Seq<char>, remote: Seq<char>) -> Seq<char> {
    local + " -> "@ + remote
}

/// The notice printed before a removal.
pub open spec fn removal_line_model(path: Seq<char>) -> Seq<char> {
    "removing "@ + path
}

/// The decimal digit character for `d`.
pub open spec fn digit_char(d: nat) -> char {
    if d == 0 {
        '0'
    } else if d == 1 {
        '1'
    } else if d == 2 {
        '2'
    } else if d == 3 {
        '3'
    } else if d == 4 {
        '4'
    } else if d == 5 {
        '5'
    } else if d == 6 {
        '6'
    } else if d == 7 {
        '7'
    } else if d == 8 {
        '8'
    } else {
        '9'
    }
}

/// The decimal rendering of `n`, most significant digit first, no leading
/// zeros (a lone zero for `n == 0`).
pub open spec fn decimal_digits(n: nat) -> Seq<char>
    decreases n,
{
    if n < 10 {
        seq![digit_char(n)]
    } else {
        decimal_digits(n / 10).push(digit_char(n % 10))
    }
}

/// The interior of a printed byte sequence: decimal values separated by
/// a comma and a space.
pub open spec fn bytes_interior(bs: Seq<u8>) -> Seq<char>
    decreases bs.len(),
{
    if bs.len() == 0 {
        Seq::empty()
    } else if bs.len() == 1 {
        decimal_digits(bs[0] as nat)
    } else {
        bytes_interior(bs.drop_last()) + ", "@ + decimal_digits(bs.last() as nat)
    }
}

/// The printed form of a byte buffer: the bracketed, comma-separated decimal
/// values, `[]` for an empty buffer.
pub open spec fn bytes_line_model(bs: Seq<u8>) -> Seq<char> {
    "["@ + bytes_interior(bs) + "]"@
}

pub fn notice_line(device: &str) -> (r: String)
    ensures
        r@ == notice_model(device@),
{
    String::from_str("Attaching to ").concat(device).concat(".")
}

pub fn info_line(item: &str) -> (r: String)
    ensures
        r@ == info_line_model(item@),
{
    String::from_str(" * ").concat(item)
}

pub fn entry_line(e: &RemoteEntry) -> (r: String)
    ensures
        r@ == entry_line_model(e@),
{
    match e.kind {
        EntryKind::Directory => e.name.clone().concat("/"),
        EntryKind::File => e.name.clone(),
    }
}

pub fn progress_line(local: &str, remote: &str) -> (r: String)
    ensures
        r@ == progress_line_model(local@, remote@),
{
    String::from_str(local).concat(" -> ").concat(remote)
}

pub fn removal_line(path: &str) -> (r: String)
    ensures
        r@ == removal_line_model(path@),
{
    String::from_str("removing ").concat(path)
}

fn digit_str(d: u8) -> (r: &'static str)
    requires
        d < 10,
    ensures
        r@ == seq![digit_char(d as nat)],
{
    if d == 0 {
        let r = "0";
        proof {
            reveal_strlit("0");
            assert(r@ =~= seq![digit_char(d as nat)]);
        }
        r
    } else if d == 1 {
        let r = "1";
        proof {
            reveal_strlit("1");
            assert(r@ =~= seq![digit_char(d as nat)]);
        }
        r
    } else if d == 2 {
        let r = "2";
        proof {
            reveal_strlit("2");
            assert(r@ =~= seq![digit_char(d as nat)]);
        }
        r
    } else if d == 3 {
        let r = "3";
        proof {
            reveal_strlit("3");
            assert(r@ =~= seq![digit_char(d as nat)]);
        }
        r
    } else if d == 4 {
        let r = "4";
        proof {
            reveal_strlit("4");
            assert(r@ =~= seq![digit_char(d as nat)]);
        }
        r
    } else if d == 5 {
        let r = "5";
        proof {
            reveal_strlit("5");
            assert(r@ =~= seq![digit_char(d as nat)]);
        }
        r
    } else if d == 6 {
        let r = "6";
        proof {
            reveal_strlit("6");
            assert(r@ =~= seq![digit_char(d as nat)]);
        }
        r
    } else if d == 7 {
        let r = "7";
        proof {
            reveal_strlit("7");
            assert(r@ =~= seq![digit_char(d as nat)]);
        }
        r
    } else if d == 8 {
        let r = "8";
        proof {
            reveal_strlit("8");
            assert(r@ =~= seq![digit_char(d as nat)]);
        }
        r
    } else {
        let r = "9";
        proof {
            reveal_strlit("9");
            assert(r@ =~= seq![digit_char(d as nat)]);
        }
        r
    }
}

/// The decimal rendering of one byte value.
pub fn decimal_byte(n: u8) -> (r: String)
    ensures
        r@ == decimal_digits(n as nat),
{
    proof {
        reveal_with_fuel(decimal_digits, 3);
    }
    if n < 10 {
        let r = String::from_str(digit_str(n));
        proof {
            assert(r@ =~= decimal_digits(n as nat));
        }
        r
    } else if n < 100 {
        let r = String::from_str(digit_str(n / 10)).concat(digit_str(n % 10));
        proof {
            assert(r@ =~= decimal_digits(n as nat));
        }
        r
    } else {
        let r = String::from_str(digit_str(n / 100)).concat(digit_str((n / 10) % 10)).concat(
            digit_str(n % 10),
        );
        proof {
            assert(r@ =~= decimal_digits(n as nat));
        }
        r
    }
}

/// The printed form of the buffer returned by a memory read.
pub fn bytes_line(bs: &Vec<u8>) -> (r: String)
    ensures
        r@ == bytes_line_model(bs@),
{
    let mut s = String::from_str("[");
    let mut i: usize = 0;
    while i < bs.len()
        invariant
            i <= bs@.len(),
            s@ == "["@ + bytes_interior(bs@.take(i as int)),
        decreases bs@.len() - i,
    {
        if i > 0 {
            s.append(", ");
        }
        let d = decimal_byte(bs[i]);
        s.append(d.as_str());
        proof {
            let pre = bs@.take(i as int);
            let cur = bs@.take(i + 1);
            assert(cur.drop_last() =~= pre);
            assert(cur.last() == bs@[i as int]);
            if i == 0 {
                assert(bytes_interior(cur) == decimal_digits(bs@[0] as nat));
                assert(s@ =~= "["@ + bytes_interior(cur));
            } else {
                assert(bytes_interior(cur) == bytes_interior(pre) + ", "@ + decimal_digits(
                    cur.last() as nat,
                ));
                assert(s@ =~= "["@ + bytes_interior(cur));
            }
        }
        i += 1;
    }
    proof {
        assert(bs@.take(i as int) =~= bs@);
    }
    s.concat("]")
}

} // verus!
