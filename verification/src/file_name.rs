//! Names of segment files: the seconds since the epoch, in decimal, with
//! the extension `.wav`, inside the destination folder.

use vstd::prelude::*;
use vstd::string::*;

verus! {

/// The character for one decimal digit.
pub open spec fn spec_digit(d: int) -> char
    recommends
        0 <= d < 10,
{
    seq!['0', '1', '2', '3', '4', '5', '6', '7', '8', '9'][d]
}

/// `n` in decimal, most significant digit first, without leading zeros.
pub open spec fn spec_decimal(n: nat) -> Seq<char>
    decreases n,
{
    if n < 10 {
        seq![spec_digit(n as int)]
    } else {
        spec_decimal(n / 10).push(spec_digit((n % 10) as int))
    }
}

/// `name` placed inside `folder`: a `/` is put between the two unless the
/// folder is empty or already ends in one.
pub open spec fn spec_join(folder: Seq<char>, name: Seq<char>) -> Seq<char> {
    if folder.len() == 0 || folder.last() == '/' {
        folder + name
    } else {
        folder + seq!['/'] + name
    }
}

/// The name of the segment that starts `unix_secs` seconds after the epoch:
/// the number in decimal followed by `.wav`.
pub open spec fn spec_segment_name(unix_secs: u64) -> Seq<char> {
    spec_decimal(unix_secs as nat) + ".wav"@
}

/// The path of the segment that starts at `unix_secs` inside `folder`.
pub open spec fn spec_new_file_name(folder: Seq<char>, unix_secs: u64) -> Seq<char> {
    spec_join(folder, spec_segment_name(unix_secs))
}

fn digit_str(d: u8) -> (s: &'static str)
    requires
        d < 10,
    ensures
        s@ == seq![spec_digit(d as int)],
{
    proof {
        reveal_strlit("0");
        reveal_strlit("1");
        reveal_strlit("2");
        reveal_strlit("3");
        reveal_strlit("4");
        reveal_strlit("5");
        reveal_strlit("6");
        reveal_strlit("7");
        reveal_strlit("8");
        reveal_strlit("9");
    }
    let s = match d {
        0 => "0",
        1 => "1",
        2 => "2",
        3 => "3",
        4 => "4",
        5 => "5",
        6 => "6",
        7 => "7",
        8 => "8",
        _ => "9",
    };
    assert(s@ =~= seq![spec_digit(d as int)]);
    s
}

/// Appends `n` in decimal to `out`.
pub fn push_decimal(out: &mut String, n: u64)
    ensures
        final(out)@ == old(out)@ + spec_decimal(n as nat),
    decreases n,
{
    if n >= 10 {
        push_decimal(out, n / 10);
    }
    out.append(digit_str((n % 10) as u8));
    assert(out@ =~= old(out)@ + spec_decimal(n as nat));
}

/// The path of the segment that starts `unix_secs` seconds after the epoch,
/// inside `destination_folder`.
pub fn new_file_name(destination_folder: &str, unix_secs: u64) -> (path: String)
    ensures
        path@ == spec_new_file_name(destination_folder@, unix_secs),
{
    let mut path = String::from_str(destination_folder);
    let len = destination_folder.unicode_len();
    if len > 0 && destination_folder.get_char(len - 1) != '/' {
        proof {
            reveal_strlit("/");
        }
        path.append("/");
        assert(path@ =~= destination_folder@ + seq!['/']);
    }
    let ghost stem = path@;
    push_decimal(&mut path, unix_secs);
    path.append(".wav");
    assert(path@ =~= stem + spec_segment_name(unix_secs));
    path
}

} // verus!
