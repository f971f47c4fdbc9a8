//! The backend server's launch configuration: the executable's location
//! under the server directory, its fixed command line, and the public-lobby
//! toggle.
//!
//! Spawning the process is an operating-system effect the caller performs;
//! this module fixes, exactly, what is spawned.

use vstd::prelude::*;

verus! {

/// The character for one decimal digit.
pub open spec fn spec_digit_char(d: nat) -> char {
    if d == 0 {
        '0'
    } else if d == 1 {
        '1'
    } else if d == 2 {
        '2'
    } else if d == 3 {
        '3'
    } else if d == 4 {
        '4'
    } else if d == 5 {
        '5'
    } else if d == 6 {
        '6'
    } else if d == 7 {
        '7'
    } else if d == 8 {
        '8'
    } else {
        '9'
    }
}

/// The decimal rendering of `n`, without sign or leading zeros (a single
/// zero for 0).
pub open spec fn spec_decimal(n: nat) -> Seq<char>
    decreases n,
{
    if n < 10 {
        seq![spec_digit_char(n)]
    } else {
        spec_decimal(n / 10).push(spec_digit_char(n % 10))
    }
}

fn digit_str(d: u16) -> (r: &'static str)
    requires
        d < 10,
    ensures
        r@ == seq![spec_digit_char(d as nat)],
{
    proof {
        reveal_strlit("0");
        reveal_strlit("1");
        reveal_strlit("2");
        reveal_strlit("3");
        reveal_strlit("4");
        reveal_strlit("5");
        reveal_strlit("6");
        reveal_strlit("7");
        reveal_strlit("8");
        reveal_strlit("9");
    }
    match d {
        0 => "0",
        1 => "1",
        2 => "2",
        3 => "3",
        4 => "4",
        5 => "5",
        6 => "6",
        7 => "7",
        8 => "8",
        _ => "9",
    }
}

/// `n` rendered in decimal.
pub fn u16_decimal(n: u16) -> (s: String)
    ensures
        s@ == spec_decimal(n as nat),
    decreases n,
{
    if n < 10 {
        String::from_str(digit_str(n))
    } else {
        let mut s = u16_decimal(n / 10);
        s.append(digit_str(n % 10));
        proof {
            assert(s@ =~= spec_decimal((n / 10) as nat).push(spec_digit_char((n % 10) as nat)));
        }
        s
    }
}

/// Path of the backend executable, relative to the server directory.
pub fn backend_relative_path() -> (p: &'static str)
    ensures
        p@ == "Pal/Binaries/Linux/PalServer-Linux-Shipping"@,
{
    "Pal/Binaries/Linux/PalServer-Linux-Shipping"
}

/// The meaning of the public-lobby toggle: 0 turns it off, 1 turns it on,
/// anything else is rejected as a configuration error.
pub fn community_flag(value: u8) -> (r: Option<bool>)
    ensures
        value == 0 ==> r == Some(false),
        value == 1 ==> r == Some(true),
        value > 1 ==> r is None,
{
    match value {
        0 => Some(false),
        1 => Some(true),
        _ => None,
    }
}

/// The arguments the backend is spawned with: the port flag for the
/// configured backend port, the fixed performance and threading flags, and
/// the public-lobby flag exactly when the toggle is on.
pub fn backend_args(port: u16, community_server: bool) -> (args: Vec<String>)
    ensures
        args.len() == if community_server { 5int } else { 4int },
        args@[0]@ == "-port="@ + spec_decimal(port as nat),
        args@[1]@ == "-useperfthreads"@,
        args@[2]@ == "-NoAsyncLoadingThread"@,
        args@[3]@ == "-UseMultithreadForDS"@,
        community_server ==> args@[4]@ == "-publiclobby"@,
{
    let mut args: Vec<String> = Vec::new();
    let port_arg = String::from_str("-port=").concat(u16_decimal(port).as_str());
    args.push(port_arg);
    args.push(String::from_str("-useperfthreads"));
    args.push(String::from_str("-NoAsyncLoadingThread"));
    args.push(String::from_str("-UseMultithreadForDS"));
    if community_server {
        args.push(String::from_str("-publiclobby"));
    }
    args
}

} // verus!
