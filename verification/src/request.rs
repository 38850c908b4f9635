//! The request the fetcher issues: the metadata endpoint templated with
//! the show's catalog identifier, the season and episode numbers, and the
//! caller's API credential.

use vstd::prelude::*;

use vstd::string::StringExecFns;

use crate::selector::EpisodeReference;
use crate::shows::catalog_id;
use crate::shows::spec_catalog_id;

verus! {

/// The character that writes the decimal digit `d`.
pub open spec fn spec_digit_char(d: nat) -> char {
    if d == 0 {
        '0'
    } else if d == 1 {
        '1'
    } else if d == 2 {
        '2'
    } else if d == 3 {
        '3'
    } else if d == 4 {
        '4'
    } else if d == 5 {
        '5'
    } else if d == 6 {
        '6'
    } else if d == 7 {
        '7'
    } else if d == 8 {
        '8'
    } else {
        '9'
    }
}

/// The decimal writing of `n`, most significant digit first, with no
/// leading zero but for `n == 0` itself.
pub open spec fn spec_decimal(n: nat) -> Seq<char>
    decreases n,
{
    if n < 10 {
        seq![spec_digit_char(n)]
    } else {
        spec_decimal(n / 10) + seq![spec_digit_char(n % 10)]
    }
}

/// The one-character string that writes the decimal digit `d`.
fn digit_str(d: u32) -> (s: &'static str)
    requires
        d < 10,
    ensures
        s@ == seq![spec_digit_char(d as nat)],
{
    proof {
        reveal_strlit("0");
        reveal_strlit("1");
        reveal_strlit("2");
        reveal_strlit("3");
        reveal_strlit("4");
        reveal_strlit("5");
        reveal_strlit("6");
        reveal_strlit("7");
        reveal_strlit("8");
        reveal_strlit("9");
    }
    let s: &'static str = match d {
        0 => "0",
        1 => "1",
        2 => "2",
        3 => "3",
        4 => "4",
        5 => "5",
        6 => "6",
        7 => "7",
        8 => "8",
        _ => "9",
    };
    proof {
        assert(s@ =~= seq![spec_digit_char(d as nat)]);
    }
    s
}

/// Append the decimal writing of `n` to `out`.
fn push_decimal(out: &mut String, n: u32)
    ensures
        final(out)@ == old(out)@ + spec_decimal(n as nat),
    decreases n,
{
    if n >= 10 {
        push_decimal(out, n / 10);
    }
    let d = digit_str(n % 10);
    out.append(d);
    proof {
        assert(out@ =~= old(out)@ + spec_decimal(n as nat));
    }
}

/// The decimal writing of `n` as a string.
pub fn decimal_string(n: u32) -> (s: String)
    ensures
        s@ == spec_decimal(n as nat),
{
    let mut s = String::new();
    push_decimal(&mut s, n);
    proof {
        assert(s@ =~= spec_decimal(n as nat));
    }
    s
}

/// The URL of the metadata request for `ep`, with the credential `key`
/// embedded as a query parameter.
pub open spec fn spec_request_url(ep: EpisodeReference, key: Seq<char>) -> Seq<char> {
    "https://api.themoviedb.org/3/tv/"@ + spec_decimal(spec_catalog_id(ep.show) as nat)
        + "/season/"@ + spec_decimal(ep.season as nat) + "/episode/"@ + spec_decimal(
        ep.episode as nat,
    ) + "?api_key="@ + key + "&language=en-US"@
}

/// Build the URL of the metadata request for `ep`.
pub fn request_url(ep: EpisodeReference, key: &str) -> (s: String)
    ensures
        s@ == spec_request_url(ep, key@),
{
    let mut s = String::new();
    s.append("https://api.themoviedb.org/3/tv/");
    push_decimal(&mut s, catalog_id(ep.show));
    s.append("/season/");
    push_decimal(&mut s, ep.season);
    s.append("/episode/");
    push_decimal(&mut s, ep.episode);
    s.append("?api_key=");
    s.append(key);
    s.append("&language=en-US");
    proof {
        assert(s@ =~= spec_request_url(ep, key@));
    }
    s
}

} // verus!
