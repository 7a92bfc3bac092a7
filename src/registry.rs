//! The text that addresses the release registry and the device: request
//! URLs, the authorization header, and the device's install command.

use vstd::prelude::*;

verus! {

/// The registry's root for repository requests.
pub const API_ROOT: &'static str = "https://api.github.com/repos/";

/// The decimal digits, in order.
pub const DIGITS: &'static str = "0123456789";

/// The character of decimal digit `d`.
pub open spec fn digit_char(d: nat) -> char {
    if d == 0 { '0' }
    else if d == 1 { '1' }
    else if d == 2 { '2' }
    else if d == 3 { '3' }
    else if d == 4 { '4' }
    else if d == 5 { '5' }
    else if d == 6 { '6' }
    else if d == 7 { '7' }
    else if d == 8 { '8' }
    else { '9' }
}

/// The decimal numeral of `n`, without leading zeros.
pub open spec fn decimal_nat(n: nat) -> Seq<char>
    decreases n,
{
    if n < 10 {
        seq![digit_char(n)]
    } else {
        decimal_nat(n / 10).push(digit_char(n % 10))
    }
}

/// The decimal numeral of `n`, with a leading minus sign when negative.
pub open spec fn decimal(n: int) -> Seq<char> {
    if n < 0 {
        seq!['-'] + decimal_nat((-n) as nat)
    } else {
        decimal_nat(n as nat)
    }
}

/// The URL that lists the releases of `owner`/`repo`.
pub open spec fn releases_url_spec(owner: Seq<char>, repo: Seq<char>) -> Seq<char> {
    API_ROOT@ + owner + "/"@ + repo + "/releases"@
}

/// The URL of asset `asset_id` of `owner`/`repo`.
pub open spec fn asset_url_spec(owner: Seq<char>, repo: Seq<char>, asset_id: int) -> Seq<char> {
    API_ROOT@ + owner + "/"@ + repo + "/releases/assets/"@ + decimal(asset_id)
}

/// Appends the numeral of `n` to `s`.
fn push_decimal(s: &mut String, n: u64)
    ensures
        final(s)@ == old(s)@ + decimal_nat(n as nat),
    decreases n,
{
    if n >= 10 {
        push_decimal(s, n / 10);
    }
    let d: usize = (n % 10) as usize;
    proof {
        reveal_strlit("0123456789");
    }
    let digit = DIGITS.substring_char(d, d + 1);
    assert(digit@ =~= seq![digit_char(n as nat % 10)]);
    s.append(digit);
    assert(final(s)@ =~= old(s)@ + decimal_nat(n as nat)) by {
        if n >= 10 {
            assert(decimal_nat(n as nat) == decimal_nat(n as nat / 10).push(digit_char(n as nat % 10)));
        }
    };
}

/// The decimal numeral of `n`.
pub fn decimal_string(n: i32) -> (r: String)
    ensures
        r@ == decimal(n as int),
{
    let mut s = String::new();
    if n < 0 {
        s.append("-");
        proof {
            reveal_strlit("-");
        }
        let m: u64 = (0i64 - n as i64) as u64;
        push_decimal(&mut s, m);
        assert(s@ =~= decimal(n as int));
    } else {
        push_decimal(&mut s, n as u64);
        assert(s@ =~= decimal(n as int));
    }
    s
}

/// The URL that lists the releases of `owner`/`repo`.
pub fn releases_url(owner: &str, repo: &str) -> (r: String)
    ensures
        r@ == releases_url_spec(owner@, repo@),
{
    let mut s = String::from_str(API_ROOT);
    s.append(owner);
    s.append("/");
    s.append(repo);
    s.append("/releases");
    s
}

/// The URL of asset `asset_id` of `owner`/`repo`.
pub fn asset_url(owner: &str, repo: &str, asset_id: i32) -> (r: String)
    ensures
        r@ == asset_url_spec(owner@, repo@, asset_id as int),
{
    let mut s = String::from_str(API_ROOT);
    s.append(owner);
    s.append("/");
    s.append(repo);
    s.append("/releases/assets/");
    let id = decimal_string(asset_id);
    s.append(id.as_str());
    s
}

/// The value of the authorization header for `token`.
pub fn bearer(token: &str) -> (r: String)
    ensures
        r@ == "Bearer "@ + token@,
{
    let mut s = String::from_str("Bearer ");
    s.append(token);
    s
}

/// The shell command that installs, replacing any earlier install, the
/// package at `path` on the device.
pub fn install_command(path: &str) -> (r: String)
    ensures
        r@ == "pm install -r "@ + path@,
{
    let mut s = String::from_str("pm install -r ");
    s.append(path);
    s
}

} // verus!
