use vstd::prelude::*;
use crate::error::Error;
use vstd::string::{StrSliceExecFns, StringExecFns};

verus! {

/// The text of `s` as url normalises it, or `None` where `s` is not an
/// absolute address.
pub uninterp spec fn url_parsed(s: Seq<char>) -> Option<Seq<char>>;

/// `s` is made of ASCII digits only.
pub open spec fn all_digits(s: Seq<char>) -> bool {
    forall|i: int| 0 <= i < s.len() ==> '0' <= #[trigger] s[i] <= '9'
}

/// The value of a run of ASCII digits.
pub open spec fn digits_value(s: Seq<char>) -> int
    decreases s.len(),
{
    if s.len() == 0 {
        0
    } else {
        digits_value(s.drop_last()) * 10 + (s.last() as int - '0' as int)
    }
}

/// The integer that `s` writes: an optional sign followed by one or more
/// ASCII digits.
pub open spec fn signed_value(s: Seq<char>) -> Option<int> {
    if s.len() > 0 && (s[0] == '+' || s[0] == '-') {
        let d = s.drop_first();
        if d.len() > 0 && all_digits(d) {
            Some(
                if s[0] == '-' {
                    -digits_value(d)
                } else {
                    digits_value(d)
                },
            )
        } else {
            None
        }
    } else if s.len() > 0 && all_digits(s) {
        Some(digits_value(s))
    } else {
        None
    }
}

/// The `i32` that `s` writes in decimal, or `None` where it writes none or
/// the value is out of range.
pub open spec fn i32_parsed(s: Seq<char>) -> Option<i32> {
    match signed_value(s) {
        Some(v) => if i32::MIN <= v <= i32::MAX {
            Some(v as i32)
        } else {
            None
        },
        None => None,
    }
}

/// Relies on url::Url::parse, and the text of the parsed address: the outcome
/// depends on `s` alone.
#[verifier::external_body]
fn normalize_url(s: &str) -> (r: Option<String>)
    ensures
        match r {
            Some(t) => url_parsed(s@) == Some(t@),
            None => url_parsed(s@) is None,
        },
{
    url::Url::parse(s).ok().map(|u| u.to_string())
}

/// Relies on str::parse::<i32>: an optional sign and one or more decimal
/// digits, within the range of `i32`.
#[verifier::external_body]
fn parse_i32(s: &str) -> (r: Option<i32>)
    ensures
        r == i32_parsed(s@),
{
    s.parse::<i32>().ok()
}

/// The decimal digits of `n`, most significant first.
pub open spec fn digits(n: nat) -> Seq<char>
    decreases n,
{
    if n < 10 {
        seq!["0123456789"@[n as int]]
    } else {
        digits(n / 10).push("0123456789"@[(n % 10) as int])
    }
}

/// `n` in decimal, with a minus sign when negative.
pub open spec fn decimal(n: int) -> Seq<char> {
    if n < 0 {
        seq!['-'] + digits((-n) as nat)
    } else {
        digits(n as nat)
    }
}

/// Appends the decimal digits of `m`.
fn push_digits(s: &mut String, m: u32)
    ensures
        final(s)@ == old(s)@ + digits(m as nat),
    decreases m,
{
    let ghost start = s@;
    if m >= 10 {
        push_digits(s, m / 10);
    }
    let d = (m % 10) as usize;
    proof {
        reveal_strlit("0123456789");
    }
    let digit = "0123456789".substring_char(d, d + 1);
    s.append(digit);
    if m >= 10 {
        assert(s@ =~= start + digits(m as nat));
    } else {
        assert(s@ =~= start + digits(m as nat));
    }
}

/// `n` in decimal.
fn int_text(n: i32) -> (r: String)
    ensures
        r@ == decimal(n as int),
{
    let mut s = String::new();
    if n < 0 {
        proof {
            reveal_strlit("-");
        }
        s.append("-");
        let m = (-(n as i64)) as u32;
        push_digits(&mut s, m);
        assert(s@ =~= decimal(n as int));
    } else {
        push_digits(&mut s, n as u32);
        assert(s@ =~= decimal(n as int));
    }
    s
}

/// The port used when none is given.
pub const DEFAULT_PORT: i32 = 8069;

/// The scheme for a port: 443 is the secure one.
pub open spec fn scheme_for(port: i32) -> Seq<char> {
    if port == 443 {
        "https"@
    } else {
        "http"@
    }
}

/// The port part of an address; the standard ports 80 and 443 are left out.
pub open spec fn port_part(port: i32) -> Seq<char> {
    if port == 443 || port == 80 {
        Seq::empty()
    } else {
        ":"@ + decimal(port as int)
    }
}

/// The address of `host` on `port`, before normalisation.
pub open spec fn address_of(host: Seq<char>, port: i32) -> Seq<char> {
    scheme_for(port) + "://"@ + host + port_part(port)
}

/// The server address that the settings give: `url` when present, else
/// `host` (by default localhost) on `port` (by default 8069).
pub open spec fn settings_address(url: Option<Seq<char>>, host: Option<Seq<char>>, port: Option<Seq<char>>) -> Option<Seq<char>> {
    match url {
        Some(u) => url_parsed(u),
        None => {
            let h = match host {
                Some(h) => h,
                None => "localhost"@,
            };
            let p = match port {
                Some(p) => i32_parsed(p),
                None => Some(DEFAULT_PORT),
            };
            match p {
                Some(n) => url_parsed(address_of(h, n)),
                None => None,
            }
        },
    }
}

/// The text of an optional setting.
pub open spec fn text_of(s: Option<&str>) -> Option<Seq<char>> {
    match s {
        Some(t) => Some(t@),
        None => None,
    }
}

/// The server address from the settings: `url` when present, else `host` on
/// `port`, with the scheme that the port implies. Settings that give no valid
/// address are an invalid address error.
pub fn base_url(url: Option<&str>, host: Option<&str>, port: Option<&str>) -> (r: Result<String, Error>)
    ensures
        match settings_address(text_of(url), text_of(host), text_of(port)) {
            Some(t) => r matches Ok(u) && u@ == t,
            None => r matches Err(Error::InvalidUrl(_)),
        },
{
    match url {
        Some(u) => match normalize_url(u) {
            Some(t) => Ok(t),
            None => Err(Error::InvalidUrl(u.to_owned())),
        },
        None => {
            let h: &str = match host {
                Some(h) => h,
                None => "localhost",
            };
            let n: i32 = match port {
                Some(p) => match parse_i32(p) {
                    Some(n) => n,
                    None => return Err(Error::InvalidUrl(p.to_owned())),
                },
                None => DEFAULT_PORT,
            };
            let mut text = String::new();
            let scheme: &str = if n == 443 {
                "https"
            } else {
                "http"
            };
            text.append(scheme);
            text.append("://");
            text.append(h);
            let ghost prefix = text@;
            if n != 443 && n != 80 {
                text.append(":");
                let d = int_text(n);
                text.append(d.as_str());
                assert(text@ =~= prefix + (":"@ + decimal(n as int)));
            } else {
                assert(text@ =~= prefix + Seq::<char>::empty());
            }
            assert(text@ =~= address_of(h@, n));
            match normalize_url(text.as_str()) {
                Some(t) => Ok(t),
                None => Err(Error::InvalidUrl(text)),
            }
        },
    }
}

} // verus!
