//! Configuration for reaching a Gerrit endpoint: URL parts, credentials,
//! and the root-repository flag.
//!
//! Discovery and parsing of the on-disk configuration file are the
//! caller's business; this module holds the resulting values and derives
//! the base URL from them.

use vstd::prelude::*;

verus! {

/// The decimal digit character for `d` (`0 <= d <= 9`).
pub open spec fn decimal_digit(d: int) -> char {
    if d == 0 {
        '0'
    } else if d == 1 {
        '1'
    } else if d == 2 {
        '2'
    } else if d == 3 {
        '3'
    } else if d == 4 {
        '4'
    } else if d == 5 {
        '5'
    } else if d == 6 {
        '6'
    } else if d == 7 {
        '7'
    } else if d == 8 {
        '8'
    } else {
        '9'
    }
}

/// Decimal representation of a non-negative number, most significant
/// digit first, without sign or padding.
pub open spec fn decimal_of(n: int) -> Seq<char>
    decreases n,
{
    if n < 10 {
        seq![decimal_digit(if n < 0 { 0 } else { n })]
    } else {
        decimal_of(n / 10).push(decimal_digit(n % 10))
    }
}

fn digit_str(d: u16) -> (r: &'static str)
    requires
        d < 10,
    ensures
        r@ == seq![decimal_digit(d as int)],
{
    let s: &'static str = match d {
        0 => "0",
        1 => "1",
        2 => "2",
        3 => "3",
        4 => "4",
        5 => "5",
        6 => "6",
        7 => "7",
        8 => "8",
        _ => "9",
    };
    proof {
        reveal_strlit("0");
        reveal_strlit("1");
        reveal_strlit("2");
        reveal_strlit("3");
        reveal_strlit("4");
        reveal_strlit("5");
        reveal_strlit("6");
        reveal_strlit("7");
        reveal_strlit("8");
        reveal_strlit("9");
        assert(s@ =~= seq![decimal_digit(d as int)]);
    }
    s
}

/// The decimal digits of `n`, most significant first.
fn u16_to_decimal(n: u16) -> (s: String)
    ensures
        s@ == decimal_of(n as int),
    decreases n,
{
    if n < 10 {
        digit_str(n).to_owned()
    } else {
        let mut s = u16_to_decimal(n / 10);
        s.append(digit_str(n % 10));
        proof {
            assert(s@ =~= decimal_of(n as int));
        }
        s
    }
}

/// The textual form of a flag, as `Display` for `bool` prints it.
pub open spec fn bool_text(b: bool) -> Seq<char> {
    if b {
        "true"@
    } else {
        "false"@
    }
}

/// Configuration for one Gerrit endpoint.
pub struct Config {
    /// Scheme such as `http` or `https`.
    pub scheme: String,
    /// Host part, e.g. `localhost`.
    pub base: String,
    /// Port of the HTTP endpoint.
    pub port: u16,
    /// Root URL path under the host, possibly empty.
    pub appendix: String,
    /// Username for login; empty means unauthenticated.
    pub username: String,
    /// Password for login; empty means unauthenticated.
    pub password: String,
    /// Claims the repository as the topmost repository.
    pub root: bool,
}

/// The base URL `scheme://base:port/` with the appendix (and a trailing
/// `/`) attached when one is configured.
pub open spec fn base_url_spec(c: Config) -> Seq<char> {
    c.scheme@ + "://"@ + c.base@ + ":"@ + decimal_of(c.port as int) + "/"@ + (if c.appendix@.len()
        == 0 {
        Seq::<char>::empty()
    } else {
        c.appendix@ + "/"@
    })
}

impl Default for Config {
    /// Empty strings, port 80, and the root flag set.
    fn default() -> (c: Config)
        ensures
            c.scheme@ == Seq::<char>::empty(),
            c.base@ == Seq::<char>::empty(),
            c.port == 80,
            c.appendix@ == Seq::<char>::empty(),
            c.username@ == Seq::<char>::empty(),
            c.password@ == Seq::<char>::empty(),
            c.root == true,
    {
        Config {
            scheme: String::new(),
            base: String::new(),
            port: 80,
            appendix: String::new(),
            username: String::new(),
            password: String::new(),
            root: true,
        }
    }
}

impl Config {
    /// A configuration is functional only when both `scheme` and `base`
    /// are set.
    pub fn is_valid(&self) -> (r: bool)
        ensures
            r == (self.scheme@.len() > 0 && self.base@.len() > 0),
    {
        if self.scheme.as_str().is_empty() || self.base.as_str().is_empty() {
            return false;
        }
        true
    }

    pub fn get_username(&self) -> (r: &str)
        ensures
            r@ == self.username@,
    {
        self.username.as_str()
    }

    pub fn get_password(&self) -> (r: &str)
        ensures
            r@ == self.password@,
    {
        self.password.as_str()
    }

    /// The endpoint base URL derived from the parts.
    pub fn get_base_url(&self) -> (r: String)
        ensures
            r@ == base_url_spec(*self),
    {
        let mut s = self.scheme.clone();
        s.append("://");
        s.append(self.base.as_str());
        s.append(":");
        let port = u16_to_decimal(self.port);
        s.append(port.as_str());
        s.append("/");
        if !self.appendix.as_str().is_empty() {
            s.append(self.appendix.as_str());
            s.append("/");
        }
        proof {
            assert(s@ =~= base_url_spec(*self));
        }
        s
    }

    /// The multi-line listing of this configuration, as the `config list`
    /// command prints it.
    pub fn display_text(&self) -> (r: String)
        ensures
            r@ == "* url ......... : "@ + base_url_spec(*self) + "\n  user/pass ... : "@
                + self.username@ + " / \""@ + self.password@ + "\"\n  root ........ : "@
                + bool_text(self.root),
    {
        let mut s = String::from_str("* url ......... : ");
        let url = self.get_base_url();
        s.append(url.as_str());
        s.append("\n  user/pass ... : ");
        s.append(self.username.as_str());
        s.append(" / \"");
        s.append(self.password.as_str());
        s.append("\"\n  root ........ : ");
        if self.root {
            s.append("true");
        } else {
            s.append("false");
        }
        proof {
            assert(s@ =~= "* url ......... : "@ + base_url_spec(*self)
                + "\n  user/pass ... : "@ + self.username@ + " / \""@ + self.password@
                + "\"\n  root ........ : "@ + bool_text(self.root));
        }
        s
    }
}

} // verus!
