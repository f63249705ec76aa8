//! The configuration snapshot the poller runs on.
//!
//! A `Config` is loaded once at startup, is read-only afterwards, and is
//! duplicated for every cycle so that concurrently running providers never
//! share mutable state. Presence of a provider's credentials is the sole
//! switch that enables the provider.

use vstd::prelude::*;

verus! {

/// A geocoded street address, consumed read-only to build upstream requests.
///
/// The latitude and longitude are kept as their decimal text, exactly as
/// they are spliced into a request body; `wf()` says each text is one
/// JSON number, which keeps spliced request bodies well formed.
#[derive(Debug)]
pub struct Address {
    pub city: String,
    pub latitude: String,
    pub longitude: String,
    pub state: String,
    pub street2: Option<String>,
    pub street: String,
    pub zipcode: u32,
    pub zipcode_ext: Option<u32>,
}

/// The first index at or after `i` past decimal digits.
pub open spec fn spec_digit_run_end(t: Seq<char>, i: int) -> int
    decreases t.len() - i,
        when 0 <= i <= t.len()
{
    if i < t.len() && '0' <= t[i] && t[i] <= '9' {
        spec_digit_run_end(t, i + 1)
    } else {
        i
    }
}

/// The text is one JSON number: an optional minus sign, an integer part
/// without leading zeros, an optional fraction and an optional exponent.
pub open spec fn is_number_text(t: Seq<char>) -> bool {
    let s = if t.len() > 0 && t[0] == '-' {
        1int
    } else {
        0int
    };
    let d1 = spec_digit_run_end(t, s);
    let has_frac = d1 < t.len() && t[d1] == '.';
    let f = if has_frac {
        spec_digit_run_end(t, d1 + 1)
    } else {
        d1
    };
    let has_exp = f < t.len() && (t[f] == 'e' || t[f] == 'E');
    let e_start = if has_exp {
        if f + 1 < t.len() && (t[f + 1] == '+' || t[f + 1] == '-') {
            f + 2
        } else {
            f + 1
        }
    } else {
        f
    };
    let e = if has_exp {
        spec_digit_run_end(t, e_start)
    } else {
        f
    };
    &&& d1 > s
    &&& (t[s] == '0' ==> d1 == s + 1)
    &&& (has_frac ==> f > d1 + 1)
    &&& (has_exp ==> e > e_start)
    &&& e == t.len()
}

impl Address {
    /// Both coordinates carry the text of one JSON number.
    pub open spec fn wf(&self) -> bool {
        is_number_text(self.latitude@) && is_number_text(self.longitude@)
    }
}

/// Credentials of the CVS-style pharmacy provider.
#[derive(Debug)]
pub struct CvsPharmacy {
    pub email: String,
    pub password: String,
}

/// Credentials of the push-notification transport.
#[derive(Debug)]
pub struct Pushover {
    pub app_token: String,
    pub device: Option<String>,
    pub user_token: String,
}

/// Credentials of the Walgreens-style pharmacy provider.
#[derive(Debug)]
pub struct Walgreens {
    pub email: String,
    pub password: String,
}

/// Why a configuration could not be loaded. Fatal at startup.
#[derive(Debug)]
pub enum ConfigError {
    FileSystemError(String),
    InvalidToml(String),
    MissingConfig,
}

/// The immutable settings snapshot for one process run.
#[derive(Debug)]
pub struct Config {
    pub address: Address,
    pub cvs: Option<CvsPharmacy>,
    pub debug: bool,
    pub name: String,
    pub pushover: Option<Pushover>,
    pub walgreens: Option<Walgreens>,
}

fn clone_opt_string(o: &Option<String>) -> (r: Option<String>)
    ensures
        r == *o,
{
    match o {
        Some(s) => Some(s.clone()),
        None => None,
    }
}

impl Address {
    /// A deep copy, equal to the original and owned independently of it.
    pub fn duplicate(&self) -> (a: Address)
        ensures
            a == *self,
    {
        Address {
            city: self.city.clone(),
            latitude: self.latitude.clone(),
            longitude: self.longitude.clone(),
            state: self.state.clone(),
            street2: clone_opt_string(&self.street2),
            street: self.street.clone(),
            zipcode: self.zipcode,
            zipcode_ext: self.zipcode_ext,
        }
    }

    /// Whether both coordinates hold the text of one JSON number.
    pub fn is_wf(&self) -> (r: bool)
        ensures
            r == self.wf(),
    {
        is_number_string(&self.latitude) && is_number_string(&self.longitude)
    }
}

/// First index at or after `i` past decimal digits.
fn digit_run_end(t: &str, i: usize, n: usize) -> (r: usize)
    requires
        i <= n,
        n == t@.len(),
    ensures
        r as int == spec_digit_run_end(t@, i as int),
        i <= r <= n,
{
    let mut j = i;
    loop
        invariant
            i <= j <= n,
            n == t@.len(),
            spec_digit_run_end(t@, i as int) == spec_digit_run_end(t@, j as int),
        decreases n - j,
    {
        if j >= n {
            return j;
        }
        let c = t.get_char(j);
        if !('0' <= c && c <= '9') {
            return j;
        }
        j = j + 1;
    }
}

/// Whether the string holds the text of one JSON number.
fn is_number_string(s: &String) -> (r: bool)
    ensures
        r == is_number_text(s@),
{
    let t = s.as_str();
    let n = t.unicode_len();
    let start: usize = if n > 0 && t.get_char(0) == '-' {
        1
    } else {
        0
    };
    let d1 = digit_run_end(t, start, n);
    if d1 <= start {
        return false;
    }
    if t.get_char(start) == '0' && d1 != start + 1 {
        return false;
    }
    let has_frac = d1 < n && t.get_char(d1) == '.';
    let f = if has_frac {
        digit_run_end(t, d1 + 1, n)
    } else {
        d1
    };
    if has_frac && f <= d1 + 1 {
        return false;
    }
    let has_exp = f < n && (t.get_char(f) == 'e' || t.get_char(f) == 'E');
    if has_exp {
        let e_start = if f + 1 < n && (t.get_char(f + 1) == '+' || t.get_char(f + 1) == '-') {
            f + 2
        } else {
            f + 1
        };
        let e = digit_run_end(t, e_start, n);
        if e <= e_start {
            return false;
        }
        e == n
    } else {
        f == n
    }
}

impl CvsPharmacy {
    /// A deep copy, equal to the original and owned independently of it.
    pub fn duplicate(&self) -> (c: CvsPharmacy)
        ensures
            c == *self,
    {
        CvsPharmacy { email: self.email.clone(), password: self.password.clone() }
    }
}

impl Pushover {
    /// A deep copy, equal to the original and owned independently of it.
    pub fn duplicate(&self) -> (p: Pushover)
        ensures
            p == *self,
    {
        Pushover {
            app_token: self.app_token.clone(),
            device: clone_opt_string(&self.device),
            user_token: self.user_token.clone(),
        }
    }
}

impl Walgreens {
    /// A deep copy, equal to the original and owned independently of it.
    pub fn duplicate(&self) -> (w: Walgreens)
        ensures
            w == *self,
    {
        Walgreens { email: self.email.clone(), password: self.password.clone() }
    }
}

impl Config {
    /// A deep copy of the whole snapshot. Each cycle hands every provider
    /// task its own duplicate, so no two tasks ever touch the same memory.
    pub fn duplicate(&self) -> (c: Config)
        ensures
            c == *self,
    {
        Config {
            address: self.address.duplicate(),
            cvs: match &self.cvs {
                Some(v) => Some(v.duplicate()),
                None => None,
            },
            debug: self.debug,
            name: self.name.clone(),
            pushover: match &self.pushover {
                Some(v) => Some(v.duplicate()),
                None => None,
            },
            walgreens: match &self.walgreens {
                Some(v) => Some(v.duplicate()),
                None => None,
            },
        }
    }
}

} // verus!
