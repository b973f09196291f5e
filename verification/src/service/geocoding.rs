use vstd::prelude::*;

use crate::text::{
    ascii_lower_chars, ascii_lower_seq, chars_of, owned, push_range, string_of, trim, trim_chars,
};

verus! {

/// The Nominatim instance used when none is configured.
pub const DEFAULT_BASE_URL: &'static str = "https://nominatim.openstreetmap.org";

/// The user agent sent to Nominatim when none is configured.
pub const DEFAULT_USER_AGENT: &'static str = "Repeater Atlas";

/// The geocoder used when geocoding is off: it finds nothing.
#[derive(Debug, Copy, Clone)]
pub struct NullGeocoder;

/// How the setting that turns geocoding on or off reads.
#[derive(Debug, Copy, Clone, PartialEq, Eq, Structural)]
pub enum EnabledSetting {
    /// Not set, or set to `1`, `true`, `yes` or `on`.
    Enabled,
    /// Set to `0`, `false`, `no` or `off`.
    Disabled,
    /// Set to anything else; geocoding is then off.
    Invalid,
}

impl EnabledSetting {
    /// Whether geocoding is on.
    pub fn is_enabled(&self) -> (r: bool)
        ensures
            r == (*self == EnabledSetting::Enabled),
    {
        match self {
            EnabledSetting::Enabled => true,
            _ => false,
        }
    }
}

/// Whether `s` is one of the words that turn a setting on.
pub open spec fn is_on_word(s: Seq<char>) -> bool {
    s == "1"@ || s == "true"@ || s == "yes"@ || s == "on"@
}

/// Whether `s` is one of the words that turn a setting off.
pub open spec fn is_off_word(s: Seq<char>) -> bool {
    s == "0"@ || s == "false"@ || s == "no"@ || s == "off"@
}

/// Whether `s` is one of the texts in `words`.
fn one_of(s: &str, words: &Vec<&str>) -> (r: bool)
    ensures
        r == exists|i: int| 0 <= i < words.len() && words@[i]@ == s@,
{
    let mut i: usize = 0;
    while i < words.len()
        invariant
            i <= words.len(),
            forall|j: int| 0 <= j < i ==> words@[j]@ != s@,
        decreases words.len() - i,
    {
        if crate::text::str_eq(words[i], s) {
            return true;
        }
        i = i + 1;
    }
    false
}

/// Reads the setting that turns geocoding on or off, compared trimmed and
/// in ASCII lower case; not set means on.
pub fn parse_enabled_setting(value: Option<String>) -> (r: EnabledSetting)
    ensures
        match value {
            None => r == EnabledSetting::Enabled,
            Some(v) => {
                let w = ascii_lower_seq(trim(v@));
                r == if is_on_word(w) {
                    EnabledSetting::Enabled
                } else if is_off_word(w) {
                    EnabledSetting::Disabled
                } else {
                    EnabledSetting::Invalid
                }
            },
        },
{
    match value {
        None => EnabledSetting::Enabled,
        Some(v) => {
            let w = string_of(&ascii_lower_chars(&trim_chars(&chars_of(v.as_str()))));
            let on = vec!["1", "true", "yes", "on"];
            let off = vec!["0", "false", "no", "off"];
            proof {
                reveal_strlit("1");
                reveal_strlit("true");
                reveal_strlit("yes");
                reveal_strlit("on");
                reveal_strlit("0");
                reveal_strlit("false");
                reveal_strlit("no");
                reveal_strlit("off");
            }
            let is_on = one_of(w.as_str(), &on);
            let is_off = one_of(w.as_str(), &off);
            proof {
                if is_on_word(w@) {
                    if w@ == "1"@ {
                        assert(on@[0]@ == w@);
                    } else if w@ == "true"@ {
                        assert(on@[1]@ == w@);
                    } else if w@ == "yes"@ {
                        assert(on@[2]@ == w@);
                    } else {
                        assert(on@[3]@ == w@);
                    }
                }
                if is_off_word(w@) {
                    if w@ == "0"@ {
                        assert(off@[0]@ == w@);
                    } else if w@ == "false"@ {
                        assert(off@[1]@ == w@);
                    } else if w@ == "no"@ {
                        assert(off@[2]@ == w@);
                    } else {
                        assert(off@[3]@ == w@);
                    }
                }
            }
            if is_on {
                EnabledSetting::Enabled
            } else if is_off {
                EnabledSetting::Disabled
            } else {
                EnabledSetting::Invalid
            }
        },
    }
}

/// `s` without trailing `c` characters (`str::trim_end_matches` with a
/// character).
pub open spec fn trim_end_char(s: Seq<char>, c: char) -> Seq<char>
    decreases s.len(),
{
    if s.len() > 0 && s.last() == c {
        trim_end_char(s.drop_last(), c)
    } else {
        s
    }
}

/// Trailing `c` characters are all removed: what is left does not end in
/// `c`, and removing them again changes nothing.
pub proof fn lemma_trim_end_char_settles(s: Seq<char>, c: char)
    ensures
        trim_end_char(s, c).len() > 0 ==> trim_end_char(s, c).last() != c,
        trim_end_char(trim_end_char(s, c), c) == trim_end_char(s, c),
    decreases s.len(),
{
    if s.len() > 0 && s.last() == c {
        lemma_trim_end_char_settles(s.drop_last(), c);
    }
}

/// The base URL of the Nominatim instance: the configured one, else the
/// public instance, without trailing slashes.
pub fn base_url(value: Option<String>) -> (r: String)
    ensures
        r@ == trim_end_char(
            match value {
                Some(v) => v@,
                None => DEFAULT_BASE_URL@,
            },
            '/',
        ),
{
    let v = match value {
        Some(v) => chars_of(v.as_str()),
        None => chars_of(DEFAULT_BASE_URL),
    };
    let mut j: usize = v.len();
    proof {
        assert(v@.subrange(0, j as int) =~= v@);
    }
    while j > 0 && v[j - 1] == '/'
        invariant
            j <= v.len(),
            trim_end_char(v@, '/') == trim_end_char(v@.subrange(0, j as int), '/'),
        decreases j,
    {
        proof {
            assert(v@.subrange(0, j as int).drop_last() =~= v@.subrange(0, j - 1));
        }
        j = j - 1;
    }
    let mut r: Vec<char> = Vec::new();
    push_range(&mut r, &v, 0, j);
    proof {
        let u = v@.subrange(0, j as int);
        if j > 0 {
            assert(u.last() == v@[j - 1]);
        }
        assert(r@ =~= u);
    }
    string_of(&r)
}

/// The user agent sent to Nominatim: the configured one, else the default.
pub fn user_agent(value: Option<String>) -> (r: String)
    ensures
        r@ == match value {
            Some(v) => v@,
            None => DEFAULT_USER_AGENT@,
        },
{
    match value {
        Some(v) => v,
        None => owned(DEFAULT_USER_AGENT),
    }
}

/// The search endpoint under a base URL.
pub fn search_url(base_url: &str) -> (r: String)
    ensures
        r@ == base_url@ + "/search"@,
{
    crate::text::concat(base_url, "/search")
}

/// The text a geocoding query is looked up by: the query trimmed; none when
/// nothing is left.
pub fn geocode_query(query: &str) -> (r: Option<String>)
    ensures
        trim(query@).len() == 0 ==> r is None,
        trim(query@).len() > 0 ==> (r matches Some(q) && q@ == trim(query@)),
{
    let q = crate::text::trim_str(query);
    if q.unicode_len() == 0 {
        None
    } else {
        Some(q)
    }
}

} // verus!
