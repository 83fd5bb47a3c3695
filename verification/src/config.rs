//! Repository configuration: a section -> key -> value string mapping held in
//! an INI structure from the `configparser` crate. The store only interprets
//! one key, `core.repositoryformatversion`, which must be the integer 0.

use vstd::prelude::*;
use configparser::ini::Ini;

verus! {

#[verifier::external_type_specification]
#[verifier::external_body]
pub struct ExIni(Ini);

/// The section -> key -> value mapping that an `Ini` holds.
pub uninterp spec fn ini_contents(c: Ini) -> Map<Seq<char>, Map<Seq<char>, Option<Seq<char>>>>;

/// Whether an `Ini` was built with `configparser`'s default settings
/// (case-insensitive keys, no cascading defaults); every `Ini` this library
/// constructs is of this shape, and the wrapper contracts below assume it.
pub uninterp spec fn ini_plain(c: Ini) -> bool;

/// The result of parsing INI text with `configparser`'s default settings:
/// either the parsed mapping or a parse-error message.
pub uninterp spec fn ini_parse_of(text: Seq<char>) -> Result<
    Map<Seq<char>, Map<Seq<char>, Option<Seq<char>>>>,
    Seq<char>,
>;

/// All characters are ASCII and none is an uppercase letter, so
/// `configparser`'s case folding leaves the string unchanged.
pub open spec fn lower_ascii_chars(s: Seq<char>) -> bool {
    forall|i: int| 0 <= i < s.len() ==> '\0' <= #[trigger] s[i] <= '\u{7f}' && !('A' <= s[i] <= 'Z')
}

/// `m` with `value` stored under `section.key`.
pub open spec fn ini_insert(
    m: Map<Seq<char>, Map<Seq<char>, Option<Seq<char>>>>,
    section: Seq<char>,
    key: Seq<char>,
    value: Seq<char>,
) -> Map<Seq<char>, Map<Seq<char>, Option<Seq<char>>>> {
    let secmap = if m.dom().contains(section) {
        m[section]
    } else {
        Map::<Seq<char>, Option<Seq<char>>>::empty()
    };
    m.insert(section, secmap.insert(key, Some(value)))
}

/// How Rust's `i64::from_str` reads a string: an optional sign followed by
/// one or more decimal digits, rejecting anything else and values out of
/// range.
pub open spec fn chars_are_digits(s: Seq<char>) -> bool {
    s.len() > 0 && forall|i: int| 0 <= i < s.len() ==> '0' <= #[trigger] s[i] <= '9'
}

pub open spec fn chars_dec_value(s: Seq<char>) -> int
    decreases s.len(),
{
    if s.len() == 0 {
        0
    } else {
        chars_dec_value(s.drop_last()) * 10 + (s.last() as u32 - 48)
    }
}

pub open spec fn spec_parse_i64(s: Seq<char>) -> Option<i64> {
    let (negative, digits) = if s.len() > 0 && (s[0] == '+' || s[0] == '-') {
        (s[0] == '-', s.skip(1))
    } else {
        (false, s)
    };
    if chars_are_digits(digits) {
        let v = if negative {
            -chars_dec_value(digits)
        } else {
            chars_dec_value(digits)
        };
        if i64::MIN <= v <= i64::MAX {
            Some(v as i64)
        } else {
            None
        }
    } else {
        None
    }
}

/// How `configparser`'s `getint` reads `section.key` out of the mapping:
/// absent section, key or value give `Ok(None)`; a value that is not an
/// integer gives an error.
pub open spec fn spec_getint(
    m: Map<Seq<char>, Map<Seq<char>, Option<Seq<char>>>>,
    section: Seq<char>,
    key: Seq<char>,
) -> Result<Option<i64>, ()> {
    if m.dom().contains(section) && m[section].dom().contains(key) {
        match m[section][key] {
            Some(v) => match spec_parse_i64(v) {
                Some(n) => Ok(Some(n)),
                None => Err(()),
            },
            None => Ok(None),
        }
    } else {
        Ok(None)
    }
}

/// A configuration mapping with no sections at all.
pub open spec fn empty_ini_contents() -> Map<Seq<char>, Map<Seq<char>, Option<Seq<char>>>> {
    Map::empty()
}

/// Relies on `configparser`'s `Ini::new`: a configuration with default
/// settings and no sections.
#[verifier::external_body]
pub(crate) fn ini_new() -> (c: Ini)
    ensures
        ini_plain(c),
        ini_contents(c) == empty_ini_contents(),
{
    Ini::new()
}

/// Relies on `configparser`'s `Ini::set`: stores `Some(value)` under the
/// given section and key. The section and key are passed already lowercase,
/// so its case folding returns them unchanged.
#[verifier::external_body]
pub(crate) fn ini_set(c: &mut Ini, section: &str, key: &str, value: &str)
    requires
        ini_plain(*old(c)),
        lower_ascii_chars(section@),
        lower_ascii_chars(key@),
    ensures
        ini_plain(*final(c)),
        ini_contents(*final(c)) == ini_insert(ini_contents(*old(c)), section@, key@, value@),
{
    c.set(section, key, Some(value.to_string()));
}

/// Relies on `configparser`'s `Ini::read`: parses the text and replaces the
/// stored mapping with the result; when parsing fails the structure is left
/// untouched.
#[verifier::external_body]
pub(crate) fn ini_read(c: &mut Ini, text: &str) -> (r: Result<(), String>)
    requires
        ini_plain(*old(c)),
    ensures
        ini_plain(*final(c)),
        r is Ok <==> ini_parse_of(text@) is Ok,
        r is Ok ==> ini_contents(*final(c)) == ini_parse_of(text@)->Ok_0,
        r is Err ==> *final(c) == *old(c) && r->Err_0@ == ini_parse_of(text@)->Err_0,
{
    match c.read(text.to_string()) {
        Ok(_) => Ok(()),
        Err(e) => Err(e),
    }
}

/// Whether the runtime result `r` agrees with the specified lookup
/// outcome `s` (whose error message is left open).
pub open spec fn getint_result_matches(r: Result<Option<i64>, String>, s: Result<
    Option<i64>,
    (),
>) -> bool {
    match s {
        Ok(o) => r == Ok::<Option<i64>, String>(o),
        Err(()) => r is Err,
    }
}

/// Relies on `configparser`'s `Ini::getint`: looks the key up (section and
/// key passed already lowercase) and parses the stored value as an `i64`.
#[verifier::external_body]
pub(crate) fn ini_getint(c: &Ini, section: &str, key: &str) -> (r: Result<Option<i64>, String>)
    requires
        ini_plain(*c),
        lower_ascii_chars(section@),
        lower_ascii_chars(key@),
    ensures
        getint_result_matches(r, spec_getint(ini_contents(*c), section@, key@)),
{
    c.getint(section, key)
}

/// The parsed `core.repositoryformatversion` entry of a configuration:
/// `Ok(None)` when the key is absent, an error when it is not an integer.
pub fn repository_format_version(c: &Ini) -> (r: Result<Option<i64>, String>)
    requires
        ini_plain(*c),
    ensures
        getint_result_matches(r, spec_getint(ini_contents(*c), "core"@, "repositoryformatversion"@)),
{
    proof {
        reveal_strlit("core");
        reveal_strlit("repositoryformatversion");
    }
    ini_getint(c, "core", "repositoryformatversion")
}

/// The mapping a freshly initialized repository is configured with.
pub open spec fn default_config_contents() -> Map<Seq<char>, Map<Seq<char>, Option<Seq<char>>>> {
    ini_insert(
        ini_insert(
            ini_insert(
                Map::<Seq<char>, Map<Seq<char>, Option<Seq<char>>>>::empty(),
                "core"@,
                "repositoryformatversion"@,
                "0"@,
            ),
            "core"@,
            "filemode"@,
            "false"@,
        ),
        "core"@,
        "bare"@,
        "false"@,
    )
}

/// The configuration written by an init operation: format version 0, no file
/// modes, not bare.
pub fn default_config() -> (c: Ini)
    ensures
        ini_plain(c),
        ini_contents(c) == default_config_contents(),
{
    proof {
        reveal_strlit("core");
        reveal_strlit("repositoryformatversion");
        reveal_strlit("filemode");
        reveal_strlit("bare");
    }
    let mut config = ini_new();
    ini_set(&mut config, "core", "repositoryformatversion", "0");
    ini_set(&mut config, "core", "filemode", "false");
    ini_set(&mut config, "core", "bare", "false");
    config
}

/// The default configuration passes the version check: its
/// `core.repositoryformatversion` entry reads back as the integer 0.
pub proof fn lemma_default_config_version()
    ensures
        spec_getint(default_config_contents(), "core"@, "repositoryformatversion"@) == Ok::<
            Option<i64>,
            (),
        >(Some(0i64)),
{
    reveal_strlit("core");
    reveal_strlit("repositoryformatversion");
    reveal_strlit("filemode");
    reveal_strlit("bare");
    reveal_strlit("0");
    assert("repositoryformatversion"@.len() != "filemode"@.len());
    assert("repositoryformatversion"@.len() != "bare"@.len());
    let m = default_config_contents();
    assert(m.dom().contains("core"@));
    assert(m["core"@].dom().contains("repositoryformatversion"@));
    assert(m["core"@]["repositoryformatversion"@] == Some("0"@));
    let z = "0"@;
    assert(z.len() == 1 && z[0] == '0');
    assert(chars_are_digits(z));
    assert(z.drop_last() =~= Seq::<char>::empty());
    assert(chars_dec_value(Seq::<char>::empty()) == 0);
    assert(chars_dec_value(z) == 0);
    assert(spec_parse_i64(z) == Some(0i64));
}

} // verus!
