//! The fixed allow-list of serialization formats and the case-insensitive
//! resolution of a format name against it.

use vstd::prelude::*;

verus! {

/// A serialization format this tool can read and write.
#[derive(Clone, Copy, Debug, PartialEq, Eq, Structural)]
pub enum Format {
    Json,
    Toml,
    Yaml,
}

/// ASCII-lowercase a single character: `'A'..='Z'` fold to `'a'..='z'`,
/// every other character is unchanged.
pub open spec fn lower_char(c: char) -> char {
    if 'A' <= c && c <= 'Z' {
        (c as u8 + 32) as char
    } else {
        c
    }
}

/// ASCII-lowercase a whole character sequence.
pub open spec fn lower_seq(s: Seq<char>) -> Seq<char> {
    s.map_values(|c: char| lower_char(c))
}

/// The name of each format, as it stands in the allow-list.
pub open spec fn spec_name(f: Format) -> Seq<char> {
    match f {
        Format::Json => seq!['j', 's', 'o', 'n'],
        Format::Toml => seq!['t', 'o', 'm', 'l'],
        Format::Yaml => seq!['y', 'a', 'm', 'l'],
    }
}

/// Case-insensitive resolution of a format name: the name matches a
/// format exactly when its ASCII-lowercased characters are that
/// format's allow-list entry.
pub open spec fn spec_parse_format(s: Seq<char>) -> Option<Format> {
    if lower_seq(s) == spec_name(Format::Json) {
        Some(Format::Json)
    } else if lower_seq(s) == spec_name(Format::Toml) {
        Some(Format::Toml)
    } else if lower_seq(s) == spec_name(Format::Yaml) {
        Some(Format::Yaml)
    } else {
        None
    }
}

/// ASCII-lowercase one character.
fn lower(c: char) -> (r: char)
    ensures
        r == lower_char(c),
{
    if 'A' <= c && c <= 'Z' {
        (c as u8 + 32) as char
    } else {
        c
    }
}

/// Law: format-name resolution is case-insensitive. Two names whose
/// ASCII-lowercased characters agree resolve to the same outcome,
/// whether that is a format of the allow-list or a rejection.
pub proof fn lemma_selection_case_insensitive(s: Seq<char>, t: Seq<char>)
    requires
        lower_seq(s) == lower_seq(t),
    ensures
        spec_parse_format(s) == spec_parse_format(t),
{
}

impl Format {
    /// Resolve a format name, case-insensitively, against the allow-list
    /// `{"json", "toml", "yaml"}`. Any other name yields `None`.
    pub fn parse(name: &str) -> (r: Option<Format>)
        ensures
            r == spec_parse_format(name@),
    {
        let n = name.unicode_len();
        if n != 4 {
            assert(lower_seq(name@).len() == name@.len());
            return None;
        }
        let c0 = lower(name.get_char(0));
        let c1 = lower(name.get_char(1));
        let c2 = lower(name.get_char(2));
        let c3 = lower(name.get_char(3));
        assert(lower_seq(name@) =~= seq![c0, c1, c2, c3]);
        if c0 == 'j' && c1 == 's' && c2 == 'o' && c3 == 'n' {
            Some(Format::Json)
        } else if c0 == 't' && c1 == 'o' && c2 == 'm' && c3 == 'l' {
            Some(Format::Toml)
        } else if c0 == 'y' && c1 == 'a' && c2 == 'm' && c3 == 'l' {
            Some(Format::Yaml)
        } else {
            None
        }
    }

    /// The format's allow-list name.
    pub fn name(&self) -> (r: &'static str)
        ensures
            r@ == spec_name(*self),
    {
        proof {
            reveal_strlit("json");
            reveal_strlit("toml");
            reveal_strlit("yaml");
        }
        match self {
            Format::Json => {
                assert("json"@ =~= spec_name(Format::Json));
                "json"
            },
            Format::Toml => {
                assert("toml"@ =~= spec_name(Format::Toml));
                "toml"
            },
            Format::Yaml => {
                assert("yaml"@ =~= spec_name(Format::Yaml));
                "yaml"
            },
        }
    }
}

} // verus!
