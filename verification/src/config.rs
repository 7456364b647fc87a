use crate::json::{
    chars_to_string, esc_string, parse_string_body, push_quoted, push_str_chars, quoted, skip_ws,
    skip_ws_exec, sp_string_body, str_to_chars, lemma_parse_escaped,
};
use vstd::prelude::*;

verus! {

/// The one error the configuration store reports: the file could not
/// be written. Read failures are deliberately treated as "no data".
#[derive(Clone, Copy, Debug, PartialEq, Eq, Structural)]
pub enum ConfigError {
    FileWrite,
}

/// The shape of the data contained in the config file.
#[derive(Clone, Debug, Eq, PartialEq)]
pub struct ConfigData {
    /// The bearer token that authenticates API requests.
    pub token: String,
}

/// The exact text of a config file holding `token`: a pretty-printed
/// JSON object with the one field.
pub open spec fn spec_config_text(token: Seq<char>) -> Seq<char> {
    seq!['{', '\n', ' ', ' ', '"', 't', 'o', 'k', 'e', 'n', '"', ':', ' '] + quoted(token) + seq![
        '\n',
        '}',
    ]
}

/// What a config file's text denotes: the token, if the text is a JSON
/// object whose single field is a string named `token`; nothing
/// otherwise.
pub open spec fn spec_read_config(s: Seq<char>) -> Option<Seq<char>> {
    let i0 = skip_ws(s, 0);
    if i0 < s.len() && s[i0 as int] == '{' {
        let i1 = skip_ws(s, i0 + 1);
        if i1 < s.len() && s[i1 as int] == '"' {
            match sp_string_body(s, i1 + 1) {
                None => None,
                Some((key, j)) => {
                    if key == seq!['t', 'o', 'k', 'e', 'n'] {
                        let j2 = skip_ws(s, j);
                        if j2 < s.len() && s[j2 as int] == ':' {
                            let j3 = skip_ws(s, j2 + 1);
                            if j3 < s.len() && s[j3 as int] == '"' {
                                match sp_string_body(s, j3 + 1) {
                                    None => None,
                                    Some((tok, j4)) => {
                                        let j5 = skip_ws(s, j4);
                                        if j5 < s.len() && s[j5 as int] == '}' && skip_ws(s, j5 + 1)
                                            == s.len() {
                                            Some(tok)
                                        } else {
                                            None
                                        }
                                    },
                                }
                            } else {
                                None
                            }
                        } else {
                            None
                        }
                    } else {
                        None
                    }
                },
            }
        } else {
            None
        }
    } else {
        None
    }
}

/// The text to store for `config_data`, to be written to the config
/// file at the default path.
pub fn write_default_config_file(config_data: &ConfigData) -> (text: String)
    ensures
        text@ == spec_config_text(config_data.token@),
{
    let mut out: Vec<char> = Vec::new();
    push_str_chars(&mut out, "{\n  \"token\": ");
    push_quoted(&mut out, config_data.token.as_str());
    push_str_chars(&mut out, "\n}");
    proof {
        reveal_strlit("{\n  \"token\": ");
        reveal_strlit("\n}");
        assert(out@ =~= spec_config_text(config_data.token@));
    }
    chars_to_string(&out)
}

/// The configuration read from the default config file, given the text
/// found there, or `None` where the file was absent or unreadable.
/// Any text that is not a well-formed config object also gives `None`.
pub fn read_default_config_file(file_text: Option<&str>) -> (r: Option<ConfigData>)
    ensures
        match file_text {
            None => r is None,
            Some(text) => match r {
                None => spec_read_config(text@) is None,
                Some(c) => spec_read_config(text@) == Some(c.token@),
            },
        },
{
    let text = match file_text {
        None => {
            return None;
        },
        Some(t) => t,
    };
    let s = str_to_chars(text);
    let i0 = skip_ws_exec(&s, 0);
    if !(i0 < s.len() && s[i0] == '{') {
        return None;
    }
    let i1 = skip_ws_exec(&s, i0 + 1);
    if !(i1 < s.len() && s[i1] == '"') {
        return None;
    }
    let (key, j) = match parse_string_body(&s, i1 + 1) {
        None => {
            return None;
        },
        Some(kj) => kj,
    };
    if !(key.len() == 5 && key[0] == 't' && key[1] == 'o' && key[2] == 'k' && key[3] == 'e'
        && key[4] == 'n') {
        proof {
            assert(key@ != seq!['t', 'o', 'k', 'e', 'n']);
        }
        return None;
    }
    proof {
        assert(key@ =~= seq!['t', 'o', 'k', 'e', 'n']);
    }
    let j2 = skip_ws_exec(&s, j);
    if !(j2 < s.len() && s[j2] == ':') {
        return None;
    }
    let j3 = skip_ws_exec(&s, j2 + 1);
    if !(j3 < s.len() && s[j3] == '"') {
        return None;
    }
    let (tok, j4) = match parse_string_body(&s, j3 + 1) {
        None => {
            return None;
        },
        Some(tj) => tj,
    };
    let j5 = skip_ws_exec(&s, j4);
    if !(j5 < s.len() && s[j5] == '}') {
        return None;
    }
    if skip_ws_exec(&s, j5 + 1) != s.len() {
        return None;
    }
    Some(ConfigData { token: chars_to_string(&tok) })
}

/// Writing a configuration and reading the text back yields the same
/// token, whatever characters it holds.
pub proof fn lemma_config_round_trip(token: Seq<char>)
    ensures
        spec_read_config(spec_config_text(token)) == Some(token),
{
    let skel: Seq<char> = seq!['{', '\n', ' ', ' ', '"', 't', 'o', 'k', 'e', 'n', '"', ':', ' '];
    let et = esc_string(token);
    let s = spec_config_text(token);
    assert(s.len() == 17 + et.len());

    // The key, seen as a written string literal.
    let kt: Seq<char> = seq!['t', 'o', 'k', 'e', 'n'];
    assert(esc_string(kt) =~= kt) by {
        reveal_with_fuel(esc_string, 7);
        assert(kt.drop_first() =~= seq!['o', 'k', 'e', 'n']);
        assert(seq!['o', 'k', 'e', 'n'].drop_first() =~= seq!['k', 'e', 'n']);
        assert(seq!['k', 'e', 'n'].drop_first() =~= seq!['e', 'n']);
        assert(seq!['e', 'n'].drop_first() =~= seq!['n']);
        assert(seq!['n'].drop_first() =~= Seq::<char>::empty());
    }
    let pre1: Seq<char> = seq!['{', '\n', ' ', ' ', '"'];
    let suf1: Seq<char> = seq![':', ' '] + quoted(token) + seq!['\n', '}'];
    assert(pre1 + esc_string(kt) + seq!['"'] + suf1 =~= s);
    lemma_parse_escaped(pre1, kt, suf1);
    assert(sp_string_body(s, 5) == Some((kt, 11nat)));

    // The token, seen as a written string literal.
    let pre2: Seq<char> = skel + seq!['"'];
    let suf2: Seq<char> = seq!['\n', '}'];
    assert(pre2 + esc_string(token) + seq!['"'] + suf2 =~= s);
    lemma_parse_escaped(pre2, token, suf2);
    assert(sp_string_body(s, 14) == Some((token, (15 + et.len()) as nat)));

    // Walking the fixed skeleton.
    assert(s[0] == '{' && s[1] == '\n' && s[2] == ' ' && s[3] == ' ' && s[4] == '"');
    assert(s[11] == ':' && s[12] == ' ' && s[13] == '"');
    assert(s[15 + et.len() as int] == '\n');
    assert(s[16 + et.len() as int] == '}');
    reveal_with_fuel(skip_ws, 3);
    assert(skip_ws(s, 0) == 0);
    assert(skip_ws(s, 1) == skip_ws(s, 2));
    assert(skip_ws(s, 2) == skip_ws(s, 3));
    assert(skip_ws(s, 3) == 4);
    assert(skip_ws(s, 11) == 11);
    assert(skip_ws(s, 12) == 13);
    assert(skip_ws(s, (15 + et.len()) as nat) == skip_ws(s, (16 + et.len()) as nat));
    assert(skip_ws(s, (16 + et.len()) as nat) == (16 + et.len()) as nat);
    assert(skip_ws(s, (17 + et.len()) as nat) == s.len());
}

/// Reading the same config text twice gives the same result: the read
/// is a function of the text alone.
pub proof fn lemma_config_read_idempotent(first: Seq<char>, second: Seq<char>)
    requires
        first == second,
    ensures
        spec_read_config(first) == spec_read_config(second),
{
}

} // verus!
