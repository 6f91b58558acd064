//! The configuration model: one JSON descriptor naming the store and
//! its on-disk path.
//!
//! The authoritative shape is a single `database` object,
//! `{"database": {"name": "...", "path": "..."}}`, with the two members
//! in either order and whitespace anywhere between tokens. A legacy
//! list of databases is rejected explicitly, not silently reduced to
//! its first entry. String values are taken literally: they may hold
//! any characters except a quote, a backslash or a control character,
//! so escape sequences are treated as malformed, and everything the
//! loader accepts can stand verbatim inside the JSON the index
//! endpoint later emits.
//!
//! The grammar is written once, as specification functions over the
//! character sequence; the executable parser returns exactly what the
//! specification parser denotes.

use vstd::prelude::*;
use vstd::string::StrSliceExecFns;
use crate::{json_clean, json_clean_char};

verus! {

/// The resolved configuration: the store's external nickname and the
/// filesystem path of the store directory.
#[derive(Debug)]
pub struct StoreConfig {
    pub name: String,
    pub path: String,
}

/// Why a descriptor was refused. The cause is fatal at startup: the
/// process must not begin serving requests.
#[derive(Clone, Copy, Debug, PartialEq, Eq, Structural)]
pub enum ConfigError {
    /// The text is not a single-database descriptor of the supported
    /// shape.
    Malformed,
    /// A list stands where the single `database` object should: the
    /// legacy multi-entry shape is unsupported.
    LegacyList,
}

/// JSON insignificant whitespace.
pub open spec fn is_ws(c: char) -> bool {
    c == ' ' || c == '\t' || c == '\n' || c == '\r'
}

/// The first index at or after `i` holding a non-whitespace character
/// (or the end of the text).
pub open spec fn skip_ws(s: Seq<char>, i: int) -> int
    decreases s.len() - i,
{
    if i < s.len() && is_ws(s[i]) {
        skip_ws(s, i + 1)
    } else {
        i
    }
}

/// The first index at or after `i` holding a character that cannot
/// stand inside a string literal (the closing quote, on well-formed
/// input).
pub open spec fn string_end(s: Seq<char>, i: int) -> int
    decreases s.len() - i,
{
    if i < s.len() && json_clean_char(s[i]) {
        string_end(s, i + 1)
    } else {
        i
    }
}

/// A string literal at `i`: a quote, literal content, a quote. Yields
/// the content and the index past the closing quote.
pub open spec fn sp_string(s: Seq<char>, i: int) -> Option<(Seq<char>, int)> {
    if i < s.len() && s[i] == '"' {
        let e = string_end(s, i + 1);
        if e < s.len() && s[e] == '"' {
            Some((s.subrange(i + 1, e), e + 1))
        } else {
            None
        }
    } else {
        None
    }
}

/// An object member at `i`: a string key, a colon, a string value.
/// Yields key, value and the index past the value.
pub open spec fn sp_member(s: Seq<char>, i: int) -> Option<(Seq<char>, Seq<char>, int)> {
    match sp_string(s, i) {
        None => None,
        Some((k, i1)) => {
            let i2 = skip_ws(s, i1);
            if !(i2 < s.len() && s[i2] == ':') {
                None
            } else {
                let i3 = skip_ws(s, i2 + 1);
                match sp_string(s, i3) {
                    None => None,
                    Some((v, i4)) => Some((k, v, i4)),
                }
            }
        },
    }
}

/// The database object at `i`: exactly the members `name` and `path`,
/// each once, in either order. Yields name, path and the index past
/// the closing brace.
pub open spec fn sp_db(s: Seq<char>, i: int) -> Option<(Seq<char>, Seq<char>, int)> {
    if !(i < s.len() && s[i] == '{') {
        None
    } else {
        let i1 = skip_ws(s, i + 1);
        match sp_member(s, i1) {
            None => None,
            Some((k1, v1, i2)) => {
                let i3 = skip_ws(s, i2);
                if !(i3 < s.len() && s[i3] == ',') {
                    None
                } else {
                    let i4 = skip_ws(s, i3 + 1);
                    match sp_member(s, i4) {
                        None => None,
                        Some((k2, v2, i5)) => {
                            let i6 = skip_ws(s, i5);
                            if !(i6 < s.len() && s[i6] == '}') {
                                None
                            } else if k1 == "name"@ && k2 == "path"@ {
                                Some((v1, v2, i6 + 1))
                            } else if k1 == "path"@ && k2 == "name"@ {
                                Some((v2, v1, i6 + 1))
                            } else {
                                None
                            }
                        },
                    }
                }
            },
        }
    }
}

/// The whole descriptor: one object whose only member is `database`,
/// holding the database object, with nothing but whitespace after it.
/// A list in place of the database object is the legacy shape and is
/// refused as such.
pub open spec fn sp_config(s: Seq<char>) -> Result<(Seq<char>, Seq<char>), ConfigError> {
    let i0 = skip_ws(s, 0);
    if !(i0 < s.len() && s[i0] == '{') {
        Err(ConfigError::Malformed)
    } else {
        let i1 = skip_ws(s, i0 + 1);
        match sp_string(s, i1) {
            None => Err(ConfigError::Malformed),
            Some((key, i2)) => {
                if key != "database"@ {
                    Err(ConfigError::Malformed)
                } else {
                    let i3 = skip_ws(s, i2);
                    if !(i3 < s.len() && s[i3] == ':') {
                        Err(ConfigError::Malformed)
                    } else {
                        let i4 = skip_ws(s, i3 + 1);
                        if i4 < s.len() && s[i4] == '[' {
                            Err(ConfigError::LegacyList)
                        } else {
                            match sp_db(s, i4) {
                                None => Err(ConfigError::Malformed),
                                Some((name, path, i5)) => {
                                    let i6 = skip_ws(s, i5);
                                    if !(i6 < s.len() && s[i6] == '}') {
                                        Err(ConfigError::Malformed)
                                    } else {
                                        let i7 = skip_ws(s, i6 + 1);
                                        if i7 == s.len() {
                                            Ok((name, path))
                                        } else {
                                            Err(ConfigError::Malformed)
                                        }
                                    }
                                },
                            }
                        }
                    }
                }
            },
        }
    }
}

/// Skipping whitespace never walks backwards or past the end.
proof fn lemma_skip_ws_bounds(s: Seq<char>, i: int)
    requires
        0 <= i <= s.len(),
    ensures
        i <= skip_ws(s, i) <= s.len(),
    decreases s.len() - i,
{
    if i < s.len() && is_ws(s[i]) {
        lemma_skip_ws_bounds(s, i + 1);
    }
}

/// Everything before the end of string content is a character that may
/// stand inside a string literal.
proof fn lemma_string_end_clean(s: Seq<char>, i: int)
    requires
        0 <= i <= s.len(),
    ensures
        i <= string_end(s, i) <= s.len(),
        forall|j: int| i <= j < string_end(s, i) ==> json_clean_char(s[j]),
    decreases s.len() - i,
{
    if i < s.len() && json_clean_char(s[i]) {
        lemma_string_end_clean(s, i + 1);
    }
}

/// The content of a parsed string literal can stand verbatim inside a
/// JSON string.
proof fn lemma_sp_string_clean(s: Seq<char>, i: int)
    requires
        0 <= i <= s.len(),
    ensures
        sp_string(s, i) matches Some(t) ==> i < t.1 <= s.len() && json_clean(t.0),
{
    if i < s.len() && s[i] == '"' {
        lemma_string_end_clean(s, i + 1);
        let e = string_end(s, i + 1);
        if e < s.len() && s[e] == '"' {
            let v = s.subrange(i + 1, e);
            assert forall|j: int| 0 <= j < v.len() implies json_clean_char(v[j]) by {
                assert(v[j] == s[i + 1 + j]);
            }
        }
    }
}

/// Both strings of a parsed member can stand verbatim inside a JSON
/// string.
proof fn lemma_sp_member_clean(s: Seq<char>, i: int)
    requires
        0 <= i <= s.len(),
    ensures
        sp_member(s, i) matches Some(t) ==> i < t.2 <= s.len() && json_clean(t.0) && json_clean(
            t.1,
        ),
{
    lemma_sp_string_clean(s, i);
    match sp_string(s, i) {
        None => {},
        Some((k, i1)) => {
            lemma_skip_ws_bounds(s, i1);
            let i2 = skip_ws(s, i1);
            if i2 < s.len() && s[i2] == ':' {
                lemma_skip_ws_bounds(s, i2 + 1);
                let i3 = skip_ws(s, i2 + 1);
                lemma_sp_string_clean(s, i3);
            }
        },
    }
}

/// Both strings of a parsed database object can stand verbatim inside
/// a JSON string.
proof fn lemma_sp_db_clean(s: Seq<char>, i: int)
    requires
        0 <= i <= s.len(),
    ensures
        sp_db(s, i) matches Some(t) ==> i < t.2 <= s.len() && json_clean(t.0) && json_clean(t.1),
{
    if i < s.len() && s[i] == '{' {
        lemma_skip_ws_bounds(s, i + 1);
        let i1 = skip_ws(s, i + 1);
        lemma_sp_member_clean(s, i1);
        match sp_member(s, i1) {
            None => {},
            Some((k1, v1, i2)) => {
                lemma_skip_ws_bounds(s, i2);
                let i3 = skip_ws(s, i2);
                if i3 < s.len() && s[i3] == ',' {
                    lemma_skip_ws_bounds(s, i3 + 1);
                    let i4 = skip_ws(s, i3 + 1);
                    lemma_sp_member_clean(s, i4);
                    match sp_member(s, i4) {
                        None => {},
                        Some((k2, v2, i5)) => {
                            lemma_skip_ws_bounds(s, i5);
                        },
                    }
                }
            },
        }
    }
}

/// Whatever the loader accepts embeds verbatim into JSON: an accepted
/// descriptor's name and path hold no quote, backslash or control
/// character.
pub proof fn lemma_accepted_config_clean(s: Seq<char>)
    ensures
        sp_config(s) matches Ok(t) ==> json_clean(t.0) && json_clean(t.1),
{
    lemma_skip_ws_bounds(s, 0);
    let i0 = skip_ws(s, 0);
    if i0 < s.len() && s[i0] == '{' {
        lemma_skip_ws_bounds(s, i0 + 1);
        let i1 = skip_ws(s, i0 + 1);
        lemma_sp_string_clean(s, i1);
        match sp_string(s, i1) {
            None => {},
            Some((key, i2)) => {
                lemma_skip_ws_bounds(s, i2);
                let i3 = skip_ws(s, i2);
                if i3 < s.len() && s[i3] == ':' {
                    lemma_skip_ws_bounds(s, i3 + 1);
                    let i4 = skip_ws(s, i3 + 1);
                    lemma_sp_db_clean(s, i4);
                }
            },
        }
    }
}

/// The canonical rendering of a descriptor for a given nickname and
/// path: the compact single-database shape.
pub open spec fn render_config(name: Seq<char>, path: Seq<char>) -> Seq<char> {
    "{\"database\":{\"name\":\""@ + name + "\",\"path\":\""@ + path + "\"}}"@
}

/// String content ends exactly where the clean run ends.
proof fn lemma_string_end_at(s: Seq<char>, i: int, j: int)
    requires
        0 <= i <= j <= s.len(),
        forall|k: int| i <= k < j ==> json_clean_char(s[k]),
        j == s.len() || !json_clean_char(s[j]),
    ensures
        string_end(s, i) == j,
    decreases j - i,
{
    if i < j {
        lemma_string_end_at(s, i + 1, j);
    }
}

/// A quoted clean run is read as exactly that string literal.
proof fn lemma_sp_string_at(s: Seq<char>, i: int, v: Seq<char>)
    requires
        0 <= i,
        i + v.len() + 2 <= s.len(),
        s[i] == '"',
        s[i + v.len() + 1] == '"',
        forall|k: int| 0 <= k < v.len() ==> s[i + 1 + k] == v[k],
        json_clean(v),
    ensures
        sp_string(s, i) == Some((v, i + v.len() + 2)),
{
    assert forall|k: int| i + 1 <= k < i + 1 + v.len() implies json_clean_char(s[k]) by {
        assert(s[k] == v[k - i - 1]);
    }
    lemma_string_end_at(s, i + 1, i + 1 + v.len());
    assert(s.subrange(i + 1, i + 1 + v.len()) =~= v);
}

/// Parsing inverts rendering: the canonical descriptor of any clean
/// nickname and path is accepted and yields exactly them back.
pub proof fn lemma_render_parse_round_trip(name: Seq<char>, path: Seq<char>)
    requires
        json_clean(name),
        json_clean(path),
    ensures
        sp_config(render_config(name, path)) matches Ok(t) && t.0 == name && t.1 == path,
{
    reveal_strlit("{\"database\":{\"name\":\"");
    reveal_strlit("\",\"path\":\"");
    reveal_strlit("\"}}");
    reveal_strlit("database");
    reveal_strlit("name");
    reveal_strlit("path");
    let a = "{\"database\":{\"name\":\""@;
    let b = "\",\"path\":\""@;
    let c = "\"}}"@;
    let s = render_config(name, path);
    let n = name.len() as int;
    let p = path.len() as int;
    assert(a.len() == 21);
    assert(b.len() == 10);
    assert(c.len() == 3);
    assert(s.len() == 34 + n + p);
    assert forall|k: int| 0 <= k < 21 implies s[k] == a[k] by {}
    assert forall|k: int| 0 <= k < n implies s[21 + k] == name[k] by {}
    assert forall|k: int| 0 <= k < 10 implies s[21 + n + k] == b[k] by {}
    assert forall|k: int| 0 <= k < p implies s[31 + n + k] == path[k] by {}
    assert forall|k: int| 0 <= k < 3 implies s[31 + n + p + k] == c[k] by {}
    assert(s[0] == '{' && s[1] == '"' && s[11] == ':' && s[12] == '{' && s[13] == '"' && s[19]
        == ':' && s[20] == '"');
    assert(s[22 + n] == ',' && s[23 + n] == '"' && s[29 + n] == ':' && s[30 + n] == '"');
    assert(s[32 + n + p] == '}' && s[33 + n + p] == '}');
    assert(skip_ws(s, 0) == 0);
    assert(skip_ws(s, 1) == 1);
    assert(skip_ws(s, 11) == 11);
    assert(skip_ws(s, 12) == 12);
    assert(skip_ws(s, 13) == 13);
    assert(skip_ws(s, 19) == 19);
    assert(skip_ws(s, 20) == 20);
    assert(skip_ws(s, 22 + n) == 22 + n);
    assert(skip_ws(s, 23 + n) == 23 + n);
    assert(skip_ws(s, 29 + n) == 29 + n);
    assert(skip_ws(s, 30 + n) == 30 + n);
    assert(skip_ws(s, 32 + n + p) == 32 + n + p);
    assert(skip_ws(s, 33 + n + p) == 33 + n + p);
    assert(skip_ws(s, 34 + n + p) == 34 + n + p);
    assert(json_clean("database"@));
    assert(json_clean("name"@));
    assert(json_clean("path"@));
    assert forall|k: int| 0 <= k < "database"@.len() implies s[1 + 1 + k] == "database"@[k] by {
        assert(s[2 + k] == a[2 + k]);
    }
    lemma_sp_string_at(s, 1, "database"@);
    assert forall|k: int| 0 <= k < "name"@.len() implies s[13 + 1 + k] == "name"@[k] by {
        assert(s[14 + k] == a[14 + k]);
    }
    lemma_sp_string_at(s, 13, "name"@);
    lemma_sp_string_at(s, 20, name);
    assert forall|k: int| 0 <= k < "path"@.len() implies s[23 + n + 1 + k] == "path"@[k] by {
        assert(s[24 + n + k] == b[3 + k]);
    }
    lemma_sp_string_at(s, 23 + n, "path"@);
    lemma_sp_string_at(s, 30 + n, path);
    assert(sp_member(s, 13) == Some(("name"@, name, 22 + n)));
    assert(sp_member(s, 23 + n) == Some(("path"@, path, 32 + n + p)));
    assert(sp_db(s, 12) == Some((name, path, 33 + n + p)));
}

/// Whitespace is insignificant.
fn is_ws_char(c: char) -> (r: bool)
    ensures
        r == is_ws(c),
{
    c == ' ' || c == '\t' || c == '\n' || c == '\r'
}

/// The character may stand inside a string literal.
fn is_clean_char(c: char) -> (r: bool)
    ensures
        r == json_clean_char(c),
{
    c != '"' && c != '\\' && (c as u32) >= 32
}

/// Walks to the first non-whitespace character at or after `i`.
fn ws_end(s: &str, i: usize, n: usize) -> (j: usize)
    requires
        n == s@.len(),
        i <= n,
    ensures
        j as int == skip_ws(s@, i as int),
        i <= j <= n,
    decreases n - i,
{
    if i < n && is_ws_char(s.get_char(i)) {
        ws_end(s, i + 1, n)
    } else {
        i
    }
}

/// Walks to the end of literal string content starting at `i`.
fn content_end(s: &str, i: usize, n: usize) -> (j: usize)
    requires
        n == s@.len(),
        i <= n,
    ensures
        j as int == string_end(s@, i as int),
        i <= j <= n,
    decreases n - i,
{
    if i < n && is_clean_char(s.get_char(i)) {
        content_end(s, i + 1, n)
    } else {
        i
    }
}

/// Reads the string literal at `i`, if one stands there.
fn parse_string(s: &str, i: usize, n: usize) -> (r: Option<(String, usize)>)
    requires
        n == s@.len(),
        i <= n,
    ensures
        (r matches Some(t) ==> sp_string(s@, i as int) == Some((t.0@, t.1 as int)) && i < t.1
            <= n),
        (r is None ==> sp_string(s@, i as int) is None),
{
    if i < n && s.get_char(i) == '"' {
        let e = content_end(s, i + 1, n);
        if e < n && s.get_char(e) == '"' {
            let v = s.substring_char(i + 1, e).to_owned();
            Some((v, e + 1))
        } else {
            None
        }
    } else {
        None
    }
}

/// The two views are the same character sequence.
fn str_is(a: &str, b: &str) -> (r: bool)
    ensures
        r == (a@ == b@),
{
    let na = a.unicode_len();
    let nb = b.unicode_len();
    if na != nb {
        proof {
            assert(a@ != b@) by {
                if a@ == b@ {
                    assert(a@.len() == b@.len());
                }
            }
        }
        return false;
    }
    let mut i: usize = 0;
    while i < na
        invariant
            i <= na,
            na == a@.len(),
            nb == b@.len(),
            na == nb,
            forall|j: int| 0 <= j < i ==> a@[j] == b@[j],
        decreases na - i,
    {
        if a.get_char(i) != b.get_char(i) {
            proof {
                assert(a@ != b@) by {
                    if a@ == b@ {
                        assert(a@[i as int] == b@[i as int]);
                    }
                }
            }
            return false;
        }
        i = i + 1;
    }
    proof {
        assert(a@ =~= b@);
    }
    true
}

/// Reads the object member at `i`, if one stands there.
fn parse_member(s: &str, i: usize, n: usize) -> (r: Option<(String, String, usize)>)
    requires
        n == s@.len(),
        i <= n,
    ensures
        (r matches Some(t) ==> sp_member(s@, i as int) == Some((t.0@, t.1@, t.2 as int)) && i
            < t.2 <= n),
        (r is None ==> sp_member(s@, i as int) is None),
{
    let key = match parse_string(s, i, n) {
        None => {
            return None;
        },
        Some(t) => t,
    };
    let i2 = ws_end(s, key.1, n);
    if !(i2 < n && s.get_char(i2) == ':') {
        return None;
    }
    let i3 = ws_end(s, i2 + 1, n);
    match parse_string(s, i3, n) {
        None => None,
        Some(v) => Some((key.0, v.0, v.1)),
    }
}

/// Reads the database object at `i`, if one stands there; yields name
/// and path.
fn parse_db(s: &str, i: usize, n: usize) -> (r: Option<(String, String, usize)>)
    requires
        n == s@.len(),
        i <= n,
    ensures
        (r matches Some(t) ==> sp_db(s@, i as int) == Some((t.0@, t.1@, t.2 as int)) && i < t.2
            <= n),
        (r is None ==> sp_db(s@, i as int) is None),
{
    if !(i < n && s.get_char(i) == '{') {
        return None;
    }
    let i1 = ws_end(s, i + 1, n);
    let m1 = match parse_member(s, i1, n) {
        None => {
            return None;
        },
        Some(t) => t,
    };
    let i3 = ws_end(s, m1.2, n);
    if !(i3 < n && s.get_char(i3) == ',') {
        return None;
    }
    let i4 = ws_end(s, i3 + 1, n);
    let m2 = match parse_member(s, i4, n) {
        None => {
            return None;
        },
        Some(t) => t,
    };
    let i6 = ws_end(s, m2.2, n);
    if !(i6 < n && s.get_char(i6) == '}') {
        return None;
    }
    let k1_name = str_is(m1.0.as_str(), "name");
    let k1_path = str_is(m1.0.as_str(), "path");
    let k2_name = str_is(m2.0.as_str(), "name");
    let k2_path = str_is(m2.0.as_str(), "path");
    if k1_name && k2_path {
        Some((m1.1, m2.1, i6 + 1))
    } else if k1_path && k2_name {
        Some((m2.1, m1.1, i6 + 1))
    } else {
        None
    }
}

/// Parses the descriptor text into the one configuration the process
/// honours, or says exactly why it is refused: the result is what the
/// specification-level grammar denotes for this text, member order and
/// whitespace notwithstanding.
pub fn parse_config(s: &str) -> (r: Result<StoreConfig, ConfigError>)
    ensures
        (r matches Ok(c) ==> sp_config(s@) matches Ok(t) && t.0 == c.name@ && t.1 == c.path@),
        (r matches Err(e) ==> sp_config(s@) matches Err(e2) && e2 == e),
{
    let n = s.unicode_len();
    let i0 = ws_end(s, 0, n);
    if !(i0 < n && s.get_char(i0) == '{') {
        return Err(ConfigError::Malformed);
    }
    let i1 = ws_end(s, i0 + 1, n);
    let key = match parse_string(s, i1, n) {
        None => {
            return Err(ConfigError::Malformed);
        },
        Some(t) => t,
    };
    if !str_is(key.0.as_str(), "database") {
        return Err(ConfigError::Malformed);
    }
    let i3 = ws_end(s, key.1, n);
    if !(i3 < n && s.get_char(i3) == ':') {
        return Err(ConfigError::Malformed);
    }
    let i4 = ws_end(s, i3 + 1, n);
    if i4 < n && s.get_char(i4) == '[' {
        return Err(ConfigError::LegacyList);
    }
    let db = match parse_db(s, i4, n) {
        None => {
            return Err(ConfigError::Malformed);
        },
        Some(t) => t,
    };
    let i6 = ws_end(s, db.2, n);
    if !(i6 < n && s.get_char(i6) == '}') {
        return Err(ConfigError::Malformed);
    }
    let i7 = ws_end(s, i6 + 1, n);
    if i7 != n {
        return Err(ConfigError::Malformed);
    }
    Ok(StoreConfig { name: db.0, path: db.1 })
}

} // verus!
