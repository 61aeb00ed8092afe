//! The configured global shortcut: parsing "Control+Shift+K" style strings
//! into modifiers and a key, and writing them back.
use vstd::prelude::*;
use vstd::string::*;
use crate::text::{
    chars_eq, chars_of, is_white_space, join_with, lemma_join_ends, lemma_split_join,
    lemma_split_on_nonempty, lemma_split_pieces_lack_sep, lemma_trim_within,
    lemma_trim_idempotent, lemma_trim_unchanged, lemma_trimmed_ends, owned, push_char, push_str,
    split_chars, split_on, string_from_chars, trim, trim_chars,
};

verus! {

/// A shortcut: its modifier names in the order given, and its key.
#[derive(Debug, Clone, PartialEq, Eq)]
pub struct ShortcutConfig {
    pub modifiers: Vec<String>,
    pub key: String,
}

/// Why a shortcut string was refused.
#[derive(Debug, Clone, Copy, PartialEq, Eq, Structural)]
pub enum ParseError {
    /// Nothing but whitespace.
    EmptyInput,
    /// No key, or a second key, among the parts.
    NoKey,
}

impl ParseError {
    /// The message shown for the error.
    pub fn to_string(&self) -> (s: String)
        ensures
            s@ == (match self {
                ParseError::EmptyInput => "shortcut string is empty"@,
                ParseError::NoKey => "no key specified (only modifiers)"@,
            }),
    {
        match self {
            ParseError::EmptyInput => owned("shortcut string is empty"),
            ParseError::NoKey => owned("no key specified (only modifiers)"),
        }
    }
}

/// The views of a list of strings.
pub open spec fn views(v: Seq<String>) -> Seq<Seq<char>> {
    v.map_values(|s: String| s@)
}

impl ShortcutConfig {
    /// The modifier names as character sequences.
    pub open spec fn modifiers_view(&self) -> Seq<Seq<char>> {
        views(self.modifiers@)
    }

    /// A shortcut from its parts.
    pub fn new(modifiers: Vec<String>, key: String) -> (c: ShortcutConfig)
        ensures
            c.modifiers == modifiers,
            c.key == key,
    {
        ShortcutConfig { modifiers, key }
    }

    /// The modifiers and the key joined by `+`.
    pub fn to_string_repr(&self) -> (s: String)
        ensures
            s@ == join_with(self.modifiers_view().push(self.key@), '+'),
    {
        let ghost parts = self.modifiers_view().push(self.key@);
        let mut out = String::new();
        let n = self.modifiers.len();
        let mut i: usize = 0;
        while i < n
            invariant
                n == self.modifiers@.len(),
                parts == self.modifiers_view().push(self.key@),
                i <= n,
                out@ == join_with(parts.take(i as int), '+'),
            decreases n - i,
        {
            if i > 0 {
                push_char(&mut out, '+');
            }
            push_str(&mut out, self.modifiers[i].as_str());
            proof {
                lemma_join_step(parts, i as int, '+');
            }
            i = i + 1;
        }
        if n > 0 {
            push_char(&mut out, '+');
        }
        push_str(&mut out, self.key.as_str());
        proof {
            lemma_join_step(parts, n as int, '+');
            assert(parts.take(n + 1) =~= parts);
        }
        out
    }
}

/// Joining one more piece appends the separator (after the first) and the
/// piece.
proof fn lemma_join_step(parts: Seq<Seq<char>>, i: int, sep: char)
    requires
        0 <= i < parts.len(),
    ensures
        join_with(parts.take(i + 1), sep) == (if i == 0 {
            parts[i]
        } else {
            join_with(parts.take(i), sep).push(sep) + parts[i]
        }),
{
    assert(parts.take(i + 1).drop_last() =~= parts.take(i));
    if i == 0 {
        assert(parts.take(1)[0] == parts[0]);
    }
}

/// The modifier names a shortcut may use; they are case-sensitive.
pub open spec fn is_valid_modifier(p: Seq<char>) -> bool {
    ||| p == "Control"@
    ||| p == "Alt"@
    ||| p == "Shift"@
    ||| p == "Super"@
    ||| p == "Command"@
}

fn is_modifier(p: &Vec<char>) -> (r: bool)
    ensures
        r == is_valid_modifier(p@),
{
    chars_eq(p, "Control") || chars_eq(p, "Alt") || chars_eq(p, "Shift") || chars_eq(p, "Super")
        || chars_eq(p, "Command")
}

/// Reading the parts in order: whether a second key was met, the
/// modifiers, and the key.
pub open spec fn scan_parts(parts: Seq<Seq<char>>) -> (bool, Seq<Seq<char>>, Option<Seq<char>>)
    decreases parts.len(),
{
    if parts.len() == 0 {
        (false, Seq::<Seq<char>>::empty(), None)
    } else {
        let prev = scan_parts(parts.drop_last());
        let p = parts.last();
        if prev.0 {
            prev
        } else if is_valid_modifier(p) {
            (false, prev.1.push(p), prev.2)
        } else if prev.2 is Some {
            (true, prev.1, prev.2)
        } else {
            (false, prev.1, Some(p))
        }
    }
}

/// Once a second key is met, the scan stays failed.
proof fn lemma_scan_failure_sticks(parts: Seq<Seq<char>>, i: int)
    requires
        0 <= i <= parts.len(),
        scan_parts(parts.take(i)).0,
    ensures
        scan_parts(parts).0,
    decreases parts.len() - i,
{
    if i < parts.len() {
        assert(parts.take(i + 1).drop_last() =~= parts.take(i));
        lemma_scan_failure_sticks(parts, i + 1);
    } else {
        assert(parts.take(i) =~= parts);
    }
}

/// The trimmed pieces of a shortcut string between its `+` signs.
pub open spec fn shortcut_parts(input: Seq<char>) -> Seq<Seq<char>> {
    split_on(trim(input), '+').map_values(|p: Seq<char>| trim(p))
}

/// What parsing a shortcut string gives: the modifiers and the key, or why
/// it is refused.
pub open spec fn parse_spec(input: Seq<char>) -> Result<(Seq<Seq<char>>, Seq<char>), ParseError> {
    if trim(input).len() == 0 {
        Err(ParseError::EmptyInput)
    } else {
        let scan = scan_parts(shortcut_parts(input));
        if scan.0 {
            Err(ParseError::NoKey)
        } else {
            match scan.2 {
                Some(key) => if key.len() == 0 {
                    Err(ParseError::NoKey)
                } else {
                    Ok((scan.1, key))
                },
                None => Err(ParseError::NoKey),
            }
        }
    }
}

/// Parses a shortcut string: the input and each piece between `+` signs
/// are trimmed; every piece must be a modifier name except exactly one,
/// the key, which must not be empty.
pub fn parse_shortcut(input: &str) -> (r: Result<ShortcutConfig, ParseError>)
    ensures
        r is Ok ==> r->Ok_0.key@.len() > 0,
        match r {
            Ok(c) => parse_spec(input@) == Ok::<(Seq<Seq<char>>, Seq<char>), ParseError>(
                (c.modifiers_view(), c.key@),
            ),
            Err(e) => parse_spec(input@) == Err::<(Seq<Seq<char>>, Seq<char>), ParseError>(e),
        },
{
    let chars = chars_of(input);
    let t = trim_chars(&chars);
    if t.len() == 0 {
        return Err(ParseError::EmptyInput);
    }
    let raw = split_chars(&t, '+');
    let ghost parts = shortcut_parts(input@);
    assert(parts.len() == raw@.len());
    let mut modifiers: Vec<String> = Vec::new();
    let mut key: Option<String> = None;
    let mut i: usize = 0;
    while i < raw.len()
        invariant
            i <= raw@.len(),
            parts == shortcut_parts(input@),
            parts.len() == raw@.len(),
            t@ == trim(input@),
            forall|k: int| 0 <= k < raw@.len() ==> #[trigger] raw@[k]@ == split_on(t@, '+')[k],
            !scan_parts(parts.take(i as int)).0,
            views(modifiers@) == scan_parts(parts.take(i as int)).1,
            match key {
                Some(k) => scan_parts(parts.take(i as int)).2 == Some(k@),
                None => scan_parts(parts.take(i as int)).2 is None,
            },
        decreases raw.len() - i,
    {
        let p = trim_chars(&raw[i]);
        proof {
            assert(p@ == parts[i as int]);
            assert(parts.take(i + 1).drop_last() =~= parts.take(i as int));
            assert(parts.take(i + 1).last() == parts[i as int]);
        }
        if is_modifier(&p) {
            let m = string_from_chars(&p);
            modifiers.push(m);
            proof {
                assert(views(modifiers@) =~= scan_parts(parts.take(i + 1)).1);
            }
        } else if key.is_some() {
            proof {
                lemma_scan_failure_sticks(parts, i + 1);
            }
            return Err(ParseError::NoKey);
        } else {
            key = Some(string_from_chars(&p));
        }
        i = i + 1;
    }
    proof {
        assert(parts.take(raw@.len() as int) =~= parts);
    }
    match key {
        Some(k) => {
            if k.as_str().unicode_len() == 0 {
                Err(ParseError::NoKey)
            } else {
                Ok(ShortcutConfig::new(modifiers, k))
            }
        },
        None => Err(ParseError::NoKey),
    }
}

/// Reads a saved shortcut: surrounding whitespace is ignored, nothing saved
/// gives nothing, and an unparsable one gives nothing.
pub fn shortcut_from_saved(data: &str) -> (r: Option<ShortcutConfig>)
    ensures
        trim(data@).len() == 0 ==> r is None,
        trim(data@).len() != 0 ==> match parse_spec(data@) {
            Ok((m, k)) => r is Some && r->Some_0.modifiers_view() == m && r->Some_0.key@ == k,
            Err(_) => r is None,
        },
{
    let chars = chars_of(data);
    let t = trim_chars(&chars);
    if t.len() == 0 {
        return None;
    }
    proof {
        lemma_trim_idempotent(data@);
    }
    let trimmed = string_from_chars(&t);
    match parse_shortcut(trimmed.as_str()) {
        Ok(c) => Some(c),
        Err(_) => None,
    }
}


/// The modifier names hold no `+` and no whitespace.
proof fn lemma_modifier_shape(m: Seq<char>)
    requires
        is_valid_modifier(m),
    ensures
        m.len() > 0,
        !m.contains('+'),
        forall|k: int| 0 <= k < m.len() ==> !is_white_space(#[trigger] m[k]),
        trim(m) == m,
{
    reveal_strlit("Control");
    reveal_strlit("Alt");
    reveal_strlit("Shift");
    reveal_strlit("Super");
    reveal_strlit("Command");
    assert(m.len() > 0);
    assert(!is_white_space(m[0]));
    assert(!is_white_space(m.last()));
    lemma_trim_unchanged(m);
}

/// Reading only modifier names collects them all, with no key.
proof fn lemma_scan_modifiers(mods: Seq<Seq<char>>)
    requires
        forall|i: int| 0 <= i < mods.len() ==> is_valid_modifier(#[trigger] mods[i]),
    ensures
        scan_parts(mods) == (false, mods, None::<Seq<char>>),
    decreases mods.len(),
{
    if mods.len() > 0 {
        lemma_scan_modifiers(mods.drop_last());
        assert(mods.drop_last().push(mods.last()) =~= mods);
    }
}

/// Writing a shortcut out and parsing it back gives the same shortcut, for
/// every shortcut whose modifiers are valid names and whose key is not a
/// modifier name, holds no `+`, has no surrounding whitespace, and is not
/// empty.  This is what lets a saved shortcut
/// survive a restart.
pub proof fn law_parse_roundtrip(mods: Seq<Seq<char>>, key: Seq<char>)
    requires
        forall|i: int| 0 <= i < mods.len() ==> is_valid_modifier(#[trigger] mods[i]),
        !is_valid_modifier(key),
        !key.contains('+'),
        trim(key) == key,
        key.len() > 0,
    ensures
        parse_spec(join_with(mods.push(key), '+')) == Ok::<(Seq<Seq<char>>, Seq<char>), ParseError>(
            (mods, key),
        ),
        trim(join_with(mods.push(key), '+')).len() > 0,
{
    let ps = mods.push(key);
    let j = join_with(ps, '+');
    assert forall|k: int| 0 <= k < ps.len() implies !(#[trigger] ps[k]).contains('+') && trim(ps[k]) == ps[k] by {
        if k < mods.len() {
            assert(ps[k] == mods[k]);
            lemma_modifier_shape(mods[k]);
        }
    }
    lemma_join_ends(ps, '+');
    if mods.len() > 0 {
        lemma_modifier_shape(mods[0]);
        assert(ps[0] == mods[0]);
        assert(!is_white_space(j[0]));
    } else {
        lemma_trimmed_ends(key);
        assert(ps[0] == key);
    }
    if key.len() > 0 {
        lemma_trimmed_ends(key);
        assert(!is_white_space(j.last()));
    } else {
        assert(j.last() == '+');
        assert(!is_white_space('+'));
    }
    lemma_trim_unchanged(j);
    lemma_split_join(ps, '+');
    let parts = split_on(trim(j), '+').map_values(|p: Seq<char>| trim(p));
    assert(parts =~= ps);
    lemma_scan_modifiers(mods);
    assert(ps.drop_last() =~= mods);
}

/// What a scan of the parts collects: modifier names, and a key that is
/// one of the parts and no modifier name.
proof fn lemma_scan_shape(parts: Seq<Seq<char>>)
    ensures
        forall|i: int|
            0 <= i < scan_parts(parts).1.len() ==> is_valid_modifier(#[trigger] scan_parts(parts).1[i]),
        scan_parts(parts).2 is Some ==> !is_valid_modifier(scan_parts(parts).2->Some_0) && exists|j: int|
            0 <= j < parts.len() && #[trigger] parts[j] == scan_parts(parts).2->Some_0,
    decreases parts.len(),
{
    if parts.len() > 0 {
        let d = parts.drop_last();
        lemma_scan_shape(d);
        let prev = scan_parts(d);
        let r = scan_parts(parts);
        assert forall|i: int| 0 <= i < r.1.len() implies is_valid_modifier(#[trigger] r.1[i]) by {
            if i < prev.1.len() {
                assert(r.1[i] == prev.1[i] || r == prev);
            }
        }
        if r.2 is Some {
            if prev.2 is Some && r.2 == prev.2 {
                let j = choose|j: int| 0 <= j < d.len() && #[trigger] d[j] == prev.2->Some_0;
                assert(parts[j] == d[j]);
            } else {
                assert(parts[parts.len() - 1] == r.2->Some_0);
            }
        }
    }
}

/// Every shortcut that parsing accepts meets the premises of
/// `law_parse_roundtrip`, so each of them survives being written out and
/// read back.
pub proof fn law_parsed_shortcut_roundtrips(input: Seq<char>, mods: Seq<Seq<char>>, key: Seq<char>)
    requires
        parse_spec(input) == Ok::<(Seq<Seq<char>>, Seq<char>), ParseError>((mods, key)),
    ensures
        forall|i: int| 0 <= i < mods.len() ==> is_valid_modifier(#[trigger] mods[i]),
        !is_valid_modifier(key),
        !key.contains('+'),
        trim(key) == key,
        key.len() > 0,
        parse_spec(join_with(mods.push(key), '+')) == Ok::<(Seq<Seq<char>>, Seq<char>), ParseError>(
            (mods, key),
        ),
        trim(join_with(mods.push(key), '+')).len() > 0,
{
    let t = trim(input);
    let pieces = split_on(t, '+');
    let parts = shortcut_parts(input);
    lemma_scan_shape(parts);
    lemma_split_pieces_lack_sep(t, '+');
    lemma_split_on_nonempty(t, '+');
    let j = choose|j: int| 0 <= j < parts.len() && #[trigger] parts[j] == key;
    assert(parts[j] == trim(pieces[j]));
    assert(!pieces[j].contains('+'));
    lemma_trim_within(pieces[j], '+');
    lemma_trim_idempotent(pieces[j]);
    law_parse_roundtrip(mods, key);
}

} // verus!
