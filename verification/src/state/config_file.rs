//! The configuration file: a small TOML document made of comments, blank
//! lines and `key = value` entries with bare keys and decimal values, the
//! part of TOML that a configuration needs.
use vstd::prelude::*;
use crate::environment::{eq_pos, strip_cr, texts_of, lemma_eq_pos_extends};
use crate::numbers::{
    decimal,
    parsed_u64,
    parsed_usize,
    parse_u64,
    parse_usize,
    push_decimal,
    lemma_decimal_parses,
};
use crate::state::config::{Duration, KideConfig, config_of, whole_seconds};
use crate::table::KeyedTable;
use crate::ordering::push_str;
use crate::text::{chars_of, concat, owned, push_char};

verus! {

/// A blank: a space or a tab.
pub open spec fn is_blank(c: char) -> bool {
    c == ' ' || c == '\t'
}

/// `s` without the blanks it starts with.
pub open spec fn trim_start(s: Seq<char>) -> Seq<char>
    decreases s.len(),
{
    if s.len() > 0 && is_blank(s[0]) {
        trim_start(s.drop_first())
    } else {
        s
    }
}

/// `s` without the blanks it ends with.
pub open spec fn trim_end(s: Seq<char>) -> Seq<char>
    decreases s.len(),
{
    if s.len() > 0 && is_blank(s.last()) {
        trim_end(s.drop_last())
    } else {
        s
    }
}

/// A character of a bare key: an ASCII letter or digit, `_` or `-`.
pub open spec fn is_key_char(c: char) -> bool {
    let u = c as u32;
    (97 <= u <= 122) || (65 <= u <= 90) || (48 <= u <= 57) || c == '_' || c == '-'
}

/// A bare key: one or more key characters.
pub open spec fn is_bare_key(k: Seq<char>) -> bool {
    k.len() > 0 && forall|i: int| 0 <= i < k.len() ==> is_key_char(#[trigger] k[i])
}

/// What one line says: `Some(None)` for a blank line or a comment,
/// `Some(Some((key, value)))` for an entry `key = value` with a bare key and
/// a value that is not empty (blanks around either dropped), `None` for a
/// line that is neither.
pub open spec fn line_entry(line: Seq<char>) -> Option<Option<(Seq<char>, Seq<char>)>> {
    let t = trim_end(trim_start(line));
    if t.len() == 0 || t[0] == '#' {
        Some(None)
    } else {
        match eq_pos(t) {
            Some(p) => {
                let k = trim_end(t.take(p));
                let v = trim_start(t.skip(p + 1));
                if is_bare_key(k) && v.len() > 0 {
                    Some(Some((k, v)))
                } else {
                    None
                }
            },
            None => None,
        }
    }
}

/// The error for a line that is neither blank, a comment nor an entry.
pub open spec fn invalid_line_message(line: Seq<char>) -> Seq<char> {
    "invalid line: "@ + line
}

/// The error for a key that is set twice.
pub open spec fn duplicate_key_message(k: Seq<char>) -> Seq<char> {
    "duplicate key `"@ + k + "`"@
}

/// The entries after reading one more line, or the first error.
pub open spec fn with_toml_line(
    acc: Result<Map<Seq<char>, Seq<char>>, Seq<char>>,
    line: Seq<char>,
) -> Result<Map<Seq<char>, Seq<char>>, Seq<char>> {
    match acc {
        Err(e) => Err(e),
        Ok(m) => match line_entry(line) {
            None => Err(invalid_line_message(line)),
            Some(None) => Ok(m),
            Some(Some((k, v))) => if m.contains_key(k) {
                Err(duplicate_key_message(k))
            } else {
                Ok(m.insert(k, v))
            },
        },
    }
}

/// The entries after reading the rest `s` of the text, with `cur` the
/// unfinished line. Lines end at a newline, a carriage return before it is
/// dropped, and a last line without a newline counts when it is not empty.
pub open spec fn toml_scan(
    s: Seq<char>,
    cur: Seq<char>,
    acc: Result<Map<Seq<char>, Seq<char>>, Seq<char>>,
) -> Result<Map<Seq<char>, Seq<char>>, Seq<char>>
    decreases s.len(),
{
    if s.len() == 0 {
        if cur.len() == 0 {
            acc
        } else {
            with_toml_line(acc, strip_cr(cur))
        }
    } else if s[0] == '\n' {
        toml_scan(s.drop_first(), Seq::empty(), with_toml_line(acc, strip_cr(cur)))
    } else {
        toml_scan(s.drop_first(), cur.push(s[0]), acc)
    }
}

/// The entries of a configuration file, or its first error.
pub open spec fn toml_entries(text: Seq<char>) -> Result<Map<Seq<char>, Seq<char>>, Seq<char>> {
    toml_scan(text, Seq::empty(), Ok(Map::empty()))
}

/// The error for a setting that the file does not set.
pub open spec fn missing_field_message(k: Seq<char>) -> Seq<char> {
    "missing field `"@ + k + "`"@
}

/// The error for a setting whose value is not a number of the setting's type.
pub open spec fn invalid_value_message(k: Seq<char>, v: Seq<char>) -> Seq<char> {
    "invalid value for `"@ + k + "`: "@ + v
}

/// The `u64` setting `k` of the entries.
pub open spec fn u64_field(m: Map<Seq<char>, Seq<char>>, k: Seq<char>) -> Result<u64, Seq<char>> {
    if !m.contains_key(k) {
        Err(missing_field_message(k))
    } else {
        match parsed_u64(m[k]) {
            Some(n) => Ok(n),
            None => Err(invalid_value_message(k, m[k])),
        }
    }
}

/// The `usize` setting `k` of the entries.
pub open spec fn usize_field(m: Map<Seq<char>, Seq<char>>, k: Seq<char>) -> Result<usize, Seq<char>> {
    if !m.contains_key(k) {
        Err(missing_field_message(k))
    } else {
        match parsed_usize(m[k]) {
            Some(n) => Ok(n),
            None => Err(invalid_value_message(k, m[k])),
        }
    }
}

/// The configuration that the entries set, or the first missing or invalid
/// setting in the order of the configuration's fields. Other keys are
/// ignored.
pub open spec fn config_of_entries(m: Map<Seq<char>, Seq<char>>) -> Result<KideConfig, Seq<char>> {
    match u64_field(m, "connection_timeout_secs"@) {
        Err(e) => Err(e),
        Ok(a) => match u64_field(m, "stream_timeout_secs"@) {
            Err(e) => Err(e),
            Ok(b) => match u64_field(m, "cleanup_interval_secs"@) {
                Err(e) => Err(e),
                Ok(c) => match usize_field(m, "max_fd_usage"@) {
                    Err(e) => Err(e),
                    Ok(d) => match usize_field(m, "max_shell_command_length"@) {
                        Err(e) => Err(e),
                        Ok(f) => match u64_field(m, "shell_env_timeout_secs"@) {
                            Err(e) => Err(e),
                            Ok(g) => Ok(config_of(a, b, c, d, f, g)),
                        },
                    },
                },
            },
        },
    }
}

/// The configuration that a file's text gives, or the error that reading
/// it meets first.
pub open spec fn config_from_toml(text: Seq<char>) -> Result<KideConfig, Seq<char>> {
    match toml_entries(text) {
        Err(e) => Err(e),
        Ok(m) => config_of_entries(m),
    }
}

/// The comment that heads a saved configuration.
pub open spec fn config_header() -> Seq<char> {
    "# Kide configuration"@
}

/// The entry `key = value` for a number.
pub open spec fn entry_text(k: Seq<char>, n: nat) -> Seq<char> {
    k + seq![' ', '=', ' '] + decimal(n)
}

/// The text of a saved configuration: the heading comment, then one entry
/// per setting, each on a line of its own.
pub open spec fn config_toml(c: KideConfig) -> Seq<char> {
    let nl = seq!['\n'];
    config_header() + nl + entry_text("connection_timeout_secs"@, c.connection_timeout.secs as nat)
        + nl + entry_text("stream_timeout_secs"@, c.stream_timeout.secs as nat) + nl + entry_text(
        "cleanup_interval_secs"@,
        c.cleanup_interval.secs as nat,
    ) + nl + entry_text("max_fd_usage"@, c.max_fd_usage as nat) + nl + entry_text(
        "max_shell_command_length"@,
        c.max_shell_command_length as nat,
    ) + nl + entry_text("shell_env_timeout_secs"@, c.shell_env_timeout.secs as nat) + nl
}

/// The position after the blanks that start `cs[lo..hi]`.
fn skip_blanks_forward(cs: &Vec<char>, lo: usize, hi: usize) -> (r: usize)
    requires
        lo <= hi <= cs.len(),
    ensures
        lo <= r <= hi,
        trim_start(cs@.subrange(lo as int, hi as int)) == cs@.subrange(r as int, hi as int),
{
    let mut i: usize = lo;
    while i < hi && (cs[i] == ' ' || cs[i] == '\t')
        invariant
            lo <= i <= hi <= cs.len(),
            trim_start(cs@.subrange(lo as int, hi as int)) == trim_start(
                cs@.subrange(i as int, hi as int),
            ),
        decreases hi - i,
    {
        proof {
            assert(cs@.subrange(i as int, hi as int).drop_first() =~= cs@.subrange(
                i + 1,
                hi as int,
            ));
        }
        i = i + 1;
    }
    i
}

/// The position before the blanks that end `cs[lo..hi]`.
fn skip_blanks_back(cs: &Vec<char>, lo: usize, hi: usize) -> (r: usize)
    requires
        lo <= hi <= cs.len(),
    ensures
        lo <= r <= hi,
        trim_end(cs@.subrange(lo as int, hi as int)) == cs@.subrange(lo as int, r as int),
{
    let mut j: usize = hi;
    while j > lo && (cs[j - 1] == ' ' || cs[j - 1] == '\t')
        invariant
            lo <= j <= hi <= cs.len(),
            trim_end(cs@.subrange(lo as int, hi as int)) == trim_end(
                cs@.subrange(lo as int, j as int),
            ),
        decreases j - lo,
    {
        proof {
            assert(cs@.subrange(lo as int, j as int).drop_last() =~= cs@.subrange(
                lo as int,
                j - 1,
            ));
        }
        j = j - 1;
    }
    j
}

/// The position of the first `=` in `cs[lo..hi]`.
fn find_eq(cs: &Vec<char>, lo: usize, hi: usize) -> (r: Option<usize>)
    requires
        lo <= hi <= cs.len(),
    ensures
        match r {
            Some(q) => lo <= q < hi && eq_pos(cs@.subrange(lo as int, hi as int)) == Some(
                q - lo,
            ),
            None => eq_pos(cs@.subrange(lo as int, hi as int)) is None,
        },
{
    let ghost l = cs@.subrange(lo as int, hi as int);
    let mut q: usize = lo;
    while q < hi && cs[q] != '='
        invariant
            lo <= q <= hi <= cs.len(),
            l == cs@.subrange(lo as int, hi as int),
            eq_pos(l.take(q - lo)) is None,
        decreases hi - q,
    {
        proof {
            assert(l.take(q - lo + 1).drop_last() =~= l.take(q - lo));
        }
        q = q + 1;
    }
    if q == hi {
        proof {
            assert(l.take(q - lo) =~= l);
        }
        return None;
    }
    proof {
        assert(l.take(q - lo + 1).drop_last() =~= l.take(q - lo));
        assert(eq_pos(l.take(q - lo + 1)) == Some(q - lo));
        lemma_eq_pos_extends(l, q - lo + 1);
    }
    Some(q)
}

/// Whether `c` may stand in a bare key.
fn key_char(c: char) -> (r: bool)
    ensures
        r == is_key_char(c),
{
    let u = c as u32;
    (97 <= u && u <= 122) || (65 <= u && u <= 90) || (48 <= u && u <= 57) || c == '_' || c == '-'
}

/// Whether `cs[lo..hi]` is a bare key.
fn bare_key_between(cs: &Vec<char>, lo: usize, hi: usize) -> (r: bool)
    requires
        lo <= hi <= cs.len(),
    ensures
        r == is_bare_key(cs@.subrange(lo as int, hi as int)),
{
    let ghost k = cs@.subrange(lo as int, hi as int);
    if lo == hi {
        return false;
    }
    let mut i: usize = lo;
    while i < hi
        invariant
            lo <= i <= hi <= cs.len(),
            k == cs@.subrange(lo as int, hi as int),
            forall|j: int| 0 <= j < i - lo ==> is_key_char(#[trigger] k[j]),
        decreases hi - i,
    {
        if !key_char(cs[i]) {
            assert(!is_key_char(k[i - lo]));
            return false;
        }
        i = i + 1;
    }
    true
}

/// The text of `cs[lo..hi]`.
fn text_between(cs: &Vec<char>, lo: usize, hi: usize) -> (r: String)
    requires
        lo <= hi <= cs.len(),
    ensures
        r@ == cs@.subrange(lo as int, hi as int),
{
    let mut s = String::new();
    let mut i: usize = lo;
    while i < hi
        invariant
            lo <= i <= hi <= cs.len(),
            s@ == cs@.subrange(lo as int, i as int),
        decreases hi - i,
    {
        push_char(&mut s, cs[i]);
        proof {
            assert(s@ =~= cs@.subrange(lo as int, i + 1));
        }
        i = i + 1;
    }
    s
}

/// Reads the line `cs[lo..hi]` into the entries.
fn read_line(cs: &Vec<char>, lo: usize, hi: usize, table: &mut KeyedTable<String>) -> (r: Result<
    (),
    String,
>)
    requires
        lo <= hi <= cs.len(),
    ensures
        with_toml_line(
            Ok(texts_of(old(table)@)),
            strip_cr(cs@.subrange(lo as int, hi as int)),
        ) == match r {
            Ok(()) => Ok::<Map<Seq<char>, Seq<char>>, Seq<char>>(texts_of(final(table)@)),
            Err(e) => Err(e@),
        },
{
    let ghost raw = cs@.subrange(lo as int, hi as int);
    let end: usize = if hi > lo && cs[hi - 1] == '\r' {
        hi - 1
    } else {
        hi
    };
    let ghost line = cs@.subrange(lo as int, end as int);
    assert(line == strip_cr(raw)) by {
        if hi > lo && cs@[hi - 1] == '\r' {
            assert(raw.drop_last() =~= line);
        } else {
            assert(raw =~= line);
        }
    }
    let a = skip_blanks_forward(cs, lo, end);
    let b = skip_blanks_back(cs, a, end);
    let ghost t = cs@.subrange(a as int, b as int);
    assert(t == trim_end(trim_start(line)));
    if a == b || cs[a] == '#' {
        return Ok(());
    }
    let q = match find_eq(cs, a, b) {
        Some(q) => q,
        None => {
            let l = text_between(cs, lo, end);
            return Err(concat("invalid line: ", l.as_str()));
        },
    };
    let kb = skip_blanks_back(cs, a, q);
    let va = skip_blanks_forward(cs, q + 1, b);
    proof {
        assert(t.take(q - a) =~= cs@.subrange(a as int, q as int));
        assert(t.skip(q - a + 1) =~= cs@.subrange(q + 1, b as int));
    }
    let ghost k = cs@.subrange(a as int, kb as int);
    let ghost v = cs@.subrange(va as int, b as int);
    assert(line_entry(line) == if is_bare_key(k) && v.len() > 0 {
        Some(Some((k, v)))
    } else {
        None::<Option<(Seq<char>, Seq<char>)>>
    });
    if !bare_key_between(cs, a, kb) || va == b {
        let l = text_between(cs, lo, end);
        return Err(concat("invalid line: ", l.as_str()));
    }
    let key = text_between(cs, a, kb);
    let value = text_between(cs, va, b);
    if table.contains_key(key.as_str()) {
        let m = concat("duplicate key `", key.as_str());
        return Err(concat(m.as_str(), "`"));
    }
    let ghost before = table@;
    table.insert(key, value);
    proof {
        assert(texts_of(table@) =~= texts_of(before).insert(k, v));
    }
    Ok(())
}

/// Once reading has failed, the rest of the text changes nothing.
proof fn lemma_scan_err(s: Seq<char>, cur: Seq<char>, e: Seq<char>)
    ensures
        toml_scan(s, cur, Err(e)) == Err::<Map<Seq<char>, Seq<char>>, Seq<char>>(e),
    decreases s.len(),
{
    if s.len() > 0 {
        if s[0] == '\n' {
            lemma_scan_err(s.drop_first(), Seq::empty(), e);
        } else {
            lemma_scan_err(s.drop_first(), cur.push(s[0]), e);
        }
    }
}

/// The entries of a configuration file's text: every line that is an entry
/// `key = value`, with a bare key and blanks around key and value dropped;
/// blank lines and comments are skipped. A line that is neither, or a key
/// set twice, is an error that names it.
pub fn config_entries(text: &str) -> (r: Result<KeyedTable<String>, String>)
    ensures
        match r {
            Ok(t) => toml_entries(text@) == Ok::<Map<Seq<char>, Seq<char>>, Seq<char>>(
                texts_of(t@),
            ),
            Err(e) => toml_entries(text@) == Err::<Map<Seq<char>, Seq<char>>, Seq<char>>(e@),
        },
{
    let cs = chars_of(text);
    let mut table: KeyedTable<String> = KeyedTable::new();
    proof {
        assert(texts_of(table@) =~= Map::<Seq<char>, Seq<char>>::empty());
        assert(cs@.skip(0) =~= cs@);
        assert(cs@.subrange(0, 0) =~= Seq::<char>::empty());
    }
    let mut start: usize = 0;
    let mut i: usize = 0;
    while i < cs.len()
        invariant
            start <= i <= cs.len(),
            cs@ == text@,
            toml_entries(text@) == toml_scan(
                cs@.skip(i as int),
                cs@.subrange(start as int, i as int),
                Ok(texts_of(table@)),
            ),
        decreases cs.len() - i,
    {
        proof {
            assert(cs@.skip(i as int).drop_first() =~= cs@.skip(i + 1));
        }
        if cs[i] == '\n' {
            match read_line(&cs, start, i, &mut table) {
                Err(e) => {
                    proof {
                        lemma_scan_err(cs@.skip(i + 1), Seq::empty(), e@);
                    }
                    return Err(e);
                },
                Ok(()) => {},
            }
            start = i + 1;
            proof {
                assert(cs@.subrange(start as int, i + 1) =~= Seq::<char>::empty());
            }
        } else {
            proof {
                assert(cs@.subrange(start as int, i as int).push(cs@[i as int]) =~= cs@.subrange(
                    start as int,
                    i + 1,
                ));
            }
        }
        i = i + 1;
    }
    proof {
        assert(cs@.skip(i as int) =~= Seq::<char>::empty());
    }
    if start < cs.len() {
        match read_line(&cs, start, cs.len(), &mut table) {
            Err(e) => {
                return Err(e);
            },
            Ok(()) => {},
        }
    }
    Ok(table)
}


/// The `u64` setting `key` of the entries.
fn u64_setting(table: &KeyedTable<String>, key: &str) -> (r: Result<u64, String>)
    ensures
        u64_field(texts_of(table@), key@) == match r {
            Ok(n) => Ok::<u64, Seq<char>>(n),
            Err(e) => Err(e@),
        },
{
    match table.get(key) {
        None => {
            let m = concat("missing field `", key);
            Err(concat(m.as_str(), "`"))
        },
        Some(v) => match parse_u64(v.as_str()) {
            Some(n) => Ok(n),
            None => {
                let m = concat("invalid value for `", key);
                let m = concat(m.as_str(), "`: ");
                Err(concat(m.as_str(), v.as_str()))
            },
        },
    }
}

/// The `usize` setting `key` of the entries.
fn usize_setting(table: &KeyedTable<String>, key: &str) -> (r: Result<usize, String>)
    ensures
        usize_field(texts_of(table@), key@) == match r {
            Ok(n) => Ok::<usize, Seq<char>>(n),
            Err(e) => Err(e@),
        },
{
    match table.get(key) {
        None => {
            let m = concat("missing field `", key);
            Err(concat(m.as_str(), "`"))
        },
        Some(v) => match parse_usize(v.as_str()) {
            Some(n) => Ok(n),
            None => {
                let m = concat("invalid value for `", key);
                let m = concat(m.as_str(), "`: ");
                Err(concat(m.as_str(), v.as_str()))
            },
        },
    }
}

/// The configuration that a file's text sets: each of the six settings
/// `connection_timeout_secs`, `stream_timeout_secs`, `cleanup_interval_secs`,
/// `max_fd_usage`, `max_shell_command_length` and `shell_env_timeout_secs`
/// must be set to a decimal number; other keys are ignored. The error names
/// the first line, key or setting that is wrong.
pub fn config_from_toml_text(text: &str) -> (r: Result<KideConfig, String>)
    ensures
        config_from_toml(text@) == match r {
            Ok(c) => Ok::<KideConfig, Seq<char>>(c),
            Err(e) => Err(e@),
        },
{
    let table = match config_entries(text) {
        Ok(t) => t,
        Err(e) => return Err(e),
    };
    let a = match u64_setting(&table, "connection_timeout_secs") {
        Ok(n) => n,
        Err(e) => return Err(e),
    };
    let b = match u64_setting(&table, "stream_timeout_secs") {
        Ok(n) => n,
        Err(e) => return Err(e),
    };
    let c = match u64_setting(&table, "cleanup_interval_secs") {
        Ok(n) => n,
        Err(e) => return Err(e),
    };
    let d = match usize_setting(&table, "max_fd_usage") {
        Ok(n) => n,
        Err(e) => return Err(e),
    };
    let f = match usize_setting(&table, "max_shell_command_length") {
        Ok(n) => n,
        Err(e) => return Err(e),
    };
    let g = match u64_setting(&table, "shell_env_timeout_secs") {
        Ok(n) => n,
        Err(e) => return Err(e),
    };
    Ok(KideConfig {
        connection_timeout: Duration::from_secs(a),
        stream_timeout: Duration::from_secs(b),
        cleanup_interval: Duration::from_secs(c),
        max_fd_usage: d,
        max_shell_command_length: f,
        shell_env_timeout: Duration::from_secs(g),
    })
}

/// Appends the line `key = n` to `s`.
fn push_entry(s: &mut String, key: &str, n: u64)
    ensures
        final(s)@ == old(s)@ + entry_text(key@, n as nat) + seq!['\n'],
{
    push_str(s, key);
    push_str(s, " = ");
    push_decimal(s, n);
    push_char(s, '\n');
    proof {
        reveal_strlit(" = ");
        assert(old(s)@ + key@ + " = "@ + decimal(n as nat) + seq!['\n'] =~= old(s)@ + entry_text(
            key@,
            n as nat,
        ) + seq!['\n']);
    }
}

/// The text of `config` as a configuration file, which
/// `config_from_toml_text` reads back to the same configuration.
pub fn config_to_toml(config: &KideConfig) -> (r: String)
    ensures
        r@ == config_toml(*config),
{
    let mut s = owned("# Kide configuration");
    push_char(&mut s, '\n');
    push_entry(&mut s, "connection_timeout_secs", config.connection_timeout.secs);
    push_entry(&mut s, "stream_timeout_secs", config.stream_timeout.secs);
    push_entry(&mut s, "cleanup_interval_secs", config.cleanup_interval.secs);
    push_entry(&mut s, "max_fd_usage", config.max_fd_usage as u64);
    push_entry(&mut s, "max_shell_command_length", config.max_shell_command_length as u64);
    push_entry(&mut s, "shell_env_timeout_secs", config.shell_env_timeout.secs);
    s
}


/// A text with no `=` has no first `=`.
proof fn lemma_no_eq_pos(s: Seq<char>)
    requires
        forall|i: int| 0 <= i < s.len() ==> s[i] != '=',
    ensures
        eq_pos(s) is None,
    decreases s.len(),
{
    if s.len() > 0 {
        lemma_no_eq_pos(s.drop_last());
    }
}

/// Characters without a line break are read into the unfinished line.
proof fn lemma_scan_chunk(
    a: Seq<char>,
    rest: Seq<char>,
    cur: Seq<char>,
    acc: Result<Map<Seq<char>, Seq<char>>, Seq<char>>,
)
    requires
        forall|i: int| 0 <= i < a.len() ==> a[i] != '\n',
    ensures
        toml_scan(a + rest, cur, acc) == toml_scan(rest, cur + a, acc),
    decreases a.len(),
{
    if a.len() == 0 {
        assert(a + rest =~= rest);
        assert(cur + a =~= cur);
    } else {
        assert((a + rest)[0] == a[0]);
        assert((a + rest).drop_first() =~= a.drop_first() + rest);
        assert(cur.push(a[0]) + a.drop_first() =~= cur + a);
        lemma_scan_chunk(a.drop_first(), rest, cur.push(a[0]), acc);
    }
}

/// A whole line is read into the entries.
proof fn lemma_scan_line(
    line: Seq<char>,
    rest: Seq<char>,
    acc: Result<Map<Seq<char>, Seq<char>>, Seq<char>>,
)
    requires
        forall|i: int| 0 <= i < line.len() ==> line[i] != '\n',
    ensures
        toml_scan(line + (seq!['\n'] + rest), Seq::empty(), acc) == toml_scan(
            rest,
            Seq::empty(),
            with_toml_line(acc, strip_cr(line)),
        ),
{
    let tail = seq!['\n'] + rest;
    lemma_scan_chunk(line, tail, Seq::empty(), acc);
    assert(Seq::<char>::empty() + line =~= line);
    assert(tail[0] == '\n');
    assert(tail.drop_first() =~= rest);
}

/// An entry line written for a bare key reads back as that key and the
/// number's decimal text.
proof fn lemma_entry_line(k: Seq<char>, n: nat)
    requires
        is_bare_key(k),
    ensures
        line_entry(entry_text(k, n)) == Some(Some((k, decimal(n)))),
        strip_cr(entry_text(k, n)) == entry_text(k, n),
        forall|i: int| 0 <= i < entry_text(k, n).len() ==> entry_text(k, n)[i] != '\n',
{
    let d = decimal(n);
    lemma_decimal_parses(n);
    let l = entry_text(k, n);
    let kl = k.len() as int;
    assert(l.len() == kl + 3 + d.len());
    assert forall|i: int| 0 <= i < l.len() implies l[i] != '\n' by {
        if i < kl {
            assert(l[i] == k[i]);
            assert(is_key_char(k[i]));
        } else if i >= kl + 3 {
            assert(l[i] == d[i - kl - 3]);
            assert(crate::numbers::is_digit(d[i - kl - 3]));
        }
    }
    assert(l.last() == d.last());
    assert(crate::numbers::is_digit(d[d.len() - 1]));
    assert(l[0] == k[0]);
    assert(is_key_char(k[0]));
    assert(trim_start(l) == l);
    assert(trim_end(l) == l);
    assert(forall|i: int| 0 <= i < kl ==> is_key_char(#[trigger] k[i]));
    let pre = l.take(kl + 1);
    assert(pre =~= k + seq![' ']);
    assert forall|i: int| 0 <= i < pre.len() implies pre[i] != '=' by {
        if i < kl {
            assert(pre[i] == k[i]);
            assert(is_key_char(k[i]));
        }
    }
    lemma_no_eq_pos(pre);
    assert(l.take(kl + 2).drop_last() =~= pre);
    assert(l.take(kl + 2).last() == '=');
    assert(eq_pos(l.take(kl + 2)) == Some(kl + 1));
    lemma_eq_pos_extends(l, kl + 2);
    assert(l.take(kl + 1) == pre);
    assert(pre.drop_last() =~= k);
    assert(trim_end(pre) == trim_end(k));
    assert(k.last() == k[kl - 1]);
    assert(is_key_char(k[kl - 1]));
    assert(trim_end(k) == k);
    let post = l.skip(kl + 2);
    assert(post =~= seq![' '] + d);
    assert(post.drop_first() =~= d);
    assert(crate::numbers::is_digit(d[0]));
    assert(trim_start(d) == d);
    assert(trim_start(post) == d);
}

/// The heading comment of a saved configuration is skipped.
proof fn lemma_header_line()
    ensures
        line_entry(config_header()) == Some(None::<(Seq<char>, Seq<char>)>),
        strip_cr(config_header()) == config_header(),
        forall|i: int| 0 <= i < config_header().len() ==> config_header()[i] != '\n',
{
    reveal_strlit("# Kide configuration");
    let h = config_header();
    assert(h.last() == 'n');
    assert(trim_start(h) == h);
    assert(trim_end(h) == h);
}

/// The entries of a saved configuration: each setting's key with the
/// decimal text of its value.
pub open spec fn saved_entries(c: KideConfig) -> Map<Seq<char>, Seq<char>> {
    Map::<Seq<char>, Seq<char>>::empty().insert(
        "connection_timeout_secs"@,
        decimal(c.connection_timeout.secs as nat),
    ).insert("stream_timeout_secs"@, decimal(c.stream_timeout.secs as nat)).insert(
        "cleanup_interval_secs"@,
        decimal(c.cleanup_interval.secs as nat),
    ).insert("max_fd_usage"@, decimal(c.max_fd_usage as nat)).insert(
        "max_shell_command_length"@,
        decimal(c.max_shell_command_length as nat),
    ).insert("shell_env_timeout_secs"@, decimal(c.shell_env_timeout.secs as nat))
}

/// The text of a saved configuration reads as its entries.
#[verifier::spinoff_prover]
#[verifier::rlimit(40)]
proof fn lemma_saved_text_entries(c: KideConfig)
    ensures
        toml_entries(config_toml(c)) == Ok::<Map<Seq<char>, Seq<char>>, Seq<char>>(
            saved_entries(c),
        ),
{
    reveal_strlit("connection_timeout_secs");
    reveal_strlit("stream_timeout_secs");
    reveal_strlit("cleanup_interval_secs");
    reveal_strlit("max_fd_usage");
    reveal_strlit("max_shell_command_length");
    reveal_strlit("shell_env_timeout_secs");
    let k1 = "connection_timeout_secs"@;
    let k2 = "stream_timeout_secs"@;
    let k3 = "cleanup_interval_secs"@;
    let k4 = "max_fd_usage"@;
    let k5 = "max_shell_command_length"@;
    let k6 = "shell_env_timeout_secs"@;
    assert(is_bare_key(k1));
    assert(is_bare_key(k2));
    assert(is_bare_key(k3));
    assert(is_bare_key(k4));
    assert(is_bare_key(k5));
    assert(is_bare_key(k6));
    let n1 = c.connection_timeout.secs as nat;
    let n2 = c.stream_timeout.secs as nat;
    let n3 = c.cleanup_interval.secs as nat;
    let n4 = c.max_fd_usage as nat;
    let n5 = c.max_shell_command_length as nat;
    let n6 = c.shell_env_timeout.secs as nat;
    let e1 = entry_text(k1, n1);
    let e2 = entry_text(k2, n2);
    let e3 = entry_text(k3, n3);
    let e4 = entry_text(k4, n4);
    let e5 = entry_text(k5, n5);
    let e6 = entry_text(k6, n6);
    lemma_header_line();
    lemma_entry_line(k1, n1);
    lemma_entry_line(k2, n2);
    lemma_entry_line(k3, n3);
    lemma_entry_line(k4, n4);
    lemma_entry_line(k5, n5);
    lemma_entry_line(k6, n6);
    let nl = seq!['\n'];
    let empty = Seq::<char>::empty();
    let r6 = e6 + (nl + empty);
    let r5 = e5 + (nl + r6);
    let r4 = e4 + (nl + r5);
    let r3 = e3 + (nl + r4);
    let r2 = e2 + (nl + r3);
    let r1 = e1 + (nl + r2);
    let r0 = config_header() + (nl + r1);
    assert(config_toml(c) =~= r0);
    let m0 = Map::<Seq<char>, Seq<char>>::empty();
    let m1 = m0.insert(k1, decimal(n1));
    let m2 = m1.insert(k2, decimal(n2));
    let m3 = m2.insert(k3, decimal(n3));
    let m4 = m3.insert(k4, decimal(n4));
    let m5 = m4.insert(k5, decimal(n5));
    lemma_scan_line(config_header(), r1, Ok(m0));
    lemma_scan_line(e1, r2, Ok(m0));
    lemma_scan_line(e2, r3, Ok(m1));
    lemma_scan_line(e3, r4, Ok(m2));
    lemma_scan_line(e4, r5, Ok(m3));
    lemma_scan_line(e5, r6, Ok(m4));
    lemma_scan_line(e6, empty, Ok(m5));
}

/// A configuration that was saved loads back unchanged: reading the text
/// that `config_to_toml` writes gives the same configuration, when its
/// timeouts are whole seconds, the unit in which the file holds them.
pub proof fn lemma_saved_config_loads_back(c: KideConfig)
    requires
        whole_seconds(c),
    ensures
        config_from_toml(config_toml(c)) == Ok::<KideConfig, Seq<char>>(c),
{
    lemma_saved_text_entries(c);
    reveal_strlit("connection_timeout_secs");
    reveal_strlit("stream_timeout_secs");
    reveal_strlit("cleanup_interval_secs");
    reveal_strlit("max_fd_usage");
    reveal_strlit("max_shell_command_length");
    reveal_strlit("shell_env_timeout_secs");
    lemma_decimal_parses(c.connection_timeout.secs as nat);
    lemma_decimal_parses(c.stream_timeout.secs as nat);
    lemma_decimal_parses(c.cleanup_interval.secs as nat);
    lemma_decimal_parses(c.max_fd_usage as nat);
    lemma_decimal_parses(c.max_shell_command_length as nat);
    lemma_decimal_parses(c.shell_env_timeout.secs as nat);
    let m = saved_entries(c);
    assert(m["connection_timeout_secs"@] == decimal(c.connection_timeout.secs as nat));
    assert(m["stream_timeout_secs"@] == decimal(c.stream_timeout.secs as nat));
    assert(m["cleanup_interval_secs"@] == decimal(c.cleanup_interval.secs as nat));
    assert(m["max_fd_usage"@] == decimal(c.max_fd_usage as nat));
    assert(m["max_shell_command_length"@] == decimal(c.max_shell_command_length as nat));
    assert(m["shell_env_timeout_secs"@] == decimal(c.shell_env_timeout.secs as nat));
}

} // verus!
