//! The environment of the user's login shell: which shell is asked, how its
//! `env` output is read, which variables the application takes over, and the
//! search path used when the shell cannot be asked.
use vstd::prelude::*;
use crate::ordering::{join_strings, seq_join, views};
use crate::security::input_sanitizer::{char_alphanumeric, is_alphanumeric};
use crate::table::KeyedTable;
use crate::text::{
    chars_of, concat, owned, seq_contains, seq_starts_with, str_contains, str_eq, str_starts_with,
    string_from_chars,
};

verus! {

/// The shell to ask: the `SHELL` variable's value, or `/bin/bash`.
pub fn login_shell(shell_var: Option<String>) -> (r: String)
    ensures
        match shell_var {
            Some(s) => r == s,
            None => r@ == "/bin/bash"@,
        },
{
    match shell_var {
        Some(s) => s,
        None => owned("/bin/bash"),
    }
}

/// The arguments that make the shell print its environment: a login,
/// interactive run for zsh and bash, a plain command for other shells.
pub fn shell_env_args(shell: &str) -> (r: Vec<&'static str>)
    ensures
        (seq_contains(shell@, "zsh"@) || seq_contains(shell@, "bash"@)) ==> r@.len() == 4 && r@[0]@
            == "-l"@ && r@[1]@ == "-i"@ && r@[2]@ == "-c"@ && r@[3]@ == "env"@,
        !(seq_contains(shell@, "zsh"@) || seq_contains(shell@, "bash"@)) ==> r@.len() == 2
            && r@[0]@ == "-c"@ && r@[1]@ == "env"@,
{
    let mut r: Vec<&'static str> = Vec::new();
    if str_contains(shell, "zsh") || str_contains(shell, "bash") {
        r.push("-l");
        r.push("-i");
    }
    r.push("-c");
    r.push("env");
    r
}

/// The error of a shell that failed, with what it wrote to standard error.
pub fn shell_failed(stderr: &str) -> (r: String)
    ensures
        r@ == "Shell command failed: "@ + stderr@,
{
    concat("Shell command failed: ", stderr)
}

/// A line without the carriage return that ends it, if any.
pub open spec fn strip_cr(l: Seq<char>) -> Seq<char> {
    if l.len() > 0 && l.last() == '\r' {
        l.drop_last()
    } else {
        l
    }
}

/// The position of the first `=` in a line, if any.
pub open spec fn eq_pos(line: Seq<char>) -> Option<int>
    decreases line.len(),
{
    if line.len() == 0 {
        None
    } else {
        match eq_pos(line.drop_last()) {
            Some(p) => Some(p),
            None => if line.last() == '=' {
                Some(line.len() - 1)
            } else {
                None
            },
        }
    }
}

/// Whether a variable name holds only alphanumeric characters and
/// underscores.
pub open spec fn valid_var_name(k: Seq<char>) -> bool {
    forall|i: int| 0 <= i < k.len() ==> char_alphanumeric(#[trigger] k[i]) || k[i] == '_'
}

/// The variables after reading one line: a line `NAME=value` with a valid
/// name sets the variable; other lines are skipped.
pub open spec fn with_line(m: Map<Seq<char>, Seq<char>>, line: Seq<char>) -> Map<Seq<char>, Seq<char>> {
    match eq_pos(line) {
        Some(p) => {
            let k = line.take(p);
            if valid_var_name(k) {
                m.insert(k, line.skip(p + 1))
            } else {
                m
            }
        },
        None => m,
    }
}

/// The variables after reading the rest `s` of the output, with `cur` the
/// unfinished line and `m` the variables so far. Lines end at a newline, a
/// carriage return before it is dropped, and a last line without a newline
/// counts when it is not empty.
pub open spec fn env_scan(s: Seq<char>, cur: Seq<char>, m: Map<Seq<char>, Seq<char>>) -> Map<
    Seq<char>,
    Seq<char>,
>
    decreases s.len(),
{
    if s.len() == 0 {
        if cur.len() == 0 {
            m
        } else {
            with_line(m, cur)
        }
    } else if s[0] == '\n' {
        env_scan(s.drop_first(), Seq::empty(), with_line(m, strip_cr(cur)))
    } else {
        env_scan(s.drop_first(), cur.push(s[0]), m)
    }
}

/// The variables that an `env` output sets.
pub open spec fn shell_env_of(output: Seq<char>) -> Map<Seq<char>, Seq<char>> {
    env_scan(output, Seq::empty(), Map::empty())
}

/// The texts of a table of strings.
pub open spec fn texts_of(m: Map<Seq<char>, String>) -> Map<Seq<char>, Seq<char>> {
    Map::new(|k: Seq<char>| m.contains_key(k), |k: Seq<char>| m[k]@)
}

pub(crate) proof fn lemma_eq_pos_extends(line: Seq<char>, j: int)
    requires
        0 <= j <= line.len(),
        eq_pos(line.take(j)) is Some,
    ensures
        eq_pos(line) == eq_pos(line.take(j)),
    decreases line.len() - j,
{
    if j < line.len() {
        let l2 = line.take(j + 1);
        assert(l2.drop_last() =~= line.take(j));
        lemma_eq_pos_extends(line, j + 1);
    } else {
        assert(line.take(j) =~= line);
    }
}

pub(crate) proof fn lemma_eq_pos_bounds(line: Seq<char>)
    ensures
        eq_pos(line) matches Some(p) ==> 0 <= p < line.len() && line[p] == '=' && eq_pos(line.take(p))
            is None,
    decreases line.len(),
{
    if line.len() > 0 {
        lemma_eq_pos_bounds(line.drop_last());
        match eq_pos(line.drop_last()) {
            Some(p) => {
                assert(line.take(p) =~= line.drop_last().take(p));
            },
            None => {
                assert(line.take(line.len() - 1) =~= line.drop_last());
            },
        }
    }
}

/// Reads one line into the variables.
fn add_line(vars: &mut KeyedTable<String>, line: &Vec<char>)
    ensures
        texts_of(final(vars)@) == with_line(texts_of(old(vars)@), line@),
{
    let ghost l = line@;
    let mut p: usize = 0;
    while p < line.len() && line[p] != '='
        invariant
            l == line@,
            p <= line.len(),
            eq_pos(l.take(p as int)) is None,
        decreases line.len() - p,
    {
        proof {
            assert(l.take(p + 1).drop_last() =~= l.take(p as int));
        }
        p = p + 1;
    }
    if p == line.len() {
        proof {
            assert(l.take(p as int) =~= l);
        }
        return;
    }
    proof {
        assert(l.take(p + 1).drop_last() =~= l.take(p as int));
        assert(eq_pos(l.take(p + 1)) == Some(p as int));
        lemma_eq_pos_extends(l, p + 1);
    }
    let mut key: Vec<char> = Vec::new();
    let mut valid = true;
    let mut i: usize = 0;
    while i < p
        invariant
            l == line@,
            i <= p < line.len(),
            key@ == l.take(i as int),
            valid == (forall|j: int| 0 <= j < i ==> char_alphanumeric(#[trigger] l[j]) || l[j] == '_'),
        decreases p - i,
    {
        let c = line[i];
        let ok = is_alphanumeric(c) || c == '_';
        valid = valid && ok;
        key.push(c);
        proof {
            assert(key@ =~= l.take(i + 1));
        }
        i = i + 1;
    }
    proof {
        let k = l.take(p as int);
        assert forall|j: int| 0 <= j < k.len() implies #[trigger] k[j] == l[j] by {}
        if valid {
            assert forall|j: int| 0 <= j < k.len() implies char_alphanumeric(#[trigger] k[j]) || k[j]
                == '_' by {
                assert(k[j] == l[j]);
            }
        } else {
            let j = choose|j: int| 0 <= j < p && !(char_alphanumeric(#[trigger] l[j]) || l[j] == '_');
            assert(k[j] == l[j]);
        }
        assert(valid == valid_var_name(k));
    }
    if !valid {
        return;
    }
    let mut value: Vec<char> = Vec::new();
    let mut j: usize = p + 1;
    while j < line.len()
        invariant
            l == line@,
            p < j <= line.len(),
            value@ == l.subrange(p + 1, j as int),
        decreases line.len() - j,
    {
        value.push(line[j]);
        proof {
            assert(value@ =~= l.subrange(p + 1, j + 1));
        }
        j = j + 1;
    }
    let ghost before = vars@;
    let k = string_from_chars(&key);
    let v = string_from_chars(&value);
    vars.insert(k, v);
    proof {
        assert(l.subrange(p + 1, l.len() as int) =~= l.skip(p + 1));
        assert(texts_of(vars@) =~= texts_of(before).insert(l.take(p as int), l.skip(p + 1)));
    }
}

/// The variables that the shell's `env` output sets: each line
/// `NAME=value` whose name holds only alphanumeric characters and
/// underscores, the value being everything after the first `=`; a later
/// line wins.
pub fn parse_shell_env(output: &str) -> (r: KeyedTable<String>)
    ensures
        texts_of(r@) == shell_env_of(output@),
{
    let cs = chars_of(output);
    let ghost s = output@;
    let mut vars: KeyedTable<String> = KeyedTable::new();
    let mut cur: Vec<char> = Vec::new();
    let mut i: usize = 0;
    proof {
        assert(texts_of(vars@) =~= Map::<Seq<char>, Seq<char>>::empty());
        assert(s.skip(0) =~= s);
    }
    while i < cs.len()
        invariant
            cs@ == s,
            i <= cs.len(),
            env_scan(s.skip(i as int), cur@, texts_of(vars@)) == shell_env_of(s),
        decreases cs.len() - i,
    {
        let c = cs[i];
        proof {
            assert(s.skip(i as int).drop_first() =~= s.skip(i + 1));
            assert(s.skip(i as int)[0] == c);
        }
        if c == '\n' {
            if cur.len() > 0 && cur[cur.len() - 1] == '\r' {
                cur.pop();
            }
            add_line(&mut vars, &cur);
            cur = Vec::new();
        } else {
            cur.push(c);
        }
        i = i + 1;
    }
    proof {
        assert(s.skip(i as int) =~= Seq::<char>::empty());
    }
    if cur.len() > 0 {
        add_line(&mut vars, &cur);
    }
    vars
}

/// The variables taken over from the shell: the search path, home, user,
/// the cloud credentials and the kubeconfig, and every variable of AWS,
/// Google Cloud, Azure or Kubernetes tools.
pub open spec fn is_inherited(key: Seq<char>) -> bool {
    key == "PATH"@ || key == "HOME"@ || key == "USER"@ || key == "AWS_PROFILE"@ || key
        == "AWS_DEFAULT_REGION"@ || key == "GOOGLE_APPLICATION_CREDENTIALS"@ || key == "KUBECONFIG"@
        || seq_starts_with(key, "AWS_"@) || seq_starts_with(key, "GOOGLE_"@) || seq_starts_with(
        key,
        "AZURE_"@,
    ) || seq_starts_with(key, "KUBE"@)
}

/// Whether the application takes the variable over from the shell.
pub fn is_inherited_var(key: &str) -> (r: bool)
    ensures
        r == is_inherited(key@),
{
    str_eq(key, "PATH") || str_eq(key, "HOME") || str_eq(key, "USER") || str_eq(key, "AWS_PROFILE")
        || str_eq(key, "AWS_DEFAULT_REGION") || str_eq(key, "GOOGLE_APPLICATION_CREDENTIALS")
        || str_eq(key, "KUBECONFIG") || str_starts_with(key, "AWS_") || str_starts_with(key, "GOOGLE_")
        || str_starts_with(key, "AZURE_") || str_starts_with(key, "KUBE")
}

/// The variables of `shell_env` that are taken over, in the table's order.
pub fn inherited_variables(shell_env: &KeyedTable<String>) -> (r: Vec<(String, String)>)
    ensures
        forall|i: int|
            0 <= i < r@.len() ==> shell_env@.contains_key((#[trigger] r@[i]).0@) && is_inherited(
                r@[i].0@,
            ) && r@[i].1@ == shell_env@[r@[i].0@]@,
        forall|k: Seq<char>|
            #[trigger] shell_env@.contains_key(k) && is_inherited(k) ==> exists|i: int|
                0 <= i < r@.len() && r@[i].0@ == k,
        forall|i: int, j: int| 0 <= i < j < r@.len() ==> (#[trigger] r@[i]).0@ != (#[trigger] r@[j]).0@,
{
    let keys = shell_env.keys();
    let mut r: Vec<(String, String)> = Vec::new();
    let ghost mut src: Seq<int> = Seq::empty();
    let mut i: usize = 0;
    while i < keys.len()
        invariant
            i <= keys.len(),
            views(keys@) == shell_env.key_list(),
            shell_env.key_list().to_set() == shell_env@.dom(),
            shell_env.key_list().no_duplicates(),
            src.len() == r@.len(),
            forall|j: int| 0 <= j < r@.len() ==> 0 <= #[trigger] src[j] < i && views(keys@)[src[j]] == r@[j].0@,
            forall|a: int, b: int| 0 <= a < b < r@.len() ==> (#[trigger] r@[a]).0@ != (#[trigger] r@[b]).0@,
            forall|j: int|
                0 <= j < r@.len() ==> shell_env@.contains_key((#[trigger] r@[j]).0@) && is_inherited(
                    r@[j].0@,
                ) && r@[j].1@ == shell_env@[r@[j].0@]@,
            forall|j: int|
                0 <= j < i && is_inherited(#[trigger] views(keys@)[j]) ==> exists|w: int|
                    0 <= w < r@.len() && r@[w].0@ == views(keys@)[j],
        decreases keys.len() - i,
    {
        let k = keys[i].as_str();
        proof {
            assert(views(keys@)[i as int] == k@);
            assert(shell_env.key_list().contains(k@));
        }
        if is_inherited_var(k) {
            match shell_env.get(k) {
                Some(v) => {
                    let ghost before = r@;
                    r.push((owned(k), owned(v.as_str())));
                    proof {
                        assert(r@[before.len() as int].0@ == k@);
                        assert forall|j: int| 0 <= j < before.len() implies before[j].0@ != k@ by {
                            assert(views(keys@)[src[j]] != views(keys@)[i as int]);
                        }
                        src = src.push(i as int);
                        assert forall|j: int| 0 <= j < r@.len() implies 0 <= #[trigger] src[j] < i + 1
                            && views(keys@)[src[j]] == r@[j].0@ by {
                            if j < before.len() {
                                assert(r@[j] == before[j]);
                            }
                        }
                        assert forall|a: int, b: int| 0 <= a < b < r@.len() implies (#[trigger] r@[a]).0@
                            != (#[trigger] r@[b]).0@ by {
                            assert(r@[a] == before[a]);
                            if b < before.len() {
                                assert(r@[b] == before[b]);
                            }
                        }
                        assert forall|j: int|
                            0 <= j < i && is_inherited(#[trigger] views(keys@)[j]) implies exists|w: int|
                                0 <= w < r@.len() && r@[w].0@ == views(keys@)[j] by {
                            let w = choose|w: int| 0 <= w < before.len() && before[w].0@ == views(keys@)[j];
                            assert(r@[w] == before[w]);
                        }
                    }
                },
                None => {
                    assert(false);
                },
            }
        }
        i = i + 1;
    }
    proof {
        assert forall|k: Seq<char>| #[trigger] shell_env@.contains_key(k) && is_inherited(k) implies exists|
            i: int,
        | 0 <= i < r@.len() && r@[i].0@ == k by {
            assert(shell_env.key_list().to_set().contains(k));
            let j = choose|j: int| 0 <= j < shell_env.key_list().len() && shell_env.key_list()[j] == k;
            assert(views(keys@)[j] == k);
        }
    }
    r
}

/// The directories tried when the shell cannot be asked, before the
/// current search path: the usual places of command-line tools, then the
/// user's `~/.local/bin` when the home directory is known.
pub open spec fn fallback_dirs(home: Option<Seq<char>>) -> Seq<Seq<char>> {
    let base = seq![
        "/usr/local/bin"@,
        "/opt/homebrew/bin"@,
        "/usr/bin"@,
        "/bin"@,
        "/usr/local/aws-cli/v2/current/bin"@,
        "/snap/bin"@,
        "/usr/local/google-cloud-sdk/bin"@,
    ];
    match home {
        Some(h) => base.push(h + "/.local/bin"@),
        None => base,
    }
}

/// The search path used when the shell cannot be asked: the fallback
/// directories that the current path does not already contain (as text),
/// then the current path if it is not empty, joined by colons.
pub open spec fn fallback_path_text(current: Seq<char>, home: Option<Seq<char>>) -> Seq<char> {
    let kept = fallback_dirs(home).filter(|d: Seq<char>| !seq_contains(current, d));
    let all = if current.len() > 0 {
        kept.push(current)
    } else {
        kept
    };
    seq_join(all, ":"@)
}

/// The search path used when the shell cannot be asked.
pub fn fallback_path(current_path: &str, home: Option<&str>) -> (r: String)
    ensures
        r@ == fallback_path_text(
            current_path@,
            match home {
                Some(h) => Some(h@),
                None => None,
            },
        ),
{
    let ghost h = match home {
        Some(h) => Some(h@),
        None => None,
    };
    let mut dirs: Vec<String> = Vec::new();
    dirs.push(owned("/usr/local/bin"));
    dirs.push(owned("/opt/homebrew/bin"));
    dirs.push(owned("/usr/bin"));
    dirs.push(owned("/bin"));
    dirs.push(owned("/usr/local/aws-cli/v2/current/bin"));
    dirs.push(owned("/snap/bin"));
    dirs.push(owned("/usr/local/google-cloud-sdk/bin"));
    match home {
        Some(hm) => dirs.push(concat(hm, "/.local/bin")),
        None => {},
    }
    proof {
        assert(views(dirs@) =~= fallback_dirs(h));
    }
    let ghost pred = |d: Seq<char>| !seq_contains(current_path@, d);
    let mut kept: Vec<String> = Vec::new();
    let mut i: usize = 0;
    while i < dirs.len()
        invariant
            i <= dirs.len(),
            views(dirs@) == fallback_dirs(h),
            pred == (|d: Seq<char>| !seq_contains(current_path@, d)),
            views(kept@) == views(dirs@).take(i as int).filter(pred),
        decreases dirs.len() - i,
    {
        let ghost before = kept@;
        proof {
            assert(views(dirs@).take(i + 1) =~= views(dirs@).take(i as int).push(dirs@[i as int]@));
            views(dirs@).take(i as int).lemma_filter_push(dirs@[i as int]@, pred);
        }
        if !str_contains(current_path, dirs[i].as_str()) {
            kept.push(owned(dirs[i].as_str()));
            proof {
                assert(views(kept@) =~= views(before).push(dirs@[i as int]@));
            }
        }
        i = i + 1;
    }
    proof {
        assert(views(dirs@).take(dirs.len() as int) =~= views(dirs@));
    }
    if current_path.unicode_len() > 0 {
        let ghost before = kept@;
        kept.push(owned(current_path));
        proof {
            assert(views(kept@) =~= views(before).push(current_path@));
        }
    }
    join_strings(&kept, ":")
}

} // verus!
