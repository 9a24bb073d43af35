//! Validation of what a user types into a pod shell, and the choice of the
//! shell command that is started in the pod.
use vstd::prelude::*;
use crate::ordering::views;
use crate::text::{chars_of, concat, owned, push_char, seq_contains, str_eq, string_from_chars};

verus! {

/// The shells that may be started in a pod.
pub open spec fn default_allowed_shells() -> Seq<Seq<char>> {
    seq!["sh"@, "bash"@, "zsh"@]
}

/// The longest input, in bytes, that is passed to a shell by default.
pub const DEFAULT_MAX_COMMAND_LENGTH: usize = 1024;

/// The patterns that are refused in shell input, in the order in which they
/// are looked for.
pub open spec fn dangerous_patterns() -> Seq<Seq<char>> {
    seq![
        ";"@, "&&"@, "||"@, "|"@, ">"@, ">>"@, "<"@, "&"@, "$("@,
        "`"@, "$("@, "${"@, "rm -rf"@, "mkfs"@, "dd if="@, ":(){ :|:& };:"@,
    ]
}

/// The first pattern of `pats` that occurs in `input`.
pub open spec fn first_pattern_in(input: Seq<char>, pats: Seq<Seq<char>>) -> Option<Seq<char>>
    decreases pats.len(),
{
    if pats.len() == 0 {
        None
    } else if seq_contains(input, pats[0]) {
        Some(pats[0])
    } else {
        first_pattern_in(input, pats.drop_first())
    }
}

/// Whether a character is passed on to the shell: printable ASCII, space,
/// newline, carriage return, tab, backspace, delete and escape.
pub open spec fn is_terminal_char(c: char) -> bool {
    ('!' <= c && c <= '~') || c == ' ' || c == '\n' || c == '\r' || c == '\t' || c == '\x08'
        || c == '\x7F' || c == '\x1B'
}

/// Input with every character that is not passed to the shell removed.
pub open spec fn sanitized_input(input: Seq<char>) -> Seq<char> {
    input.filter(|c: char| is_terminal_char(c))
}

/// Why shell input or a shell was refused.
#[derive(Debug)]
pub enum ValidationError {
    InputTooLong,
    DangerousPattern(String),
    InvalidShell(String),
}

/// The text of a validation error.
pub open spec fn validation_error_text(e: ValidationError) -> Seq<char> {
    match e {
        ValidationError::InputTooLong => "Input too long (max 1024 characters)"@,
        ValidationError::DangerousPattern(p) => "Dangerous pattern detected: "@ + p@,
        ValidationError::InvalidShell(s) => "Invalid shell: "@ + s@,
    }
}

impl ValidationError {
    /// The human-readable text of this error.
    pub fn message(&self) -> (r: String)
        ensures
            r@ == validation_error_text(*self),
    {
        match self {
            ValidationError::InputTooLong => owned("Input too long (max 1024 characters)"),
            ValidationError::DangerousPattern(p) => concat("Dangerous pattern detected: ", p.as_str()),
            ValidationError::InvalidShell(s) => concat("Invalid shell: ", s.as_str()),
        }
    }
}

/// Validator for pod shell input and shell selection.
#[derive(Debug, Clone)]
pub struct ShellValidator {
    allowed_shells: Vec<String>,
    max_command_length: usize,
}

impl ShellValidator {
    /// The shells this validator accepts.
    pub closed spec fn allowed(&self) -> Seq<Seq<char>> {
        views(self.allowed_shells@)
    }

    /// The longest input, in bytes, that this validator accepts.
    pub closed spec fn max_length(&self) -> nat {
        self.max_command_length as nat
    }

    /// A validator that accepts `sh`, `bash` and `zsh` and input of up to
    /// 1024 bytes.
    pub fn new() -> (r: Self)
        ensures
            r.allowed() == default_allowed_shells(),
            r.max_length() == DEFAULT_MAX_COMMAND_LENGTH,
    {
        let mut allowed_shells: Vec<String> = Vec::new();
        allowed_shells.push(owned("sh"));
        allowed_shells.push(owned("bash"));
        allowed_shells.push(owned("zsh"));
        let r = ShellValidator { allowed_shells, max_command_length: DEFAULT_MAX_COMMAND_LENGTH };
        assert(r.allowed() =~= default_allowed_shells());
        r
    }

    /// Whether `shell` is one of the accepted shells.
    pub fn is_allowed_shell(&self, shell: &str) -> (r: bool)
        ensures
            r == self.allowed().contains(shell@),
    {
        let mut i: usize = 0;
        while i < self.allowed_shells.len()
            invariant
                i <= self.allowed_shells.len(),
                forall|k: int| 0 <= k < i ==> self.allowed_shells@[k]@ != shell@,
            decreases self.allowed_shells.len() - i,
        {
            if str_eq(self.allowed_shells[i].as_str(), shell) {
                assert(self.allowed()[i as int] == shell@);
                return true;
            }
            i = i + 1;
        }
        assert(!self.allowed().contains(shell@)) by {
            if self.allowed().contains(shell@) {
                let k = choose|k: int| 0 <= k < self.allowed().len() && self.allowed()[k] == shell@;
                assert(self.allowed_shells@[k]@ != shell@);
            }
        }
        false
    }

    /// The command that starts a shell in a pod: the preferred shell when it
    /// is accepted, otherwise `bash` followed by `sh` as fallbacks.
    pub fn get_safe_shell_command(&self, preferred_shell: Option<&str>) -> (r: Vec<String>)
        ensures
            views(r@) == (match preferred_shell {
                Some(shell) => if self.allowed().contains(shell@) {
                    seq![shell@]
                } else {
                    seq!["bash"@, "sh"@]
                },
                None => seq!["bash"@, "sh"@],
            }),
    {
        let mut r: Vec<String> = Vec::new();
        match preferred_shell {
            Some(shell) => {
                if self.is_allowed_shell(shell) {
                    r.push(owned(shell));
                    assert(views(r@) =~= seq![shell@]);
                    return r;
                }
            },
            None => {},
        }
        r.push(owned("bash"));
        r.push(owned("sh"));
        assert(views(r@) =~= seq!["bash"@, "sh"@]);
        r
    }

    /// Checks input typed into a shell. Input longer than the limit (in
    /// bytes) is refused. Input that contains a dangerous pattern is
    /// refused, reported as the first such pattern in list order. Then every
    /// character that is not passed to a terminal is removed, and what is
    /// left is checked again: a dangerous pattern that the removal brought
    /// together, or the phrase "harmful command", is refused too. Else the
    /// cleaned text is returned; it carries none of the dangerous patterns
    /// and is accepted again unchanged (`lemma_accepted_input_is_safe`).
    pub fn validate_input(&self, input: &str) -> (r: Result<String, ValidationError>)
        ensures
            input.len() > self.max_length() ==> r == Err::<String, ValidationError>(
                ValidationError::InputTooLong,
            ),
            input.len() <= self.max_length() ==> match rejection(input@) {
                Some(p) => r matches Err(ValidationError::DangerousPattern(q)) && q@ == p,
                None => r matches Ok(s) && s@ == sanitized_input(input@),
            },
            r matches Ok(s) ==> first_pattern_in(s@, dangerous_patterns()) is None && forall|k: int|
                0 <= k < dangerous_patterns().len() ==> !seq_contains(s@, #[trigger] dangerous_patterns()[k]),
    {
        if input.len() > self.max_command_length {
            return Err(ValidationError::InputTooLong);
        }
        let cs = chars_of(input);
        match first_pattern(&cs) {
            Some(p) => return Err(ValidationError::DangerousPattern(owned(p))),
            None => {},
        }
        let mut kept: Vec<char> = Vec::new();
        let mut i: usize = 0;
        while i < cs.len()
            invariant
                i <= cs.len(),
                cs@ == input@,
                kept@ == sanitized_input(input@.take(i as int)),
            decreases cs.len() - i,
        {
            let c = cs[i];
            let keep = ('!' <= c && c <= '~') || c == ' ' || c == '\n' || c == '\r' || c == '\t'
                || c == '\x08' || c == '\x7F' || c == '\x1B';
            proof {
                assert(input@.take(i + 1).drop_last() =~= input@.take(i as int));
                reveal(Seq::filter);
            }
            if keep {
                kept.push(c);
            }
            i = i + 1;
        }
        assert(input@.take(cs.len() as int) =~= input@);
        match first_pattern(&kept) {
            Some(p) => return Err(ValidationError::DangerousPattern(owned(p))),
            None => {},
        }
        let phrase = chars_of("harmful command");
        if crate::text::chars_contain(&kept, &phrase) {
            return Err(ValidationError::DangerousPattern(owned("harmful command")));
        }
        proof {
            lemma_accepted_input_is_safe(input@);
        }
        Ok(string_from_chars(&kept))
    }

    /// The command that starts an interactive bash with a 256-colour
    /// terminal in a pod.
    pub fn get_initial_command(&self) -> (r: Vec<String>)
        ensures
            views(r@) == seq![
                "/bin/bash"@,
                "-c"@,
                "export TERM=xterm-256color; exec /bin/bash -i"@,
            ],
    {
        let mut r: Vec<String> = Vec::new();
        r.push(owned("/bin/bash"));
        r.push(owned("-c"));
        r.push(owned("export TERM=xterm-256color; exec /bin/bash -i"));
        assert(views(r@) =~= seq![
            "/bin/bash"@,
            "-c"@,
            "export TERM=xterm-256color; exec /bin/bash -i"@,
        ]);
        r
    }
}

impl Default for ShellValidator {
    fn default() -> (r: Self)
        ensures
            r.allowed() == default_allowed_shells(),
            r.max_length() == DEFAULT_MAX_COMMAND_LENGTH,
    {
        ShellValidator::new()
    }
}

/// The first dangerous pattern in `cs`, in list order.
fn first_pattern(cs: &Vec<char>) -> (r: Option<&'static str>)
    ensures
        match first_pattern_in(cs@, dangerous_patterns()) {
            Some(p) => r matches Some(q) && q@ == p,
            None => r is None,
        },
{
    let mut k: usize = 0;
    assert(dangerous_patterns().skip(0) =~= dangerous_patterns());
    while k < 16
        invariant
            k <= 16,
            first_pattern_in(cs@, dangerous_patterns()) == first_pattern_in(
                cs@,
                dangerous_patterns().skip(k as int),
            ),
        decreases 16 - k,
    {
        let pat = dangerous_pattern(k);
        let pc = chars_of(pat);
        assert(dangerous_patterns().skip(k as int)[0] == pat@);
        assert(dangerous_patterns().skip(k as int).drop_first() =~= dangerous_patterns().skip(
            k + 1,
        ));
        if crate::text::chars_contain(cs, &pc) {
            return Some(pat);
        }
        k = k + 1;
    }
    assert(dangerous_patterns().skip(16).len() == 0);
    None
}

/// The phrase that is refused in shell input besides the patterns.
pub open spec fn refused_phrase() -> Seq<char> {
    "harmful command"@
}

/// Why input of an allowed length is refused, if it is: the first dangerous
/// pattern in the input as typed; else the first one in what is left once
/// the characters not passed to a terminal are removed; else the refused
/// phrase, if what is left contains it.
pub open spec fn rejection(input: Seq<char>) -> Option<Seq<char>> {
    match first_pattern_in(input, dangerous_patterns()) {
        Some(p) => Some(p),
        None => match first_pattern_in(sanitized_input(input), dangerous_patterns()) {
            Some(p) => Some(p),
            None => if seq_contains(sanitized_input(input), refused_phrase()) {
                Some(refused_phrase())
            } else {
                None
            },
        },
    }
}

/// A UTF-8 encoding has at least one byte per character.
proof fn lemma_encoding_no_shorter(s: Seq<char>)
    ensures
        s.len() <= vstd::utf8::encode_utf8(s).len(),
    decreases s.len(),
{
    if s.len() > 0 {
        lemma_encoding_no_shorter(s.drop_first());
    }
}

/// What the validator accepts reaches the shell without any dangerous
/// pattern, whatever the input held, and is accepted again unchanged: the
/// text given back contains none of the patterns nor the refused phrase,
/// sanitizing it again changes nothing, and it is no longer in bytes than
/// the input, so it fits the same limit.
pub proof fn lemma_accepted_input_is_safe(input: Seq<char>)
    requires
        rejection(input) is None,
    ensures
        forall|k: int|
            0 <= k < dangerous_patterns().len() ==> !seq_contains(
                sanitized_input(input),
                #[trigger] dangerous_patterns()[k],
            ),
        sanitized_input(sanitized_input(input)) == sanitized_input(input),
        rejection(sanitized_input(input)) is None,
        vstd::utf8::encode_utf8(sanitized_input(input)).len() <= vstd::utf8::encode_utf8(input).len(),
{
    let s = sanitized_input(input);
    assert forall|k: int| 0 <= k < dangerous_patterns().len() implies !seq_contains(
        s,
        #[trigger] dangerous_patterns()[k],
    ) by {
        lemma_no_first_means_none(s, dangerous_patterns(), k);
    }
    lemma_sanitized_is_terminal(input);
    lemma_terminal_filter_keeps_all(s);
    assert(vstd::utf8::is_ascii_chars(s));
    vstd::utf8::is_ascii_chars_encode_utf8(s);
    input.lemma_filter_len(|c: char| is_terminal_char(c));
    lemma_encoding_no_shorter(input);
}

/// Every character left by sanitizing is passed to a terminal.
proof fn lemma_sanitized_is_terminal(s: Seq<char>)
    ensures
        forall|i: int| 0 <= i < sanitized_input(s).len() ==> is_terminal_char(#[trigger] sanitized_input(s)[i]),
    decreases s.len(),
{
    reveal(Seq::filter);
    if s.len() > 0 {
        lemma_sanitized_is_terminal(s.drop_last());
    }
}

proof fn lemma_terminal_filter_keeps_all(s: Seq<char>)
    requires
        forall|i: int| 0 <= i < s.len() ==> is_terminal_char(#[trigger] s[i]),
    ensures
        sanitized_input(s) == s,
    decreases s.len(),
{
    reveal(Seq::filter);
    if s.len() > 0 {
        lemma_terminal_filter_keeps_all(s.drop_last());
        assert(s.drop_last().push(s.last()) =~= s);
    }
}

proof fn lemma_no_first_means_none(input: Seq<char>, pats: Seq<Seq<char>>, k: int)
    requires
        first_pattern_in(input, pats) is None,
        0 <= k < pats.len(),
    ensures
        !seq_contains(input, pats[k]),
    decreases pats.len(),
{
    if k > 0 {
        lemma_no_first_means_none(input, pats.drop_first(), k - 1);
    }
}

/// The `k`-th dangerous pattern.
fn dangerous_pattern(k: usize) -> (r: &'static str)
    requires
        k < 16,
    ensures
        r@ == dangerous_patterns()[k as int],
{
    match k {
        0 => ";",
        1 => "&&",
        2 => "||",
        3 => "|",
        4 => ">",
        5 => ">>",
        6 => "<",
        7 => "&",
        8 => "$(",
        9 => "`",
        10 => "$(",
        11 => "${",
        12 => "rm -rf",
        13 => "mkfs",
        14 => "dd if=",
        _ => ":(){ :|:& };:",
    }
}

} // verus!
