//! Validation of names, namespaces, labels and YAML typed by the user, and
//! reduction of free text to a name-safe form.
use vstd::prelude::*;
use crate::numbers::{decimal, u64_to_decimal};
use crate::ordering::push_str;
use crate::text::{byte_len, chars_of, concat, owned, string_from_chars};

verus! {

/// The longest resource name, in bytes.
pub const MAX_RESOURCE_NAME_LENGTH: usize = 253;

/// The longest namespace, in bytes.
pub const MAX_NAMESPACE_LENGTH: usize = 63;

/// The largest YAML document, in bytes.
pub const MAX_YAML_LENGTH: usize = 1048576;

/// The longest label key (prefix and name), in bytes.
pub const MAX_LABEL_KEY_LENGTH: usize = 316;

/// The longest label value, in bytes.
pub const MAX_LABEL_VALUE_LENGTH: usize = 63;

/// A lower-case ASCII letter or an ASCII digit.
pub open spec fn is_lower_alnum(c: char) -> bool {
    ('a' <= c && c <= 'z') || ('0' <= c && c <= '9')
}

/// An ASCII letter or digit.
pub open spec fn is_ascii_alnum(c: char) -> bool {
    ('a' <= c && c <= 'z') || ('A' <= c && c <= 'Z') || ('0' <= c && c <= '9')
}

/// An RFC 1123 label: lower-case letters, digits and `-`, starting and
/// ending with a letter or digit (`^[a-z0-9]([a-z0-9\-]*[a-z0-9])?$`).
pub open spec fn is_dns_label(s: Seq<char>) -> bool {
    &&& s.len() > 0
    &&& is_lower_alnum(s[0])
    &&& is_lower_alnum(s.last())
    &&& forall|i: int| 0 <= i < s.len() ==> is_lower_alnum(#[trigger] s[i]) || s[i] == '-'
}

/// A label name segment: letters, digits, `-`, `_` and `.`, starting and
/// ending with a letter or digit
/// (`[a-zA-Z0-9]([a-zA-Z0-9\-_.]*[a-zA-Z0-9])?`).
pub open spec fn is_label_segment(s: Seq<char>) -> bool {
    &&& s.len() > 0
    &&& is_ascii_alnum(s[0])
    &&& is_ascii_alnum(s.last())
    &&& forall|i: int|
        0 <= i < s.len() ==> is_ascii_alnum(#[trigger] s[i]) || s[i] == '-' || s[i] == '_'
            || s[i] == '.'
}

/// A label key: a segment, optionally preceded by a segment and `/`.
pub open spec fn is_label_key(s: Seq<char>) -> bool {
    is_label_segment(s) || exists|i: int|
        0 <= i < s.len() && #[trigger] s[i] == '/' && is_label_segment(s.take(i))
            && is_label_segment(s.skip(i + 1))
}

/// A label value: empty, or a segment.
pub open spec fn is_label_value(s: Seq<char>) -> bool {
    s.len() == 0 || is_label_segment(s)
}

/// What a validation error says, as plain values.
pub enum FieldProblem {
    EmptyInput(Seq<char>),
    TooLong(Seq<char>, nat),
    InvalidFormat(Seq<char>),
    InvalidYaml,
}

/// Why user input was refused.
#[derive(Debug)]
pub enum ValidationError {
    EmptyInput(String),
    TooLong(String, usize),
    InvalidFormat(String),
    InvalidYaml,
}

impl View for ValidationError {
    type V = FieldProblem;

    open spec fn view(&self) -> FieldProblem {
        match self {
            ValidationError::EmptyInput(f) => FieldProblem::EmptyInput(f@),
            ValidationError::TooLong(f, m) => FieldProblem::TooLong(f@, *m as nat),
            ValidationError::InvalidFormat(f) => FieldProblem::InvalidFormat(f@),
            ValidationError::InvalidYaml => FieldProblem::InvalidYaml,
        }
    }
}

/// The text of a validation error.
pub open spec fn field_problem_text(p: FieldProblem) -> Seq<char> {
    match p {
        FieldProblem::EmptyInput(f) => "Empty input for "@ + f,
        FieldProblem::TooLong(f, m) => f + " too long (max "@ + decimal(m) + " characters)"@,
        FieldProblem::InvalidFormat(f) => "Invalid format for "@ + f,
        FieldProblem::InvalidYaml => "Invalid YAML content"@,
    }
}

impl ValidationError {
    /// The human-readable text of this error.
    pub fn message(&self) -> (r: String)
        ensures
            r@ == field_problem_text(self@),
    {
        match self {
            ValidationError::EmptyInput(f) => concat("Empty input for ", f.as_str()),
            ValidationError::TooLong(f, m) => {
                let mut r = concat(f.as_str(), " too long (max ");
                let n = u64_to_decimal(*m as u64);
                push_str(&mut r, n.as_str());
                push_str(&mut r, " characters)");
                r
            },
            ValidationError::InvalidFormat(f) => concat("Invalid format for ", f.as_str()),
            ValidationError::InvalidYaml => owned("Invalid YAML content"),
        }
    }
}

/// The problem with a value that must be a non-empty RFC 1123 label of at
/// most `max` bytes (`len` is its length in bytes), if any.
pub open spec fn label_problem(field: Seq<char>, s: Seq<char>, len: nat, max: nat) -> Option<
    FieldProblem,
> {
    if s.len() == 0 {
        Some(FieldProblem::EmptyInput(field))
    } else if len > max {
        Some(FieldProblem::TooLong(field, max))
    } else if !is_dns_label(s) {
        Some(FieldProblem::InvalidFormat(field))
    } else {
        None
    }
}

/// The problem with a YAML document (`len` is its length in bytes), if any.
pub open spec fn yaml_problem(s: Seq<char>, len: nat) -> Option<FieldProblem> {
    if s.len() == 0 {
        Some(FieldProblem::EmptyInput("YAML content"@))
    } else if len > MAX_YAML_LENGTH {
        Some(FieldProblem::TooLong("YAML content"@, MAX_YAML_LENGTH as nat))
    } else if !yaml_parses(s) {
        Some(FieldProblem::InvalidYaml)
    } else {
        None
    }
}

/// The problem with one label (lengths in bytes), if any.
pub open spec fn label_pair_problem(
    key: Seq<char>,
    key_len: nat,
    value: Seq<char>,
    value_len: nat,
) -> Option<FieldProblem> {
    if key_len > MAX_LABEL_KEY_LENGTH {
        Some(FieldProblem::TooLong("label key"@, MAX_LABEL_KEY_LENGTH as nat))
    } else if value_len > MAX_LABEL_VALUE_LENGTH {
        Some(FieldProblem::TooLong("label value"@, MAX_LABEL_VALUE_LENGTH as nat))
    } else if !is_label_key(key) {
        Some(FieldProblem::InvalidFormat("label key"@))
    } else if !is_label_value(value) {
        Some(FieldProblem::InvalidFormat("label value"@))
    } else {
        None
    }
}

/// The first problem among `labels`, checked in order, if any.
pub open spec fn labels_problem(labels: Seq<(String, String)>) -> Option<FieldProblem>
    decreases labels.len(),
{
    if labels.len() == 0 {
        None
    } else {
        let (k, v) = labels[0];
        match label_pair_problem(k@, byte_len(k@) as nat, v@, byte_len(v@) as nat) {
            Some(p) => Some(p),
            None => labels_problem(labels.drop_first()),
        }
    }
}

/// What std's `char::is_alphanumeric` answers for `c`.
pub uninterp spec fn char_alphanumeric(c: char) -> bool;

/// Whether `c` is alphabetic or numeric in the Unicode sense.
///
/// Trusted: calls std's `char::is_alphanumeric`, documented as "is
/// alphabetic or numeric": the Unicode Alphabetic property, or one of the
/// number categories Nd, Nl and No. Its answer is named
/// `char_alphanumeric`; the one further fact stated is what those Unicode
/// properties give among ASCII characters: exactly the letters and digits
/// qualify. Which other characters qualify is not stated.
#[verifier::external_body]
pub(crate) fn is_alphanumeric(c: char) -> (r: bool)
    ensures
        r == char_alphanumeric(c),
        c <= '\x7F' ==> (r == is_ascii_alnum(c)),
{
    c.is_alphanumeric()
}

/// Whether `text` parses as a YAML document.
pub uninterp spec fn yaml_parses(text: Seq<char>) -> bool;

/// Whether the YAML document of `text` can be turned into a JSON value.
pub uninterp spec fn yaml_converts(text: Seq<char>) -> bool;

/// The keys of the JSON object that the YAML document of `text` turns
/// into, if it turns into an object.
pub uninterp spec fn yaml_top_keys(text: Seq<char>) -> Option<Set<Seq<char>>>;

/// The keys of the object under `metadata` in the JSON value that the YAML
/// document of `text` turns into, if there is such an object.
pub uninterp spec fn yaml_metadata_keys(text: Seq<char>) -> Option<Set<Seq<char>>>;

/// The keys of a JSON value, if it is an object.
pub uninterp spec fn json_object_keys(v: serde_json::Value) -> Option<Set<Seq<char>>>;

/// The keys of the object under `metadata` in a JSON value, if the value is
/// an object and its `metadata` is one.
pub uninterp spec fn json_metadata_keys(v: serde_json::Value) -> Option<Set<Seq<char>>>;

/// A JSON value, as `serde_json` holds it.
#[verifier::external_type_specification]
#[verifier::external_body]
pub struct ExJsonValue(serde_json::Value);

/// Why a YAML text could not be turned into JSON, with the message of the
/// parser or of the converter.
#[derive(Debug)]
pub enum YamlJsonError {
    Parse(String),
    Convert(String),
}

/// The JSON value of the YAML document in `text`.
///
/// Trusted: calls `serde_yaml_ng::from_str` into a `serde_yaml_ng::Value`,
/// then `serde_json::to_value` on it, and passes each one's error on with
/// its message. Whether parsing succeeds is named `yaml_parses`, whether
/// converting does `yaml_converts`, and the keys of the value that comes
/// out, at the top and under `metadata`, `yaml_top_keys` and
/// `yaml_metadata_keys`: all functions of the text alone. The messages are
/// not stated.
#[verifier::external_body]
pub(crate) fn yaml_to_json(text: &str) -> (r: Result<serde_json::Value, YamlJsonError>)
    ensures
        match r {
            Ok(v) => yaml_parses(text@) && yaml_converts(text@) && json_object_keys(v)
                == yaml_top_keys(text@) && json_metadata_keys(v) == yaml_metadata_keys(text@),
            Err(YamlJsonError::Parse(_)) => !yaml_parses(text@),
            Err(YamlJsonError::Convert(_)) => yaml_parses(text@) && !yaml_converts(text@),
        },
{
    match serde_yaml_ng::from_str::<serde_yaml_ng::Value>(text) {
        Ok(y) => serde_json::to_value(&y).map_err(|e| YamlJsonError::Convert(e.to_string())),
        Err(e) => Err(YamlJsonError::Parse(e.to_string())),
    }
}

/// Removes `field` from a JSON value that is an object.
///
/// Trusted: calls `serde_json::Value::as_object_mut` and, on an object,
/// `serde_json::Map::remove`, which takes the key out of the map and leaves
/// the other entries in place.
#[verifier::external_body]
pub(crate) fn remove_json_field(v: &mut serde_json::Value, field: &str)
    ensures
        json_object_keys(*final(v)) == match json_object_keys(*old(v)) {
            Some(keys) => Some(keys.remove(field@)),
            None => None,
        },
        field@ != "metadata"@ ==> json_metadata_keys(*final(v)) == json_metadata_keys(*old(v)),
{
    if let Some(object) = v.as_object_mut() {
        object.remove(field);
    }
}

/// Removes `field` from the object under `metadata`.
///
/// Trusted: calls `serde_json::Value::get_mut` with `"metadata"`, then
/// `as_object_mut` and `serde_json::Map::remove` on what it finds; the
/// other entries, and the top-level keys, stay.
#[verifier::external_body]
pub(crate) fn remove_metadata_field(v: &mut serde_json::Value, field: &str)
    ensures
        json_metadata_keys(*final(v)) == match json_metadata_keys(*old(v)) {
            Some(keys) => Some(keys.remove(field@)),
            None => None,
        },
        json_object_keys(*final(v)) == json_object_keys(*old(v)),
{
    if let Some(metadata) = v.get_mut("metadata") {
        if let Some(object) = metadata.as_object_mut() {
            object.remove(field);
        }
    }
}

/// A character kept by `sanitize_string`.
pub open spec fn is_name_safe(c: char) -> bool {
    if c <= '\x7F' {
        is_ascii_alnum(c) || c == '-' || c == '_' || c == '.'
    } else {
        char_alphanumeric(c)
    }
}

/// The name-safe characters of `s`, at most 253 of them.
pub open spec fn sanitized_name(s: Seq<char>) -> Seq<char> {
    let kept = s.filter(|c: char| is_name_safe(c));
    if kept.len() <= MAX_RESOURCE_NAME_LENGTH {
        kept
    } else {
        kept.take(MAX_RESOURCE_NAME_LENGTH as int)
    }
}

/// Whether every character of `cs` is an ASCII digit or lower-case letter,
/// or `-`, with a letter or digit at both ends.
fn chars_are_dns_label(cs: &Vec<char>) -> (r: bool)
    ensures
        r == is_dns_label(cs@),
{
    if cs.len() == 0 {
        return false;
    }
    let first = cs[0];
    let last = cs[cs.len() - 1];
    if !(('a' <= first && first <= 'z') || ('0' <= first && first <= '9')) {
        return false;
    }
    if !(('a' <= last && last <= 'z') || ('0' <= last && last <= '9')) {
        return false;
    }
    let mut i: usize = 0;
    while i < cs.len()
        invariant
            i <= cs.len(),
            forall|k: int| 0 <= k < i ==> is_lower_alnum(#[trigger] cs@[k]) || cs@[k] == '-',
        decreases cs.len() - i,
    {
        let c = cs[i];
        if !(('a' <= c && c <= 'z') || ('0' <= c && c <= '9') || c == '-') {
            return false;
        }
        i = i + 1;
    }
    true
}

/// Whether `cs[from..to]` is a label segment.
fn chars_are_label_segment(cs: &Vec<char>, from: usize, to: usize) -> (r: bool)
    requires
        from <= to <= cs.len(),
    ensures
        r == is_label_segment(cs@.subrange(from as int, to as int)),
{
    let ghost s = cs@.subrange(from as int, to as int);
    if from == to {
        return false;
    }
    let first = cs[from];
    let last = cs[to - 1];
    if !(('a' <= first && first <= 'z') || ('A' <= first && first <= 'Z') || ('0' <= first && first
        <= '9')) {
        return false;
    }
    if !(('a' <= last && last <= 'z') || ('A' <= last && last <= 'Z') || ('0' <= last && last
        <= '9')) {
        return false;
    }
    let mut i: usize = from;
    while i < to
        invariant
            from <= i <= to,
            to <= cs.len(),
            s == cs@.subrange(from as int, to as int),
            forall|k: int|
                0 <= k < i - from ==> is_ascii_alnum(#[trigger] s[k]) || s[k] == '-' || s[k] == '_'
                    || s[k] == '.',
        decreases to - i,
    {
        let c = cs[i];
        if !(('a' <= c && c <= 'z') || ('A' <= c && c <= 'Z') || ('0' <= c && c <= '9') || c == '-'
            || c == '_' || c == '.') {
            assert(s[i - from] == c);
            return false;
        }
        i = i + 1;
    }
    true
}

/// Whether `s` is a label key.
fn is_valid_label_key(s: &str) -> (r: bool)
    ensures
        r == is_label_key(s@),
{
    let cs = chars_of(s);
    let mut i: usize = 0;
    while i < cs.len()
        invariant
            i <= cs.len(),
            cs@ == s@,
            forall|k: int| 0 <= k < i ==> cs@[k] != '/',
        ensures
            i <= cs.len(),
            forall|k: int| 0 <= k < i ==> cs@[k] != '/',
            i < cs.len() ==> cs@[i as int] == '/',
        decreases cs.len() - i,
    {
        if cs[i] == '/' {
            break;
        }
        i = i + 1;
    }
    assert(cs@.subrange(0, cs.len() as int) =~= s@);
    if i == cs.len() {
        let r = chars_are_label_segment(&cs, 0, cs.len());
        assert(!exists|j: int| 0 <= j < s@.len() && #[trigger] s@[j] == '/' && is_label_segment(s@.take(j)) && is_label_segment(s@.skip(j + 1)));
        return r;
    }
    assert(cs@[i as int] == '/');
    let a = chars_are_label_segment(&cs, 0, i);
    let b = chars_are_label_segment(&cs, i + 1, cs.len());
    assert(cs@.subrange(0, i as int) =~= s@.take(i as int));
    assert(cs@.subrange(i + 1, cs.len() as int) =~= s@.skip(i + 1));
    proof {
        // The whole key holds a '/', so it is no segment; any '/' other than
        // the first leaves a '/' inside the prefix.
        assert(!is_label_segment(s@)) by {
            if is_label_segment(s@) {
                assert(s@[i as int] == '/');
            }
        }
        assert forall|j: int|
            0 <= j < s@.len() && #[trigger] s@[j] == '/' && is_label_segment(s@.take(j))
                && is_label_segment(s@.skip(j + 1)) implies j == i by {
            if j < i {
                assert(cs@[j] != '/');
            } else if j > i {
                assert(s@.take(j)[i as int] == '/');
            }
        }
    }
    a && b
}

/// Validator for names, namespaces, labels and YAML typed by the user.
#[derive(Debug)]
pub struct InputSanitizer {}

impl InputSanitizer {
    pub fn new() -> (r: Self) {
        InputSanitizer {  }
    }

    /// Checks a resource name: non-empty, at most 253 bytes, an RFC 1123
    /// label.
    pub fn validate_resource_name(&self, name: &str) -> (r: Result<(), ValidationError>)
        ensures
            match label_problem(
                "resource name"@,
                name@,
                name.len() as nat,
                MAX_RESOURCE_NAME_LENGTH as nat,
            ) {
                None => r is Ok,
                Some(p) => r matches Err(e) && e@ == p,
            },
    {
        check_label(name, "resource name", MAX_RESOURCE_NAME_LENGTH)
    }

    /// Checks a namespace: non-empty, at most 63 bytes, an RFC 1123 label.
    pub fn validate_namespace(&self, namespace: &str) -> (r: Result<(), ValidationError>)
        ensures
            match label_problem(
                "namespace"@,
                namespace@,
                namespace.len() as nat,
                MAX_NAMESPACE_LENGTH as nat,
            ) {
                None => r is Ok,
                Some(p) => r matches Err(e) && e@ == p,
            },
    {
        check_label(namespace, "namespace", MAX_NAMESPACE_LENGTH)
    }

    /// Checks YAML content: non-empty, at most 1 MiB, and a YAML document.
    pub fn validate_yaml_content(&self, yaml: &str) -> (r: Result<(), ValidationError>)
        ensures
            match yaml_problem(yaml@, yaml.len() as nat) {
                None => r is Ok,
                Some(p) => r matches Err(e) && e@ == p,
            },
    {
        if yaml.unicode_len() == 0 {
            return Err(ValidationError::EmptyInput(owned("YAML content")));
        }
        if yaml.len() > MAX_YAML_LENGTH {
            return Err(ValidationError::TooLong(owned("YAML content"), MAX_YAML_LENGTH));
        }
        match yaml_to_json(yaml) {
            Err(YamlJsonError::Parse(_)) => Err(ValidationError::InvalidYaml),
            _ => Ok(()),
        }
    }

    /// Checks labels in the given order; the first problem found is
    /// reported.
    pub fn validate_labels(&self, labels: &Vec<(String, String)>) -> (r: Result<(), ValidationError>)
        ensures
            match labels_problem(labels@) {
                None => r is Ok,
                Some(p) => r matches Err(e) && e@ == p,
            },
    {
        let mut i: usize = 0;
        assert(labels@.skip(0) =~= labels@);
        while i < labels.len()
            invariant
                i <= labels.len(),
                labels_problem(labels@) == labels_problem(labels@.skip(i as int)),
            decreases labels.len() - i,
        {
            let key = &labels[i].0;
            let value = &labels[i].1;
            proof {
                assert(labels@.skip(i as int)[0] == labels@[i as int]);
                assert(labels@.skip(i as int).drop_first() =~= labels@.skip(i + 1));
            }
            if key.as_str().len() > MAX_LABEL_KEY_LENGTH {
                return Err(ValidationError::TooLong(owned("label key"), MAX_LABEL_KEY_LENGTH));
            }
            if value.as_str().len() > MAX_LABEL_VALUE_LENGTH {
                return Err(ValidationError::TooLong(owned("label value"), MAX_LABEL_VALUE_LENGTH));
            }
            if !is_valid_label_key(key.as_str()) {
                return Err(ValidationError::InvalidFormat(owned("label key")));
            }
            let value_ok = value.as_str().unicode_len() == 0 || {
                let vc = chars_of(value.as_str());
                let ok = chars_are_label_segment(&vc, 0, vc.len());
                assert(vc@.subrange(0, vc.len() as int) =~= value@);
                ok
            };
            if !value_ok {
                return Err(ValidationError::InvalidFormat(owned("label value")));
            }
            i = i + 1;
        }
        Ok(())
    }

    /// The alphanumeric characters of `input` and `-`, `_`, `.`, in order,
    /// at most 253 of them.
    pub fn sanitize_string(&self, input: &str) -> (r: String)
        ensures
            r@ == sanitized_name(input@),
    {
        let cs = chars_of(input);
        let mut kept: Vec<char> = Vec::new();
        let mut i: usize = 0;
        while i < cs.len()
            invariant
                i <= cs.len(),
                cs@ == input@,
                kept@ == input@.take(i as int).filter(|c: char| is_name_safe(c)),
            decreases cs.len() - i,
        {
            let c = cs[i];
            let keep = is_alphanumeric(c) || c == '-' || c == '_' || c == '.';
            proof {
                assert(input@.take(i + 1).drop_last() =~= input@.take(i as int));
                reveal(Seq::filter);
            }
            if keep {
                kept.push(c);
            }
            i = i + 1;
        }
        assert(input@.take(cs.len() as int) =~= input@);
        if kept.len() > MAX_RESOURCE_NAME_LENGTH {
            kept.truncate(MAX_RESOURCE_NAME_LENGTH);
        }
        string_from_chars(&kept)
    }
}

impl Default for InputSanitizer {
    fn default() -> (r: Self) {
        InputSanitizer::new()
    }
}

/// Checks a value that must be a non-empty RFC 1123 label of at most `max`
/// bytes; `field` names it in the error.
fn check_label(s: &str, field: &str, max: usize) -> (r: Result<(), ValidationError>)
    ensures
        match label_problem(field@, s@, s.len() as nat, max as nat) {
            None => r is Ok,
            Some(p) => r matches Err(e) && e@ == p,
        },
{
    if s.unicode_len() == 0 {
        return Err(ValidationError::EmptyInput(owned(field)));
    }
    if s.len() > max {
        return Err(ValidationError::TooLong(owned(field), max));
    }
    let cs = chars_of(s);
    if !chars_are_dns_label(&cs) {
        return Err(ValidationError::InvalidFormat(owned(field)));
    }
    Ok(())
}

/// Every element of `s` satisfies `p`, so filtering by `p` keeps all of it.
proof fn lemma_filter_keeps_all(s: Seq<char>, p: spec_fn(char) -> bool)
    requires
        forall|i: int| 0 <= i < s.len() ==> p(#[trigger] s[i]),
    ensures
        s.filter(p) == s,
    decreases s.len(),
{
    reveal(Seq::filter);
    if s.len() > 0 {
        lemma_filter_keeps_all(s.drop_last(), p);
        assert(s.drop_last().push(s.last()) =~= s);
    }
}

/// Sanitizing is idempotent: sanitizing an already sanitized string
/// changes nothing.
pub proof fn lemma_sanitize_idempotent(s: Seq<char>)
    ensures
        sanitized_name(sanitized_name(s)) == sanitized_name(s),
{
    broadcast use vstd::seq_lib::group_filter_ensures;

    let p = |c: char| is_name_safe(c);
    let kept = s.filter(p);
    let t = sanitized_name(s);
    assert forall|i: int| 0 <= i < t.len() implies p(#[trigger] t[i]) by {
        assert(kept.contains(t[i]));
    }
    lemma_filter_keeps_all(t, p);
}

/// A valid resource name (an RFC 1123 label of at most 253 characters)
/// comes out of sanitizing unchanged.
pub proof fn lemma_valid_name_survives_sanitizing(s: Seq<char>)
    requires
        is_dns_label(s),
        s.len() <= MAX_RESOURCE_NAME_LENGTH,
    ensures
        sanitized_name(s) == s,
{
    let p = |c: char| is_name_safe(c);
    assert forall|i: int| 0 <= i < s.len() implies p(#[trigger] s[i]) by {
        assert(is_lower_alnum(s[i]) || s[i] == '-');
    }
    lemma_filter_keeps_all(s, p);
}

} // verus!
