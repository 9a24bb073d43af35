//! The checks and texts of the system commands: opening links, updating a
//! resource from YAML, and reading a resource's events and a node's pods.
use vstd::prelude::*;
use crate::ordering::{lex_le, push_str, str_le};
use crate::security::input_sanitizer::{
    field_problem_text, label_problem, yaml_problem, InputSanitizer, MAX_NAMESPACE_LENGTH,
    MAX_RESOURCE_NAME_LENGTH, yaml_to_json, remove_json_field, remove_metadata_field, yaml_parses,
    yaml_converts, yaml_top_keys, yaml_metadata_keys, json_object_keys, json_metadata_keys,
    YamlJsonError,
};
use crate::text::{concat, owned, seq_starts_with, str_eq, str_starts_with};

verus! {

/// Whether a link may be opened: it must start with `http://` or
/// `https://`.
pub open spec fn is_openable_url(url: Seq<char>) -> bool {
    seq_starts_with(url, "http://"@) || seq_starts_with(url, "https://"@)
}

/// Checks a link before it is opened.
pub fn validate_url(url: &str) -> (r: Result<(), String>)
    ensures
        is_openable_url(url@) ==> r is Ok,
        !is_openable_url(url@) ==> (r matches Err(m) && m@
            == "Invalid URL: must start with http:// or https://"@),
{
    if !str_starts_with(url, "http://") && !str_starts_with(url, "https://") {
        return Err(owned("Invalid URL: must start with http:// or https://"));
    }
    Ok(())
}

/// The error of a link that could not be opened.
pub fn open_url_failed(error: &str) -> (r: String)
    ensures
        r@ == "Failed to open URL: "@ + error@,
{
    concat("Failed to open URL: ", error)
}

/// The first problem with an update request, as the text reported: the
/// resource name, then the namespace if one is given, then the YAML.
pub open spec fn update_problem(name: Seq<char>, name_len: nat, namespace: Option<(Seq<char>, nat)>, yaml: Seq<
    char,
>, yaml_len: nat) -> Option<Seq<char>> {
    match label_problem("resource name"@, name, name_len, MAX_RESOURCE_NAME_LENGTH as nat) {
        Some(p) => Some("Invalid resource name: "@ + field_problem_text(p)),
        None => match namespace {
            Some((ns, ns_len)) => match label_problem("namespace"@, ns, ns_len, MAX_NAMESPACE_LENGTH as nat) {
                Some(p) => Some("Invalid namespace: "@ + field_problem_text(p)),
                None => match yaml_problem(yaml, yaml_len) {
                    Some(p) => Some("Invalid YAML content: "@ + field_problem_text(p)),
                    None => None,
                },
            },
            None => match yaml_problem(yaml, yaml_len) {
                Some(p) => Some("Invalid YAML content: "@ + field_problem_text(p)),
                None => None,
            },
        },
    }
}

/// Checks an update request's resource name, namespace and YAML content.
pub fn check_update_request(
    sanitizer: &InputSanitizer,
    resource_name: &str,
    namespace: Option<&str>,
    yaml_content: &str,
) -> (r: Result<(), String>)
    ensures
        match update_problem(
            resource_name@,
            resource_name.len() as nat,
            match namespace {
                Some(ns) => Some((ns@, ns.len() as nat)),
                None => None,
            },
            yaml_content@,
            yaml_content.len() as nat,
        ) {
            None => r is Ok,
            Some(m) => r matches Err(e) && e@ == m,
        },
{
    match sanitizer.validate_resource_name(resource_name) {
        Ok(()) => {},
        Err(e) => return Err(concat("Invalid resource name: ", e.message().as_str())),
    }
    match namespace {
        Some(ns) => match sanitizer.validate_namespace(ns) {
            Ok(()) => {},
            Err(e) => return Err(concat("Invalid namespace: ", e.message().as_str())),
        },
        None => {},
    }
    match sanitizer.validate_yaml_content(yaml_content) {
        Ok(()) => {},
        Err(e) => return Err(concat("Invalid YAML content: ", e.message().as_str())),
    }
    Ok(())
}

/// The metadata fields that the cluster manages and an update must not
/// carry.
pub open spec fn is_read_only_metadata(field: Seq<char>) -> bool {
    field == "managedFields"@ || field == "resourceVersion"@ || field == "generation"@ || field
        == "uid"@ || field == "selfLink"@ || field == "creationTimestamp"@ || field
        == "deletionTimestamp"@ || field == "deletionGracePeriodSeconds"@ || field == "finalizers"@
        || field == "ownerReferences"@
}

/// Whether a metadata field is removed from an update.
pub fn is_read_only_metadata_field(field: &str) -> (r: bool)
    ensures
        r == is_read_only_metadata(field@),
{
    str_eq(field, "managedFields") || str_eq(field, "resourceVersion") || str_eq(field, "generation")
        || str_eq(field, "uid") || str_eq(field, "selfLink") || str_eq(field, "creationTimestamp")
        || str_eq(field, "deletionTimestamp") || str_eq(field, "deletionGracePeriodSeconds")
        || str_eq(field, "finalizers") || str_eq(field, "ownerReferences")
}

/// Whether a top-level field is removed from an update: the status, which
/// the controllers manage.
pub fn is_read_only_field(field: &str) -> (r: bool)
    ensures
        r == (field@ == "status"@),
{
    str_eq(field, "status")
}

/// The namespace an update goes to: only pods can be updated, and a pod
/// needs a namespace.
pub fn update_namespace(resource_kind: &str, namespace: Option<&str>) -> (r: Result<String, String>)
    ensures
        resource_kind@ == "Pod"@ ==> match namespace {
            Some(ns) => r matches Ok(n) && n@ == ns@,
            None => r matches Err(m) && m@ == "Namespace is required for Pod resources"@,
        },
        resource_kind@ != "Pod"@ ==> (r matches Err(m) && m@
            == "Update operation not yet supported for resource kind: "@ + resource_kind@),
{
    if str_eq(resource_kind, "Pod") {
        match namespace {
            Some(ns) => Ok(owned(ns)),
            None => Err(owned("Namespace is required for Pod resources")),
        }
    } else {
        Err(concat("Update operation not yet supported for resource kind: ", resource_kind))
    }
}

/// The top-level keys that an update keeps: all but the status.
pub open spec fn strip_read_only(keys: Option<Set<Seq<char>>>) -> Option<Set<Seq<char>>> {
    match keys {
        Some(k) => Some(k.filter(|f: Seq<char>| f != "status"@)),
        None => None,
    }
}

/// The metadata keys that an update keeps: all but the read-only ones.
pub open spec fn strip_read_only_metadata(keys: Option<Set<Seq<char>>>) -> Option<Set<Seq<char>>> {
    match keys {
        Some(k) => Some(k.filter(|f: Seq<char>| !is_read_only_metadata(f))),
        None => None,
    }
}

/// A patch that updates a resource: the namespace it goes to and the JSON
/// body sent, without the fields that the cluster manages.
#[derive(Debug)]
pub struct UpdatePatch {
    pub namespace: String,
    pub body: serde_json::Value,
}

/// Removes the read-only fields from the metadata of an update's body.
fn strip_metadata(body: &mut serde_json::Value)
    ensures
        json_metadata_keys(*final(body)) == strip_read_only_metadata(json_metadata_keys(*old(body))),
        json_object_keys(*final(body)) == json_object_keys(*old(body)),
{
    let ghost m0 = json_metadata_keys(*body);
    remove_metadata_field(body, "managedFields");
    remove_metadata_field(body, "resourceVersion");
    remove_metadata_field(body, "generation");
    remove_metadata_field(body, "uid");
    remove_metadata_field(body, "selfLink");
    remove_metadata_field(body, "creationTimestamp");
    remove_metadata_field(body, "deletionTimestamp");
    remove_metadata_field(body, "deletionGracePeriodSeconds");
    remove_metadata_field(body, "finalizers");
    remove_metadata_field(body, "ownerReferences");
    proof {
        match m0 {
            Some(k) => {
                let m = json_metadata_keys(*body)->0;
                assert forall|f: Seq<char>| m.contains(f) <==> k.contains(f) && !is_read_only_metadata(f) by {}
                assert(m =~= k.filter(|f: Seq<char>| !is_read_only_metadata(f)));
            },
            None => {},
        }
    }
}

/// The patch that updates a resource from its YAML text. The text is turned
/// into JSON (an error says whether parsing or converting failed, with the
/// reason); the read-only metadata fields and the status are removed; then
/// the kind and namespace are checked as `update_namespace` does.
pub fn build_update_patch(resource_kind: &str, namespace: Option<&str>, yaml_content: &str) -> (r:
    Result<UpdatePatch, String>)
    ensures
        r is Ok <==> resource_kind@ == "Pod"@ && namespace is Some && yaml_parses(yaml_content@)
            && yaml_converts(yaml_content@),
        !yaml_parses(yaml_content@) ==> (r matches Err(m) && "Invalid YAML: "@.is_prefix_of(m@)),
        yaml_parses(yaml_content@) && !yaml_converts(yaml_content@) ==> (r matches Err(m)
            && "Failed to convert YAML to JSON: "@.is_prefix_of(m@)),
        yaml_parses(yaml_content@) && yaml_converts(yaml_content@) && resource_kind@ != "Pod"@
            ==> (r matches Err(m) && m@ == "Update operation not yet supported for resource kind: "@
            + resource_kind@),
        yaml_parses(yaml_content@) && yaml_converts(yaml_content@) && resource_kind@ == "Pod"@
            && namespace is None ==> (r matches Err(m) && m@
            == "Namespace is required for Pod resources"@),
        r matches Ok(p) ==> (json_metadata_keys(p.body) matches Some(m) ==> !m.contains("managedFields"@) && !m.contains("resourceVersion"@) && !m.contains("generation"@) && !m.contains("uid"@) && !m.contains("selfLink"@) && !m.contains("creationTimestamp"@) && !m.contains("deletionTimestamp"@) && !m.contains("deletionGracePeriodSeconds"@) && !m.contains("finalizers"@) && !m.contains("ownerReferences"@)),
        r matches Ok(p) ==> namespace matches Some(ns) && p.namespace@ == ns@
            && json_object_keys(p.body) == strip_read_only(yaml_top_keys(yaml_content@))
            && json_metadata_keys(p.body) == strip_read_only_metadata(
            yaml_metadata_keys(yaml_content@),
        ),
{
    let mut body = match yaml_to_json(yaml_content) {
        Ok(v) => v,
        Err(YamlJsonError::Parse(e)) => {
            let m = concat("Invalid YAML: ", e.as_str());
            proof {
                reveal_strlit("Invalid YAML: ");
                assert("Invalid YAML: "@.is_prefix_of(m@)) by {
                    assert(m@.subrange(0, 14) =~= "Invalid YAML: "@);
                }
            }
            return Err(m);
        },
        Err(YamlJsonError::Convert(e)) => {
            let m = concat("Failed to convert YAML to JSON: ", e.as_str());
            proof {
                reveal_strlit("Failed to convert YAML to JSON: ");
                assert("Failed to convert YAML to JSON: "@.is_prefix_of(m@)) by {
                    assert(m@.subrange(0, 32) =~= "Failed to convert YAML to JSON: "@);
                }
            }
            return Err(m);
        },
    };
    let ghost top0 = json_object_keys(body);
    strip_metadata(&mut body);
    proof {
        reveal_strlit("status");
        reveal_strlit("metadata");
    }
    assert("status"@ != "metadata"@) by {
        assert("status"@.len() == 6);
        assert("metadata"@.len() == 8);
    }
    remove_json_field(&mut body, "status");
    proof {
        match top0 {
            Some(k) => {
                assert(json_object_keys(body)->0 =~= k.filter(|f: Seq<char>| f != "status"@));
            },
            None => {},
        }
    }
    let ns = match update_namespace(resource_kind, namespace) {
        Ok(ns) => ns,
        Err(e) => return Err(e),
    };
    proof {
        reveal_strlit("Pod");
    }
    Ok(UpdatePatch { namespace: ns, body })
}

/// An update never carries a field that the cluster manages: of the
/// metadata keys given, `managedFields`, `resourceVersion`, `generation`,
/// `uid`, `selfLink`, `creationTimestamp`, `deletionTimestamp`,
/// `deletionGracePeriodSeconds`, `finalizers` and `ownerReferences` are
/// dropped and every other key is kept; of the top-level keys only
/// `status` is dropped.
pub proof fn lemma_update_drops_managed_fields(k: Set<Seq<char>>)
    ensures
        strip_read_only_metadata(Some(k)) == Some(k.remove("managedFields"@).remove("resourceVersion"@).remove("generation"@).remove("uid"@).remove("selfLink"@).remove("creationTimestamp"@).remove("deletionTimestamp"@).remove("deletionGracePeriodSeconds"@).remove("finalizers"@).remove("ownerReferences"@)),
        strip_read_only(Some(k)) == Some(k.remove("status"@)),
{
    assert(strip_read_only_metadata(Some(k))->0 =~= k.remove("managedFields"@).remove("resourceVersion"@).remove("generation"@).remove("uid"@).remove("selfLink"@).remove("creationTimestamp"@).remove("deletionTimestamp"@).remove("deletionGracePeriodSeconds"@).remove("finalizers"@).remove("ownerReferences"@));
    assert(strip_read_only(Some(k))->0 =~= k.remove("status"@));
}

/// The field selector of the pods on a node.
pub fn node_pods_selector(node_name: &str) -> (r: String)
    ensures
        r@ == "spec.nodeName="@ + node_name@,
{
    concat("spec.nodeName=", node_name)
}

/// The field selector of the events of one object.
pub fn events_selector(resource_name: &str, resource_kind: &str) -> (r: String)
    ensures
        r@ == "involvedObject.name="@ + resource_name@ + ",involvedObject.kind="@ + resource_kind@,
{
    let mut r = concat("involvedObject.name=", resource_name);
    push_str(&mut r, ",involvedObject.kind=");
    push_str(&mut r, resource_kind);
    r
}

/// An event as the user interface shows it; timestamps are RFC 3339 texts.
#[derive(Debug)]
pub struct EventRow {
    pub uid: String,
    pub event_type: String,
    pub reason: String,
    pub message: String,
    pub component: Option<String>,
    pub first_timestamp: Option<String>,
    pub last_timestamp: Option<String>,
    pub count: i32,
}

impl EventRow {
    /// An event from what the cluster reports: missing texts are empty and
    /// a missing count is one.
    pub fn new(
        uid: Option<String>,
        event_type: Option<String>,
        reason: Option<String>,
        message: Option<String>,
        component: Option<String>,
        first_timestamp: Option<String>,
        last_timestamp: Option<String>,
        count: Option<i32>,
    ) -> (r: Self)
        ensures
            r.uid@ == text_or_empty(uid),
            r.event_type@ == text_or_empty(event_type),
            r.reason@ == text_or_empty(reason),
            r.message@ == text_or_empty(message),
            r.component == component,
            r.first_timestamp == first_timestamp,
            r.last_timestamp == last_timestamp,
            r.count == match count {
                Some(c) => c,
                None => 1i32,
            },
    {
        EventRow {
            uid: or_empty(uid),
            event_type: or_empty(event_type),
            reason: or_empty(reason),
            message: or_empty(message),
            component,
            first_timestamp,
            last_timestamp,
            count: match count {
                Some(c) => c,
                None => 1,
            },
        }
    }
}

/// The text of an optional value, empty when there is none.
pub open spec fn text_or_empty(v: Option<String>) -> Seq<char> {
    match v {
        Some(s) => s@,
        None => Seq::empty(),
    }
}

fn or_empty(v: Option<String>) -> (r: String)
    ensures
        r@ == text_or_empty(v),
{
    match v {
        Some(s) => s,
        None => String::new(),
    }
}

/// The time an event is ordered by: its last timestamp, else its first,
/// else the empty text.
pub open spec fn event_time(e: EventRow) -> Seq<char> {
    match e.last_timestamp {
        Some(t) => t@,
        None => match e.first_timestamp {
            Some(t) => t@,
            None => Seq::empty(),
        },
    }
}

/// The time an event is ordered by.
fn event_time_of(e: &EventRow) -> (r: &str)
    ensures
        r@ == event_time(*e),
{
    proof {
        reveal_strlit("");
    }
    match &e.last_timestamp {
        Some(t) => t.as_str(),
        None => match &e.first_timestamp {
            Some(t) => t.as_str(),
            None => "",
        },
    }
}

/// Whether events are in newest-first order.
pub open spec fn newest_first(s: Seq<EventRow>) -> bool {
    forall|i: int, j: int| 0 <= i < j < s.len() ==> lex_le(event_time(s[j]), event_time(s[i]))
}

/// `r` holds the events `events` rearranged, `idx` giving the position in
/// `events` of each item of `r`, and events of the same time stand in `r`
/// in the order they had in `events`.
pub open spec fn stable_rearrangement(r: Seq<EventRow>, events: Seq<EventRow>, idx: Seq<int>) -> bool {
    &&& idx.len() == r.len()
    &&& forall|k: int| 0 <= k < r.len() ==> 0 <= #[trigger] idx[k] < events.len() && r[k] == events[idx[k]]
    &&& forall|k1: int, k2: int|
        #![trigger idx[k1], idx[k2]]
        0 <= k1 < k2 < r.len() ==> idx[k1] != idx[k2]
    &&& forall|k1: int, k2: int|
        #![trigger idx[k1], idx[k2]]
        0 <= k1 < k2 < r.len() && event_time(r[k1]) == event_time(r[k2]) ==> idx[k1] < idx[k2]
}

/// The events, newest first; events of the same time keep their order.
pub fn sort_events_newest_first(events: Vec<EventRow>) -> (r: Vec<EventRow>)
    ensures
        newest_first(r@),
        r@.to_multiset() == events@.to_multiset(),
        exists|idx: Seq<int>| #[trigger] stable_rearrangement(r@, events@, idx),
{
    proof {
        crate::ordering::lemma_lex_total_ordering();
    }
    let ghost all = events@;
    let ghost mut done: Seq<EventRow> = Seq::empty();
    let ghost mut idx: Seq<int> = Seq::empty();
    let mut rest = events;
    let mut out: Vec<EventRow> = Vec::new();
    while rest.len() > 0
        invariant
            done + rest@ == all,
            newest_first(out@),
            out@.to_multiset() == done.to_multiset(),
            vstd::relations::total_ordering(crate::ordering::lex_order()),
            stable_rearrangement(out@, done, idx),
        decreases rest.len(),
    {
        let e = rest.remove(0);
        proof {
            assert(done.push(e) + rest@ =~= all);
        }
        let mut pos: usize = out.len();
        while pos > 0 && !str_le(event_time_of(&e), event_time_of(&out[pos - 1]))
            invariant
                pos <= out.len(),
                forall|k: int| pos <= k < out.len() ==> !lex_le(event_time(e), event_time(out@[k])),
            decreases pos,
        {
            pos = pos - 1;
        }
        let ghost before = out@;
        let ghost te = event_time(e);
        proof {
            let lo = crate::ordering::lex_order();
            assert forall|k: int| pos <= k < before.len() implies lex_le(
                event_time(before[k]),
                te,
            ) by {
                assert(lo(event_time(before[k]), te) || lo(te, event_time(before[k])));
            }
            assert forall|k: int| pos <= k < before.len() implies event_time(before[k]) != te by {
                assert(lo(te, te));
            }
        }
        out.insert(pos, e);
        proof {
            let lo = crate::ordering::lex_order();
            assert(out@ =~= before.insert(pos as int, e));
            assert forall|i: int, j: int| 0 <= i < j < out@.len() implies lex_le(
                event_time(out@[j]),
                event_time(out@[i]),
            ) by {
                if j < pos {
                    assert(lex_le(event_time(before[j]), event_time(before[i])));
                } else if j == pos {
                    assert(lex_le(te, event_time(before[pos - 1])));
                    if i < pos - 1 {
                        assert(lex_le(event_time(before[pos - 1]), event_time(before[i])));
                        assert(lo(te, event_time(before[pos - 1])) && lo(
                            event_time(before[pos - 1]),
                            event_time(before[i]),
                        ));
                    }
                } else if i < pos {
                    assert(lex_le(event_time(before[j - 1]), event_time(before[i])));
                } else if i == pos {
                    assert(lex_le(event_time(before[j - 1]), te));
                } else {
                    assert(lex_le(event_time(before[j - 1]), event_time(before[i - 1])));
                }
            }
            vstd::seq_lib::to_multiset_insert(before, pos as int, e);
            done.to_multiset_ensures();
            let n = done.len() as int;
            let old_done = done;
            let old_idx = idx;
            done = done.push(e);
            idx = idx.insert(pos as int, n);
            assert forall|k: int| 0 <= k < out@.len() implies 0 <= #[trigger] idx[k] < done.len()
                && out@[k] == done[idx[k]] by {
                if k < pos {
                    assert(idx[k] == old_idx[k]);
                    assert(out@[k] == before[k]);
                } else if k == pos {
                    assert(idx[k] == n);
                } else {
                    assert(idx[k] == old_idx[k - 1]);
                    assert(out@[k] == before[k - 1]);
                }
            }
            assert forall|k1: int, k2: int| 0 <= k1 < k2 < out@.len() implies idx[k1] != idx[k2] && (
            event_time(out@[k1]) == event_time(out@[k2]) ==> idx[k1] < idx[k2]) by {
                if k1 < pos {
                    assert(idx[k1] == old_idx[k1]);
                    if k2 < pos {
                        assert(idx[k2] == old_idx[k2]);
                    } else if k2 == pos {
                        assert(idx[k2] == n);
                    } else {
                        assert(idx[k2] == old_idx[k2 - 1]);
                    }
                } else if k1 == pos {
                    assert(idx[k1] == n);
                    assert(idx[k2] == old_idx[k2 - 1]);
                    assert(out@[k2] == before[k2 - 1]);
                    assert(event_time(before[k2 - 1]) != te);
                } else {
                    assert(idx[k1] == old_idx[k1 - 1]);
                    assert(idx[k2] == old_idx[k2 - 1]);
                }
            }
            assert(stable_rearrangement(out@, done, idx));
        }
    }
    assert(done =~= all);
    out
}

} // verus!
