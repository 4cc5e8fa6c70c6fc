use vstd::prelude::*;

use crate::text;

verus! {

/// A JSON value recorded as the detail of an audit event. A number is kept as
/// its JSON text; an object keeps its entries in order.
pub enum AuditDetail {
    Null,
    Bool(bool),
    Number(String),
    String(String),
    Array(Vec<AuditDetail>),
    Object(Vec<AuditEntry>),
}

/// One key and value of a JSON object.
pub struct AuditEntry {
    pub key: String,
    pub value: AuditDetail,
}

/// What an administrator or an endpoint did, as written to the audit log.
pub struct AuditEventDraft {
    pub actor_user_uuid: Option<u128>,
    pub action: String,
    pub object_type: String,
    pub object_uuid: Option<u128>,
    pub outcome: String,
    pub source: String,
    pub detail: Option<AuditDetail>,
}

/// The text that replaces the value of a sensitive key.
pub const REDACTED: &'static str = "[redacted]";

/// A key is sensitive when its lower-cased form mentions a password, a
/// secret, a token or a key.
pub open spec fn sensitive_key(key: Seq<char>) -> bool {
    ||| text::contains_sub(text::lower(key), "password"@)
    ||| text::contains_sub(text::lower(key), "secret"@)
    ||| text::contains_sub(text::lower(key), "token"@)
    ||| text::contains_sub(text::lower(key), "key"@)
}

/// `r` is `d` with the value of every sensitive object key, at any depth,
/// replaced by the text "[redacted]".
pub open spec fn redacts(d: AuditDetail, r: AuditDetail) -> bool
    decreases d,
{
    match d {
        AuditDetail::Array(items) => match r {
            AuditDetail::Array(out) => {
                &&& out@.len() == items@.len()
                &&& forall|i: int|
                    0 <= i < items@.len() ==> redacts(items@[i], #[trigger] out@[i])
            },
            _ => false,
        },
        AuditDetail::Object(entries) => match r {
            AuditDetail::Object(out) => {
                &&& out@.len() == entries@.len()
                &&& forall|i: int|
                    0 <= i < entries@.len() ==> {
                        &&& (#[trigger] out@[i]).key@ == entries@[i].key@
                        &&& if sensitive_key(entries@[i].key@) {
                            out@[i].value matches AuditDetail::String(s) && s@ == REDACTED@
                        } else {
                            redacts(entries@[i].value, out@[i].value)
                        }
                    }
            },
            _ => false,
        },
        _ => r == d,
    }
}

fn is_sensitive_key(key: &str) -> (r: bool)
    ensures
        r == sensitive_key(key@),
{
    let chars = text::chars_of(key);
    let lowered = text::lower_chars(&chars);
    text::contains_chars(&lowered, &text::chars_of("password")) || text::contains_chars(
        &lowered,
        &text::chars_of("secret"),
    ) || text::contains_chars(&lowered, &text::chars_of("token")) || text::contains_chars(
        &lowered,
        &text::chars_of("key"),
    )
}

/// The detail with the value of every sensitive key masked, at any depth.
#[verifier::loop_isolation(false)]
pub fn redact_audit_detail(detail: &AuditDetail) -> (r: AuditDetail)
    ensures
        redacts(*detail, r),
    decreases detail,
{
    match detail {
        AuditDetail::Object(entries) => {
            let mut out: Vec<AuditEntry> = Vec::new();
            let mut i: usize = 0;
            while i < entries.len()
                invariant
                    i <= entries@.len(),
                    out@.len() == i,
                    forall|k: int|
                        0 <= k < i ==> {
                            &&& (#[trigger] out@[k]).key@ == entries@[k].key@
                            &&& if sensitive_key(entries@[k].key@) {
                                out@[k].value matches AuditDetail::String(s) && s@ == REDACTED@
                            } else {
                                redacts(entries@[k].value, out@[k].value)
                            }
                        },
                decreases entries@.len() - i,
            {
                let entry = &entries[i];
                let value = if is_sensitive_key(entry.key.as_str()) {
                    AuditDetail::String(String::from_str(REDACTED))
                } else {
                    proof {
                        assert(*entries == (*detail)->Object_0);
                        assert(decreases_to!(*detail => (*detail)->Object_0));
                        assert(decreases_to!(*entries => entries@));
                        assert(decreases_to!(entries@ => entries@[i as int]));
                        assert(decreases_to!(entries@[i as int] => entries@[i as int].value));
                    }
                    redact_audit_detail(&entry.value)
                };
                out.push(AuditEntry { key: entry.key.clone(), value });
                i += 1;
            }
            AuditDetail::Object(out)
        },
        AuditDetail::Array(items) => {
            let mut out: Vec<AuditDetail> = Vec::new();
            let mut i: usize = 0;
            while i < items.len()
                invariant
                    i <= items@.len(),
                    out@.len() == i,
                    forall|k: int| 0 <= k < i ==> redacts(items@[k], #[trigger] out@[k]),
                decreases items@.len() - i,
            {
                proof {
                    assert(*items == (*detail)->Array_0);
                    assert(decreases_to!(*detail => (*detail)->Array_0));
                    assert(decreases_to!(*items => items@));
                    assert(decreases_to!(items@ => items@[i as int]));
                }
                let v = redact_audit_detail(&items[i]);
                out.push(v);
                i += 1;
            }
            AuditDetail::Array(out)
        },
        AuditDetail::Null => AuditDetail::Null,
        AuditDetail::Bool(b) => AuditDetail::Bool(*b),
        AuditDetail::Number(n) => AuditDetail::Number(n.clone()),
        AuditDetail::String(s) => AuditDetail::String(s.clone()),
    }
}

/// The audit record of an action that succeeded, with no detail.
pub fn success_audit(
    actor_user_uuid: Option<u128>,
    action: &str,
    object_type: &str,
    object_uuid: Option<u128>,
    source: &str,
) -> (r: AuditEventDraft)
    ensures
        r.actor_user_uuid == actor_user_uuid,
        r.action@ == action@,
        r.object_type@ == object_type@,
        r.object_uuid == object_uuid,
        r.outcome@ == "success"@,
        r.source@ == source@,
        r.detail is None,
{
    AuditEventDraft {
        actor_user_uuid,
        action: String::from_str(action),
        object_type: String::from_str(object_type),
        object_uuid,
        outcome: String::from_str("success"),
        source: String::from_str(source),
        detail: None,
    }
}

/// The detail that the audit log stores for an event: its detail with every
/// sensitive value redacted, or none.
pub fn stored_audit_detail(draft: &AuditEventDraft) -> (r: Option<AuditDetail>)
    ensures
        draft.detail is None <==> r is None,
        draft.detail matches Some(d) ==> redacts(d, r->0),
{
    match &draft.detail {
        Some(d) => Some(redact_audit_detail(d)),
        None => None,
    }
}

} // verus!
