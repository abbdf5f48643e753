//! Turning an error chain into one line for the status bar.

use vstd::prelude::*;
use crate::text::{
    chars_of, contains, has_substr, lowercase, remove_all, remove_all_of, string_of, to_lowercase,
};

verus! {

#[verifier::external_type_specification]
#[verifier::external_body]
pub struct ExAnyhowError(anyhow::Error);

/// Calls `Display` on `anyhow::Error`: the outermost message of the chain (the
/// last context attached). The text comes from the wrapped error's own
/// `Display`, which for an operating-system error is the C library's
/// `strerror` wording and so differs between C libraries and message
/// catalogues; it is not a function of the error value alone, and nothing is
/// stated of it.
#[verifier::external_body]
fn error_context(e: &anyhow::Error) -> String {
    e.to_string()
}

/// Calls `anyhow::Error::root_cause` and displays it: the innermost error of
/// the chain. Like the outer message, its wording can come from the C
/// library, so nothing is stated of it.
#[verifier::external_body]
fn error_root(e: &anyhow::Error) -> String {
    e.root_cause().to_string()
}

/// The message and its cause, without saying the same sentence twice.
pub open spec fn joined_message(context: Seq<char>, root: Seq<char>) -> Seq<char> {
    if root.len() == 0 || root == context {
        context
    } else {
        context + ": "@ + root
    }
}

/// The message with the D-Bus boilerplate taken out.
pub open spec fn without_noise(msg: Seq<char>) -> Seq<char> {
    remove_all(
        remove_all(remove_all(msg, "org.freedesktop.NetworkManager."@), "org.freedesktop.DBus.Error."@),
        "PermissionDenied: "@,
    )
}

/// The status-bar line for an error whose outermost message is `context` and
/// whose innermost cause is `root`. A refusal names what would have allowed it:
/// polkit's "not authorized" asks for a local session or root, a plain
/// permission error asks for root.
pub open spec fn error_text(context: Seq<char>, root: Seq<char>) -> Seq<char> {
    let msg = without_noise(joined_message(context, root));
    let lower = lowercase(msg);
    if has_substr(lower, "not authorized"@) {
        msg + "  \u{2014} needs a local login session or root"@
    } else if has_substr(lower, "permission denied"@) || has_substr(lower, "not permitted"@) {
        msg + "  \u{2014} needs root"@
    } else {
        msg
    }
}

/// D-Bus errors arrive as an interface-qualified name plus a sentence; keep the
/// sentence and the part of the name that identifies the action, and drop the
/// `org.freedesktop.*` boilerplate that only costs the status bar room.
pub fn format_error_text(context: &str, root: &str) -> (s: String)
    ensures
        s@ == error_text(context@, root@),
{
    let c = chars_of(context);
    let r = chars_of(root);
    let mut msg: Vec<char> = c;
    if r.len() != 0 && !same_chars(&r, &msg) {
        let sep = chars_of(": ");
        let mut i: usize = 0;
        let ghost start = msg@;
        while i < sep.len()
            invariant
                i <= sep@.len(),
                msg@ == start + sep@.take(i as int),
            decreases sep.len() - i,
        {
            msg.push(sep[i]);
            proof {
                assert(sep@.take(i + 1) == sep@.take(i as int).push(sep@[i as int]));
            }
            i = i + 1;
        }
        let ghost mid = msg@;
        let mut j: usize = 0;
        proof {
            assert(sep@.take(sep@.len() as int) == sep@);
        }
        while j < r.len()
            invariant
                j <= r@.len(),
                msg@ == mid + r@.take(j as int),
            decreases r.len() - j,
        {
            msg.push(r[j]);
            proof {
                assert(r@.take(j + 1) == r@.take(j as int).push(r@[j as int]));
            }
            j = j + 1;
        }
        proof {
            assert(r@.take(r@.len() as int) == r@);
        }
    }
    proof {
        assert(msg@ == joined_message(context@, root@));
    }
    let n1 = chars_of("org.freedesktop.NetworkManager.");
    let n2 = chars_of("org.freedesktop.DBus.Error.");
    let n3 = chars_of("PermissionDenied: ");
    proof {
        reveal_strlit("org.freedesktop.NetworkManager.");
        reveal_strlit("org.freedesktop.DBus.Error.");
        reveal_strlit("PermissionDenied: ");
    }
    let m1 = remove_all_of(&msg, &n1);
    let m2 = remove_all_of(&m1, &n2);
    let m3 = remove_all_of(&m2, &n3);
    let mut out = string_of(&m3);
    let lower = to_lowercase(out.as_str());
    let low = chars_of(lower.as_str());
    if contains(&low, &chars_of("not authorized")) {
        out.push_str("  \u{2014} needs a local login session or root");
    } else if contains(&low, &chars_of("permission denied")) || contains(
        &low,
        &chars_of("not permitted"),
    ) {
        out.push_str("  \u{2014} needs root");
    }
    out
}

fn same_chars(a: &Vec<char>, b: &Vec<char>) -> (r: bool)
    ensures
        r == (a@ == b@),
{
    if a.len() != b.len() {
        proof {
            assert(a@.len() != b@.len());
        }
        return false;
    }
    let mut i: usize = 0;
    while i < a.len()
        invariant
            a.len() == b.len(),
            i <= a.len(),
            forall|j: int| 0 <= j < i ==> a@[j] == b@[j],
        decreases a.len() - i,
    {
        if a[i] != b[i] {
            proof {
                assert(a@[i as int] != b@[i as int]);
            }
            return false;
        }
        i = i + 1;
    }
    proof {
        assert(a@ == b@);
    }
    true
}

/// The status-bar line for `e`: its outermost message and root cause, read
/// through `anyhow`, formatted by `format_error_text`.
pub fn format_error(e: &anyhow::Error) -> (s: String)
    ensures
        exists|context: Seq<char>, root: Seq<char>| s@ == error_text(context, root),
{
    let context = error_context(e);
    let root = error_root(e);
    format_error_text(context.as_str(), root.as_str())
}

} // verus!
