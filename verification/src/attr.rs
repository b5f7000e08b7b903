//! The override resolver: scans the raw attribute list of one original
//! syntax node for the tool's override directive.
//!
//! At most one such directive may stand on a node, and its argument must be
//! a legal target path.  A violation is recorded as one diagnostic at that
//! node and reported as an abort.

use vstd::prelude::*;

use crate::ast::{Directive, OrigNode, RawAttr, RawAttrView, directive_view};
use crate::ctxt::{Ctxt, DiagKind, Diagnostic};

verus! {

/// A character that may stand in an override target: ASCII letters, digits,
/// `_`, and `:` for path separators.
pub open spec fn spec_target_char(c: char) -> bool {
    let u = c as u32;
    (97 <= u && u <= 122)  // 'a' ..= 'z'
    || (65 <= u && u <= 90)  // 'A' ..= 'Z'
    || (48 <= u && u <= 57)  // '0' ..= '9'
    || u == 95  // '_'
    || u == 58  // ':'
}

/// A legal override target: nonempty, made of target characters only.
pub open spec fn spec_valid_target(s: Seq<char>) -> bool {
    s.len() > 0 && (forall|i: int| 0 <= i < s.len() ==> spec_target_char(s[i]))
}

/// Outcome of scanning `attrs` for an override directive from index `i` on,
/// with `acc` the directive found among the earlier attributes: the one
/// directive (if any), or the kind of error that stops the scan.
pub open spec fn resolve_from(
    attrs: Seq<RawAttrView>,
    acc: Option<Seq<char>>,
    i: int,
) -> Result<Option<Seq<char>>, DiagKind>
    decreases attrs.len() - i,
{
    if i < 0 || i >= attrs.len() {
        Ok(acc)
    } else {
        match attrs[i] {
            RawAttrView::Other(_) => resolve_from(attrs, acc, i + 1),
            RawAttrView::Override(t) => {
                if acc is Some {
                    Err(DiagKind::ConflictingOverride)
                } else if !spec_valid_target(t) {
                    Err(DiagKind::MalformedOverride)
                } else {
                    resolve_from(attrs, Some(t), i + 1)
                }
            },
        }
    }
}

/// What resolving the override directive of a whole raw attribute list
/// yields.
pub open spec fn resolve_spec(attrs: Seq<RawAttrView>) -> Result<Option<Seq<char>>, DiagKind> {
    resolve_from(attrs, None, 0)
}

/// Whether `s` is a legal override target.
pub fn valid_target(s: &str) -> (r: bool)
    ensures
        r == spec_valid_target(s@),
{
    let n = s.unicode_len();
    if n == 0 {
        return false;
    }
    let mut i: usize = 0;
    while i < n
        invariant
            i <= n,
            n == s@.len(),
            forall|j: int| 0 <= j < i ==> spec_target_char(s@[j]),
        decreases n - i,
    {
        let c = s.get_char(i);
        let u = c as u32;
        if !((97 <= u && u <= 122) || (65 <= u && u <= 90) || (48 <= u && u <= 57) || u == 95
            || u == 58) {
            return false;
        }
        i += 1;
    }
    true
}

/// Resolve the tool's override directive from the raw attributes of the
/// original node `original`.  On success the context is untouched; on a
/// malformed or conflicting directive exactly one diagnostic is recorded at
/// that node and the conversion of the node aborts.
pub fn get_with_from_attrs(original: &OrigNode, errors: &mut Ctxt) -> (r: Result<
    Option<Directive>,
    (),
>)
    ensures
        match r {
            Ok(w) => resolve_spec(original@.attrs) == Ok::<Option<Seq<char>>, DiagKind>(
                directive_view(w),
            ) && final(errors)@ == old(errors)@,
            Err(()) => resolve_spec(original@.attrs) is Err && final(errors)@ == old(errors)@.push(
                Diagnostic { node: original.id, kind: resolve_spec(original@.attrs)->Err_0 },
            ),
        },
{
    let mut found: Option<Directive> = None;
    let n = original.attrs.len();
    let mut i: usize = 0;
    while i < n
        invariant
            i <= n,
            n == original.attrs.len(),
            resolve_spec(original@.attrs) == resolve_from(
                original@.attrs,
                directive_view(found),
                i as int,
            ),
            errors@ == old(errors)@,
        decreases n - i,
    {
        proof {
            assert(original@.attrs[i as int] == original.attrs@[i as int]@);
        }
        match &original.attrs[i] {
            RawAttr::Other(_) => {},
            RawAttr::Override(t) => {
                if found.is_some() {
                    errors.error(original.id, DiagKind::ConflictingOverride);
                    return Err(());
                }
                if !valid_target(t.as_str()) {
                    errors.error(original.id, DiagKind::MalformedOverride);
                    return Err(());
                }
                found = Some(Directive { target: t.clone() });
            },
        }
        i += 1;
    }
    Ok(found)
}

} // verus!
