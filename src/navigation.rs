//! The pending action that a login started from a write request carries.
//!
//! A write that reaches the service without a session names its target in a
//! `next` path: `/note` creates a note, `/note/<id>` edits or deletes one, and
//! `/note/<id>/:check` or `/note/<id>/:uncheck` toggles it. The id is a UUID in
//! hyphenated lower-case form.

use vstd::prelude::*;
use vstd::string::*;

use crate::ids::{fits_uuid_position, is_uuid_text, parse_uuid, uuid_parse};
use crate::model::PendingAction;

verus! {

/// The HTTP method of the request that led to the login.
#[derive(Debug, Clone, Copy, PartialEq, Eq, Structural)]
pub enum RequestMethod {
    Get,
    Post,
    Put,
    Delete,
    Other,
}

/// The action that a login carries for a write to `next` by `method`, with the
/// note text `note` that the request sent.
pub open spec fn next_action(next: Seq<char>, method: RequestMethod, note: String) -> Option<
    PendingAction,
> {
    if next.len() >= 42 && next.subrange(0, 6) == "/note/"@ && is_uuid_text(
        next.subrange(6, 42),
    ) {
        let rest = next.subrange(42, next.len() as int);
        match uuid_parse(next.subrange(6, 42)) {
            None => None,
            Some(id) => if rest == "/:check"@ {
                Some(PendingAction::CheckNote(id))
            } else if rest == "/:uncheck"@ {
                Some(PendingAction::UncheckNote(id))
            } else if rest.len() == 0 && method == RequestMethod::Delete {
                Some(PendingAction::DeleteNote(id))
            } else if rest.len() == 0 && method == RequestMethod::Put {
                Some(PendingAction::EditNote(id, note))
            } else {
                None
            },
        }
    } else if next == "/note"@ {
        Some(PendingAction::CreateNote(note))
    } else {
        None
    }
}

/// Whether the characters of `s` from `from` to `to` spell `lit`.
fn spells(s: &str, from: usize, to: usize, lit: &str) -> (r: bool)
    requires
        from <= to <= s@.len(),
    ensures
        r == (s@.subrange(from as int, to as int) == lit@),
{
    let m = lit.unicode_len();
    if to - from != m {
        return false;
    }
    let mut j: usize = 0;
    while j < m
        invariant
            m == lit@.len(),
            from <= to <= s@.len(),
            to - from == m,
            j <= m,
            forall|k: int| 0 <= k < j ==> s@[from + k] == lit@[k],
        decreases m - j,
    {
        if s.get_char(from + j) != lit.get_char(j) {
            assert(s@.subrange(from as int, to as int)[j as int] != lit@[j as int]);
            return false;
        }
        j = j + 1;
    }
    assert(s@.subrange(from as int, to as int) =~= lit@);
    true
}

/// Whether the 36 characters of `s` from `from` are a hyphenated lower-case UUID.
fn is_note_id_at(s: &str, from: usize) -> (r: bool)
    requires
        from + 36 <= s@.len() <= usize::MAX,
    ensures
        r == is_uuid_text(s@.subrange(from as int, from + 36)),
{
    let ghost t = s@.subrange(from as int, from + 36);
    let mut j: usize = 0;
    while j < 36
        invariant
            from + 36 <= s@.len() <= usize::MAX,
            t == s@.subrange(from as int, from + 36),
            j <= 36,
            forall|k: int| 0 <= k < j ==> #[trigger] fits_uuid_position(t[k], k),
        decreases 36 - j,
    {
        let c = s.get_char(from + j);
        let ok = if j == 8 || j == 13 || j == 18 || j == 23 {
            c == '-'
        } else {
            ('0' <= c && c <= '9') || ('a' <= c && c <= 'f')
        };
        assert(t[j as int] == c);
        if !ok {
            assert(!fits_uuid_position(t[j as int], j as int));
            return false;
        }
        j = j + 1;
    }
    true
}

/// The action that a login carries for a write to `next` by `method`; `note`
/// is the note text that the request sent.
pub fn pending_action_for(next: &str, method: RequestMethod, note: String) -> (r: Option<
    PendingAction,
>)
    ensures
        r == next_action(next@, method, note),
{
    let n = next.unicode_len();
    if n >= 42 && spells(next, 0, 6, "/note/") && is_note_id_at(next, 6) {
        let id = match parse_uuid(next.substring_char(6, 42)) {
            Some(id) => id,
            None => {
                return None;
            },
        };
        if spells(next, 42, n, "/:check") {
            Some(PendingAction::CheckNote(id))
        } else if spells(next, 42, n, "/:uncheck") {
            Some(PendingAction::UncheckNote(id))
        } else if n == 42 && method == RequestMethod::Delete {
            Some(PendingAction::DeleteNote(id))
        } else if n == 42 && method == RequestMethod::Put {
            Some(PendingAction::EditNote(id, note))
        } else {
            None
        }
    } else if spells(next, 0, n, "/note") {
        assert(next@.subrange(0, n as int) =~= next@);
        Some(PendingAction::CreateNote(note))
    } else {
        assert(next@.subrange(0, n as int) =~= next@);
        None
    }
}

} // verus!
