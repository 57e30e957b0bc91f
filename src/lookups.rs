//! Decisions behind the host's stateless lookups: which package manager a
//! project uses, which entries to offer, how to read an answer of the
//! suggestion service, and how the global hotkey toggles the window.

use vstd::prelude::*;
use vstd::string::*;

use crate::text::join2;

verus! {

pub const BUN: &'static str = "bun";
pub const PNPM: &'static str = "pnpm";
pub const YARN: &'static str = "yarn";
pub const NPM: &'static str = "npm";

/// The package manager for the lock files present in a project: the first of
/// bun, pnpm, yarn whose lock file exists, else npm.
pub open spec fn package_manager_of(bun_lock: bool, pnpm_lock: bool, yarn_lock: bool) -> Seq<char> {
    if bun_lock {
        BUN@
    } else if pnpm_lock {
        PNPM@
    } else if yarn_lock {
        YARN@
    } else {
        NPM@
    }
}

/// Picks the package manager from which lock files exist. An npm lock file
/// and no lock file at all both give npm.
pub fn choose_package_manager(bun_lock: bool, pnpm_lock: bool, yarn_lock: bool) -> (r: String)
    ensures
        r@ == package_manager_of(bun_lock, pnpm_lock, yarn_lock),
{
    if bun_lock {
        String::from_str(BUN)
    } else if pnpm_lock {
        String::from_str(PNPM)
    } else if yarn_lock {
        String::from_str(YARN)
    } else {
        String::from_str(NPM)
    }
}

/// The entries of `s` whose value is text, in order, with that text.
pub open spec fn text_entries_of(s: Seq<(String, Option<String>)>) -> Seq<(String, String)>
    decreases s.len(),
{
    if s.len() == 0 {
        Seq::empty()
    } else {
        let front = text_entries_of(s.drop_last());
        match s.last().1 {
            Some(v) => front.push((s.last().0, v)),
            None => front,
        }
    }
}

/// The names in `s` of regular files whose names are text, in order.
pub open spec fn file_names_of(s: Seq<(bool, Option<String>)>) -> Seq<String>
    decreases s.len(),
{
    if s.len() == 0 {
        Seq::empty()
    } else {
        let front = file_names_of(s.drop_last());
        match s.last().1 {
            Some(n) => if s.last().0 {
                front.push(n)
            } else {
                front
            },
            None => front,
        }
    }
}

/// Keeps the entries whose value is text, in order: the runnable scripts of
/// a manifest's `scripts` table.
pub fn text_entries(entries: Vec<(String, Option<String>)>) -> (r: Vec<(String, String)>)
    ensures
        r@ == text_entries_of(entries@),
{
    let ghost all = entries@;
    let mut out: Vec<(String, String)> = Vec::new();
    let mut rest = entries;
    let n: usize = rest.len();
    let mut k: usize = 0;
    proof {
        assert(all.subrange(0, 0) =~= Seq::<(String, Option<String>)>::empty());
    }
    while rest.len() > 0
        invariant
            all.len() == n,
            k + rest@.len() == all.len(),
            rest@ == all.subrange(k as int, all.len() as int),
            out@ == text_entries_of(all.subrange(0, k as int)),
        decreases rest@.len(),
    {
        let entry = rest.remove(0);
        assert(entry == all[k as int]);
        assert(rest@ =~= all.subrange(k + 1, all.len() as int));
        assert(all.subrange(0, k + 1).drop_last() =~= all.subrange(0, k as int));
        let (name, value) = entry;
        match value {
            Some(text) => {
                out.push((name, text));
            },
            None => {},
        }
        k += 1;
    }
    proof {
        assert(all.subrange(0, all.len() as int) =~= all);
    }
    out
}

/// Keeps the names of directory entries that are regular files and whose
/// names are text, in order.
pub fn regular_file_names(entries: Vec<(bool, Option<String>)>) -> (r: Vec<String>)
    ensures
        r@ == file_names_of(entries@),
{
    let ghost all = entries@;
    let mut out: Vec<String> = Vec::new();
    let mut rest = entries;
    let n: usize = rest.len();
    let mut k: usize = 0;
    proof {
        assert(all.subrange(0, 0) =~= Seq::<(bool, Option<String>)>::empty());
    }
    while rest.len() > 0
        invariant
            all.len() == n,
            k + rest@.len() == all.len(),
            rest@ == all.subrange(k as int, all.len() as int),
            out@ == file_names_of(all.subrange(0, k as int)),
        decreases rest@.len(),
    {
        let entry = rest.remove(0);
        assert(entry == all[k as int]);
        assert(rest@ =~= all.subrange(k + 1, all.len() as int));
        assert(all.subrange(0, k + 1).drop_last() =~= all.subrange(0, k as int));
        let (is_file, name) = entry;
        match name {
            Some(n) => {
                if is_file {
                    out.push(n);
                }
            },
            None => {},
        }
        k += 1;
    }
    proof {
        assert(all.subrange(0, all.len() as int) =~= all);
    }
    out
}

/// Endpoint of the suggestion service, before the key.
pub const SUGGESTION_ENDPOINT: &'static str = "https://generativelanguage.googleapis.com/v1beta/models/gemini-1.5-flash:generateContent?key=";

/// Message when no key is configured.
pub const MISSING_KEY: &'static str = "API key is not set. Please add it in settings.";

/// Message when an answer has no text where one is expected.
pub const UNEXPECTED_ANSWER: &'static str = "Unexpected AI response format.";

/// Text before the body of a refused request.
pub const API_ERROR_PREFIX: &'static str = "API Error: ";

/// The address to ask with `api_key`, or the message that no key is set.
pub fn suggestion_url(api_key: &String) -> (r: Result<String, String>)
    ensures
        api_key@.len() == 0 ==> (r matches Err(m) && m@ == MISSING_KEY@),
        api_key@.len() > 0 ==> (r matches Ok(u) && u@ == SUGGESTION_ENDPOINT@ + api_key@),
{
    if api_key.as_str().is_empty() {
        Err(String::from_str(MISSING_KEY))
    } else {
        Ok(join2(SUGGESTION_ENDPOINT, api_key.as_str()))
    }
}

/// The text of an accepted answer: the first part of the first candidate,
/// each candidate given as the texts of its parts.
pub fn first_answer(candidates: &Vec<Vec<String>>) -> (r: Result<String, String>)
    ensures
        candidates@.len() > 0 && candidates@[0]@.len() > 0 ==> (r matches Ok(t) && t@
            == candidates@[0]@[0]@),
        !(candidates@.len() > 0 && candidates@[0]@.len() > 0) ==> (r matches Err(m) && m@
            == UNEXPECTED_ANSWER@),
{
    if candidates.len() > 0 && candidates[0].len() > 0 {
        Ok(candidates[0][0].clone())
    } else {
        Err(String::from_str(UNEXPECTED_ANSWER))
    }
}

/// The message for a request that the service refused, from its body.
pub fn refused_answer(body: &String) -> (r: String)
    ensures
        r@ == API_ERROR_PREFIX@ + body@,
{
    join2(API_ERROR_PREFIX, body.as_str())
}

/// A window operation the host performs.
#[derive(Clone, Copy, Debug, PartialEq, Eq, Structural)]
pub enum WindowAction {
    Minimize,
    Unminimize,
    Show,
    Focus,
}

/// What the global hotkey does: a window in view is minimized; any other is
/// restored if minimized, shown and focused.
pub fn toggle_window(visible: bool, minimized: bool) -> (r: Vec<WindowAction>)
    ensures
        visible && !minimized ==> r@ == seq![WindowAction::Minimize],
        !visible && !minimized ==> r@ == seq![WindowAction::Show, WindowAction::Focus],
        minimized ==> r@ == seq![WindowAction::Unminimize, WindowAction::Show, WindowAction::Focus],
{
    let mut actions: Vec<WindowAction> = Vec::new();
    if visible && !minimized {
        actions.push(WindowAction::Minimize);
    } else {
        if minimized {
            actions.push(WindowAction::Unminimize);
        }
        actions.push(WindowAction::Show);
        actions.push(WindowAction::Focus);
    }
    proof {
        if visible && !minimized {
            assert(actions@ =~= seq![WindowAction::Minimize]);
        } else if minimized {
            assert(actions@ =~= seq![WindowAction::Unminimize, WindowAction::Show, WindowAction::Focus]);
        } else {
            assert(actions@ =~= seq![WindowAction::Show, WindowAction::Focus]);
        }
    }
    actions
}

} // verus!
