//! General properties of the state machine, stated and proved once for all
//! inputs.

use vstd::prelude::*;
use vstd::arithmetic::div_mod::{lemma_add_mod_noop, lemma_mod_bound, lemma_small_mod};

use crate::app::{step_spec, AppView};
use crate::editor::{join_lines, FieldView};
use crate::form::{advance_focus_spec, FormView};
use crate::keys::KeyEvent;

verus! {

/// A navigation-only key on the main screen: cursor up or down (arrow or
/// letter alias), or one of the three menu selectors.
pub open spec fn is_nav_key(key: KeyEvent) -> bool {
    match key {
        KeyEvent::Up => true,
        KeyEvent::Down => true,
        KeyEvent::Char(c) => c == 'k' || c == 'j' || c == '1' || c == '2' || c == '3',
        _ => false,
    }
}

/// The state after a whole sequence of key presses, first key first.
pub open spec fn run_keys(s: AppView, keys: Seq<KeyEvent>) -> AppView
    decreases keys.len(),
{
    if keys.len() == 0 {
        s
    } else {
        run_keys(step_spec(s, keys[0]).0, keys.drop_first())
    }
}

/// One navigation-only key on the running main screen stays on the running
/// main screen, asks for nothing remote, leaves the namespace list as it
/// was, and keeps the machine well formed.
pub proof fn lemma_nav_key_step(s: AppView, key: KeyEvent)
    requires
        s.wf(),
        s.state is Running,
        s.screen is Main,
        is_nav_key(key),
    ensures
        step_spec(s, key).0.wf(),
        step_spec(s, key).0.state is Running,
        step_spec(s, key).0.screen is Main,
        step_spec(s, key).0.namespaces == s.namespaces,
        step_spec(s, key).1 is None,
{
    crate::app::lemma_step_spec_wf(s, key);
}

/// Under any sequence of navigation-only key events on the main screen,
/// the list cursor stays a valid index into the (unchanged) namespace
/// list, and the selected menu is always one of the three menu sections.
pub proof fn lemma_nav_keys_keep_cursor_in_bounds(s: AppView, keys: Seq<KeyEvent>)
    requires
        s.wf(),
        s.state is Running,
        s.screen is Main,
        forall|i: int| 0 <= i < keys.len() ==> is_nav_key(#[trigger] keys[i]),
    ensures
        run_keys(s, keys).wf(),
        run_keys(s, keys).state is Running,
        run_keys(s, keys).screen is Main,
        run_keys(s, keys).namespaces == s.namespaces,
        run_keys(s, keys).namespaces.len() > 0 ==> 0 <= run_keys(s, keys).line < s.namespaces.len(),
        run_keys(s, keys).menu is Config || run_keys(s, keys).menu is Service || run_keys(
            s,
            keys,
        ).menu is Namespace,
    decreases keys.len(),
{
    if keys.len() > 0 {
        lemma_nav_key_step(s, keys[0]);
        lemma_nav_keys_keep_cursor_in_bounds(step_spec(s, keys[0]).0, keys.drop_first());
    }
}

/// Pressing `esc` on the add or edit screen always returns to the main
/// screen with no form remaining and no remote call asked for, whatever
/// was typed into the fields before, and leaves the caches untouched.
pub proof fn lemma_esc_discards_form(s: AppView)
    requires
        s.wf(),
        s.state is Running,
        s.screen is NamespaceAdd || s.screen is NamespaceEdit,
    ensures
        step_spec(s, KeyEvent::Esc).0.wf(),
        step_spec(s, KeyEvent::Esc).0.screen is Main,
        step_spec(s, KeyEvent::Esc).0.form is None,
        step_spec(s, KeyEvent::Esc).0.namespaces == s.namespaces,
        step_spec(s, KeyEvent::Esc).0.configs == s.configs,
        step_spec(s, KeyEvent::Esc).1 is None,
{
    crate::app::lemma_step_spec_wf(s, KeyEvent::Esc);
}

/// The focus after `k` advances.
pub open spec fn advance_focus_n(f: FormView, k: nat) -> FormView
    decreases k,
{
    if k == 0 {
        f
    } else {
        advance_focus_spec(advance_focus_n(f, (k - 1) as nat))
    }
}

/// After `k` advances the focus stands `k` past where it started, modulo
/// the field count; nothing else of the form changes.
pub proof fn lemma_advance_focus_n(f: FormView, k: nat)
    requires
        f.wf(),
    ensures
        advance_focus_n(f, k).focus == (f.focus + k) % (f.fields.len() as int),
        advance_focus_n(f, k).fields == f.fields,
        advance_focus_n(f, k).kind == f.kind,
    decreases k,
{
    let n = f.fields.len() as int;
    if k == 0 {
        lemma_small_mod(f.focus as nat, n as nat);
    } else {
        lemma_advance_focus_n(f, (k - 1) as nat);
        lemma_add_mod_noop(f.focus + k - 1, 1, n);
        if n > 1 {
            lemma_small_mod(1nat, n as nat);
        } else {
            lemma_mod_bound(1, n);
            lemma_mod_bound(f.focus + k, n);
            lemma_mod_bound((f.focus + k - 1) % n + 1int % n, n);
        }
    }
}

/// Focus cycling: in a form with `N` fields, `N` consecutive `tab`
/// advances return the focus to where it started, and the form is
/// otherwise as it was.
pub proof fn lemma_focus_cycles(f: FormView)
    requires
        f.wf(),
    ensures
        advance_focus_n(f, f.fields.len()) == f,
{
    let n = f.fields.len() as int;
    lemma_advance_focus_n(f, f.fields.len());
    lemma_add_mod_noop(f.focus, n, n);
    lemma_mod_bound(n, n);
    lemma_small_mod(f.focus as nat, n as nat);
    assert((f.focus + n) % n == f.focus) by {
        vstd::arithmetic::div_mod::lemma_mod_add_multiples_vanish(f.focus, n);
        lemma_small_mod(f.focus as nat, n as nat);
    }
    assert(advance_focus_n(f, f.fields.len()) =~= f);
}

/// Round trip: a field initialized from a string extracts back to exactly
/// that string, for any single-line string.
pub proof fn lemma_initialize_round_trip(text: Seq<char>)
    requires
        forall|i: int| 0 <= i < text.len() ==> text[i] != '\n',
    ensures
        (FieldView { lines: seq![text], row: 0, col: text.len() as int }).text() == text,
{
    assert(join_lines(seq![text]) == text);
}

} // verus!
