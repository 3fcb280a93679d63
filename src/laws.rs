//! What holds of the installer across files: which bytes it touches, what
//! the new value is, and that it leaves an absent app's file alone.

use vstd::prelude::*;
use crate::search::{
    find_in, lemma_find_at, lemma_find_prefix, lemma_find_rebound, lemma_find_some,
    lemma_match_byte, matches_at,
};
use crate::text::{
    app_token, command_token, inserted_entry, launch_key, wrapped, wrapper_name, wrapper_prefix,
    QUOTE,
};
use crate::vdf::{
    app_pos, configured_edit, file_after, is_configured, section_start, splice,
    value_after_key, window_end, EditError, WINDOW,
};

verus! {

/// The span `(v0, v1)` of the existing value that the installer rewrites,
/// where the app block has a launch-options key within its window.
pub open spec fn edited_value(s: Seq<u8>, id: Seq<u8>) -> Option<(int, int)> {
    match app_pos(s, id) {
        None => None,
        Some(a) => match section_start(s, a, id) {
            None => None,
            Some(b) => match find_in(s, launch_key(), b, window_end(s, b)) {
                None => None,
                Some(k) => value_after_key(s, k, s.len() as int),
            },
        },
    }
}

/// The span `[i, j)` of `s` that the installer replaces, where it rewrites
/// the file: the existing value, or the empty span at the head of the app's
/// block where the new entry goes.
pub open spec fn replaced_span(s: Seq<u8>, id: Seq<u8>) -> Option<(int, int)> {
    match configured_edit(s, id) {
        Ok(Some(_)) => match edited_value(s, id) {
            Some(span) => Some(span),
            None => match app_pos(s, id) {
                None => None,
                Some(a) => match section_start(s, a, id) {
                    None => None,
                    Some(b) => Some((b, b)),
                },
            },
        },
        _ => None,
    }
}

/// Facts on the positions that the installer computes on its way to a
/// rewrite.
proof fn lemma_edit_positions(s: Seq<u8>, id: Seq<u8>)
    ensures
        match app_pos(s, id) {
            None => true,
            Some(a) => match section_start(s, a, id) {
                None => true,
                Some(b) => {
                    &&& 0 <= a
                    &&& a + app_token(id).len() < b <= s.len()
                    &&& s[b - 1] == crate::text::OPEN_BRACE
                    &&& match find_in(s, launch_key(), b, window_end(s, b)) {
                        None => true,
                        Some(k) => {
                            &&& b <= k
                            &&& k + launch_key().len() <= window_end(s, b)
                            &&& match value_after_key(s, k, s.len() as int) {
                                None => true,
                                Some((v0, v1)) => k + launch_key().len() < v0 <= v1 < s.len(),
                            }
                        },
                    }
                },
            },
        },
{
    if let Some(a) = app_pos(s, id) {
        lemma_find_some(s, crate::text::app_token(id), 0, s.len() as int, a);
        if let Some(b) = section_start(s, a, id) {
            lemma_find_some(
                s,
                seq![crate::text::OPEN_BRACE],
                a + crate::text::app_token(id).len(),
                s.len() as int,
                b - 1,
            );
            lemma_match_byte(s, crate::text::OPEN_BRACE, b - 1);
            if let Some(k) = find_in(s, launch_key(), b, window_end(s, b)) {
                lemma_find_some(s, launch_key(), b, window_end(s, b), k);
                if let Some(q1) = find_in(s, seq![QUOTE], k + 15, s.len() as int) {
                    lemma_find_some(s, seq![QUOTE], k + 15, s.len() as int, q1);
                    if let Some(q2) = find_in(s, seq![QUOTE], q1 + 1, s.len() as int) {
                        lemma_find_some(s, seq![QUOTE], q1 + 1, s.len() as int, q2);
                    }
                }
            }
        }
    }
}

/// Where the app's quoted key is absent, the installer fails with
/// `GameNotFound` and the file stays as it was.
pub proof fn lemma_absent_app_not_found(s: Seq<u8>, id: Seq<u8>)
    requires
        app_pos(s, id) is None,
    ensures
        configured_edit(s, id) == Err::<Option<Seq<u8>>, EditError>(EditError::GameNotFound),
        file_after(s, id) == s,
{
}

/// Every byte outside the replaced span is unchanged: a byte before it
/// stays at its index, a byte after it moves by the change in length. Where
/// nothing is replaced the file is unchanged.
pub proof fn lemma_bytes_outside_edit_unchanged(s: Seq<u8>, id: Seq<u8>, p: int)
    requires
        0 <= p < s.len(),
    ensures
        match replaced_span(s, id) {
            None => file_after(s, id) == s,
            Some((i, j)) => {
                &&& p < i ==> file_after(s, id)[p] == s[p]
                &&& j <= p ==> file_after(s, id)[p + file_after(s, id).len() - s.len()] == s[p]
            },
        },
{
    lemma_edit_positions(s, id);
}

/// An existing value `v` without `protonhax` becomes `protonhax init v
/// %COMMAND%` (`protonhax init %COMMAND%` where `v` is empty), in place,
/// still closed by its quote; unless the check already finds the wrapper,
/// in which case the file stays as it is.
pub proof fn lemma_existing_value_wrapped(s: Seq<u8>, id: Seq<u8>, v0: int, v1: int)
    requires
        edited_value(s, id) == Some((v0, v1)),
        find_in(s, wrapper_name(), v0, v1) is None,
        !is_configured(s, id),
    ensures
        ({
            let t = file_after(s, id);
            let nv = wrapped(s.subrange(v0, v1));
            &&& configured_edit(s, id) == Ok::<Option<Seq<u8>>, EditError>(Some(t))
            &&& t.subrange(v0, v0 + nv.len()) == nv
            &&& t[v0 + nv.len()] == QUOTE
        }),
{
    lemma_edit_positions(s, id);
    let t = file_after(s, id);
    let nv = wrapped(s.subrange(v0, v1));
    assert(t == splice(s, v0, v1, nv));
    assert(t.subrange(v0, v0 + nv.len()) =~= nv);
    let q2 = v1;
    let a = app_pos(s, id)->Some_0;
    let b = section_start(s, a, id)->Some_0;
    let k = find_in(s, launch_key(), b, window_end(s, b))->Some_0;
    let q1 = find_in(s, seq![QUOTE], k + 15, s.len() as int)->Some_0;
    lemma_find_some(s, seq![QUOTE], q1 + 1, s.len() as int, q2);
    crate::search::lemma_match_byte(s, QUOTE, q2);
    assert(t[v0 + nv.len()] == s[q2]);
}


/// The installer's work lands where the check reads: no launch-options key
/// starts between the app's key and the body of its block, and the closing
/// quote of the value written ends within 500 bytes of the app's key.
pub open spec fn wrapper_in_check_window(s: Seq<u8>, id: Seq<u8>) -> bool {
    match app_pos(s, id) {
        None => true,
        Some(a) => match section_start(s, a, id) {
            None => true,
            Some(b) => {
                &&& forall|i: int| a <= i < b ==> !matches_at(s, launch_key(), i)
                &&& match edited_value(s, id) {
                    Some((v0, v1)) => v0 + wrapped(s.subrange(v0, v1)).len() < a + WINDOW,
                    None => b + inserted_entry().len() <= a + WINDOW,
                }
            },
        },
    }
}

/// A value built by the installer holds no quote where the old one held
/// none, and starts with `protonhax`.
proof fn lemma_wrapped_shape(v: Seq<u8>)
    requires
        forall|i: int| 0 <= i < v.len() ==> v[i] != QUOTE,
    ensures
        wrapped(v).len() >= 9,
        wrapped(v).subrange(0, 9) == wrapper_name(),
        forall|i: int| 0 <= i < wrapped(v).len() ==> wrapped(v)[i] != QUOTE,
{
    let pre = wrapper_prefix();
    let cmd = command_token();
    assert(pre =~= seq![112u8, 114, 111, 116, 111, 110, 104, 97, 120, 32, 105, 110, 105, 116, 32]);
    assert(cmd =~= seq![37u8, 67, 79, 77, 77, 65, 78, 68, 37]);
    assert(wrapped(v).subrange(0, 9) =~= wrapper_name());
    assert forall|i: int| 0 <= i < pre.len() implies pre[i] != QUOTE by {}
    assert forall|i: int| 0 <= i < cmd.len() implies cmd[i] != QUOTE by {}
}

/// The check finds the wrapper in a file whose existing value was rewritten.
proof fn lemma_configured_after_value_rewrite(s: Seq<u8>, id: Seq<u8>, v0: int, v1: int)
    requires
        edited_value(s, id) == Some((v0, v1)),
        wrapper_in_check_window(s, id),
    ensures
        is_configured(splice(s, v0, v1, wrapped(s.subrange(v0, v1))), id),
{
    lemma_edit_positions(s, id);
    let a = app_pos(s, id)->Some_0;
    let b = section_start(s, a, id)->Some_0;
    let k = find_in(s, launch_key(), b, window_end(s, b))->Some_0;
    let q1 = v0 - 1;
    let v = s.subrange(v0, v1);
    let nv = wrapped(v);
    let t = splice(s, v0, v1, nv);
    let c = v0 + nv.len();
    let tok = app_token(id);
    let lk = launch_key();
    let qt = seq![QUOTE];
    assert(forall|q: int| 0 <= q < v0 ==> t[q] == s[q]);
    assert(t.len() == s.len() - (v1 - v0) + nv.len());
    // the app's key
    lemma_find_rebound(s, tok, 0, s.len() as int, a + tok.len(), a);
    lemma_find_prefix(s, t, tok, 0, a + tok.len());
    lemma_find_rebound(t, tok, 0, a + tok.len(), t.len() as int, a);
    assert(app_pos(t, id) == Some(a));
    let w = window_end(t, a);
    assert(c + 1 <= w);
    // the launch-options key
    lemma_find_some(s, lk, b, window_end(s, b), k);
    lemma_find_at(s, lk, a, k + 15, k);
    lemma_find_prefix(s, t, lk, a, k + 15);
    lemma_find_rebound(t, lk, a, k + 15, w, k);
    // the opening quote
    lemma_find_rebound(s, qt, k + 15, s.len() as int, v0, q1);
    lemma_find_prefix(s, t, qt, k + 15, v0);
    lemma_find_rebound(t, qt, k + 15, v0, w, q1);
    // the closing quote
    lemma_find_some(s, qt, v0, s.len() as int, v1);
    assert forall|i: int| 0 <= i < v.len() implies v[i] != QUOTE by {
        lemma_match_byte(s, QUOTE, v0 + i);
    }
    lemma_wrapped_shape(v);
    assert forall|i: int| v0 <= i < c implies !matches_at(t, qt, i) by {
        lemma_match_byte(t, QUOTE, i);
        assert(t[i] == nv[i - v0]);
    }
    lemma_match_byte(s, QUOTE, v1);
    lemma_match_byte(t, QUOTE, c);
    assert(t[c] == s[v1]);
    lemma_find_at(t, qt, v0, w, c);
    assert(value_after_key(t, k, w) == Some((v0, c)));
    // the wrapper's name
    assert(t.subrange(v0, v0 + 9) =~= nv.subrange(0, 9));
    lemma_find_at(t, wrapper_name(), v0, c, v0);
}


/// No launch-options key starts before the inserted one: none did between
/// the app's key and its block's `{`, none can hold that `{`, and the
/// entry's leading whitespace holds no quote.
proof fn lemma_no_key_before_entry(s: Seq<u8>, t: Seq<u8>, a: int, b: int)
    requires
        0 <= a,
        1 <= b <= s.len(),
        b + 8 <= t.len(),
        forall|q: int| 0 <= q < b ==> t[q] == s[q],
        s[b - 1] == crate::text::OPEN_BRACE,
        forall|i: int| a <= i < b ==> !matches_at(s, launch_key(), i),
        forall|i: int| b <= i < b + 8 ==> t[i] != QUOTE,
    ensures
        forall|i: int| a <= i < b + 8 ==> !matches_at(t, launch_key(), i),
{
    let lk = launch_key();
    assert(lk =~= seq![34u8, 76, 97, 117, 110, 99, 104, 79, 112, 116, 105, 111, 110, 115, 34]);
    assert forall|j: int| 0 <= j < 15 implies lk[j] != crate::text::OPEN_BRACE by {}
    assert forall|i: int| a <= i < b + 8 implies !matches_at(t, lk, i) by {
        if matches_at(t, lk, i) {
            if i + 15 <= b {
                assert(t.subrange(i, i + 15) =~= s.subrange(i, i + 15));
                assert(matches_at(s, lk, i));
            } else if i < b {
                assert(t.subrange(i, i + 15)[b - 1 - i] == t[b - 1]);
                assert(lk[b - 1 - i] == crate::text::OPEN_BRACE);
            } else {
                assert(t.subrange(i, i + 15)[0] == t[i]);
                assert(lk[0] == QUOTE);
                assert(t[i] == QUOTE);
            }
        }
    }
}

/// The check finds the wrapper in a file that received the new entry.
proof fn lemma_configured_after_insert(s: Seq<u8>, id: Seq<u8>, a: int, b: int)
    requires
        app_pos(s, id) == Some(a),
        section_start(s, a, id) == Some(b),
        find_in(s, launch_key(), b, window_end(s, b)) is None,
        wrapper_in_check_window(s, id),
    ensures
        is_configured(splice(s, b, b, inserted_entry()), id),
{
    lemma_edit_positions(s, id);
    let e = inserted_entry();
    let lk = launch_key();
    assert(lk =~= seq![34u8, 76, 97, 117, 110, 99, 104, 79, 112, 116, 105, 111, 110, 115, 34]);
    assert(e =~= seq![
        10u8, 9, 9, 9, 9, 9, 9, 9,
        34, 76, 97, 117, 110, 99, 104, 79, 112, 116, 105, 111, 110, 115, 34,
        9, 9, 34,
        112, 114, 111, 116, 111, 110, 104, 97, 120, 32, 105, 110, 105, 116, 32,
        37, 67, 79, 77, 77, 65, 78, 68, 37, 34,
    ]);
    let t = splice(s, b, b, e);
    let tok = app_token(id);
    let qt = seq![QUOTE];
    assert(forall|q: int| 0 <= q < b ==> t[q] == s[q]);
    assert(forall|j: int| 0 <= j < 51 ==> t[b + j] == e[j]);
    // the app's key
    lemma_find_rebound(s, tok, 0, s.len() as int, a + tok.len(), a);
    lemma_find_prefix(s, t, tok, 0, a + tok.len());
    lemma_find_rebound(t, tok, 0, a + tok.len(), t.len() as int, a);
    let w = window_end(t, a);
    assert(b + 51 <= w);
    // the launch-options key, first after the app's key
    assert(s[b - 1] == crate::text::OPEN_BRACE);
    assert(forall|i: int| b <= i < b + 8 ==> t[i] != QUOTE);
    lemma_no_key_before_entry(s, t, a, b);
    assert(t.subrange(b + 8, b + 23) =~= lk);
    lemma_find_at(t, lk, a, w, b + 8);
    // its value
    assert forall|i: int| b + 23 <= i < b + 25 implies !matches_at(t, qt, i) by {
        lemma_match_byte(t, QUOTE, i);
    }
    lemma_match_byte(t, QUOTE, b + 25);
    lemma_find_at(t, qt, b + 23, w, b + 25);
    assert forall|i: int| b + 26 <= i < b + 50 implies !matches_at(t, qt, i) by {
        lemma_match_byte(t, QUOTE, i);
    }
    lemma_match_byte(t, QUOTE, b + 50);
    lemma_find_at(t, qt, b + 26, w, b + 50);
    assert(value_after_key(t, b + 8, w) == Some((b + 26, b + 50)));
    // the wrapper's name
    assert(t.subrange(b + 26, b + 35) =~= wrapper_name());
    lemma_find_at(t, wrapper_name(), b + 26, b + 50, b + 26);
}

/// Wherever the installer succeeds and its work lands within the check's
/// window, the check then finds the wrapper in the resulting file.
pub proof fn lemma_configured_after_install(s: Seq<u8>, id: Seq<u8>)
    requires
        configured_edit(s, id) is Ok,
        !is_configured(s, id) ==> wrapper_in_check_window(s, id),
    ensures
        is_configured(file_after(s, id), id),
{
    if !is_configured(s, id) {
        let a = app_pos(s, id)->Some_0;
        let b = section_start(s, a, id)->Some_0;
        match edited_value(s, id) {
            Some((v0, v1)) => lemma_configured_after_value_rewrite(s, id, v0, v1),
            None => lemma_configured_after_insert(s, id, a, b),
        }
    }
}

/// Installing twice leaves the same file as installing once, wherever the
/// first install's work lands within the check's window.
pub proof fn lemma_install_idempotent(s: Seq<u8>, id: Seq<u8>)
    requires
        configured_edit(s, id) is Ok && !is_configured(s, id) ==> wrapper_in_check_window(s, id),
    ensures
        file_after(file_after(s, id), id) == file_after(s, id),
{
    if configured_edit(s, id) is Ok {
        lemma_configured_after_install(s, id);
    }
}

} // verus!
