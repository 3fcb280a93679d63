//! The launch-options editor: a localized textual edit of `localconfig.vdf`
//! that installs the wrapper in one app's launch options and leaves every
//! other byte of the file as it was.

use vstd::prelude::*;
use vstd::string::StringSliceAdditionalSpecFns;
use crate::search::{find_bytes, find_in, lemma_find_some};
use crate::text::{
    app_token, app_token_bytes, inserted_entry, inserted_entry_bytes, launch_key,
    launch_key_bytes, push_range, wrapped, wrapped_value, wrapper_name, wrapper_name_bytes,
    KEY_LEN, OPEN_BRACE, QUOTE,
};

verus! {

/// How far past its start a search for the launch-options key looks.
pub const WINDOW: usize = 500;

/// Why the launch options could not be edited.
#[derive(Debug, Clone, Copy, PartialEq, Eq, Structural)]
pub enum EditError {
    /// The app's key does not occur in the file.
    GameNotFound,
    /// No `{` follows the app's key.
    InvalidStructure,
    /// The launch-options key is not followed by a complete quoted value.
    InvalidLaunchOptions,
}

/// A successful outcome of the installer.
#[derive(Debug, PartialEq, Eq)]
pub enum LaunchEdit {
    /// The wrapper was there already; the file is to stay as it is.
    AlreadyConfigured,
    /// The file's new contents.
    Rewritten(Vec<u8>),
}

/// The outcome as mathematical values: `None` for a file left alone.
pub open spec fn edit_view(r: Result<LaunchEdit, EditError>) -> Result<Option<Seq<u8>>, EditError> {
    match r {
        Ok(LaunchEdit::AlreadyConfigured) => Ok(None),
        Ok(LaunchEdit::Rewritten(v)) => Ok(Some(v@)),
        Err(e) => Err(e),
    }
}

/// End of the search window that starts at `start`.
pub open spec fn window_end(s: Seq<u8>, start: int) -> int {
    if start + WINDOW <= s.len() {
        start + WINDOW
    } else {
        s.len() as int
    }
}

/// The value after the key at `k`, as `(v0, v1)`: `v0` just past its opening
/// quote, `v1` at its closing quote. Both quotes lie before `limit`.
pub open spec fn value_after_key(s: Seq<u8>, k: int, limit: int) -> Option<(int, int)> {
    match find_in(s, seq![QUOTE], k + KEY_LEN, limit) {
        None => None,
        Some(q1) => match find_in(s, seq![QUOTE], q1 + 1, limit) {
            None => None,
            Some(q2) => Some((q1 + 1, q2)),
        },
    }
}

/// Where the first occurrence of the app's quoted key starts.
pub open spec fn app_pos(s: Seq<u8>, id: Seq<u8>) -> Option<int> {
    find_in(s, app_token(id), 0, s.len() as int)
}

/// The value that the check reads: that of the first launch-options key
/// within the window after the app's key, read within that window.
pub open spec fn checked_value(s: Seq<u8>, id: Seq<u8>) -> Option<(int, int)> {
    match app_pos(s, id) {
        None => None,
        Some(a) => match find_in(s, launch_key(), a, window_end(s, a)) {
            None => None,
            Some(k) => value_after_key(s, k, window_end(s, a)),
        },
    }
}

/// The wrapper is installed for `id`: the value that the check reads
/// contains `protonhax`.
pub open spec fn is_configured(s: Seq<u8>, id: Seq<u8>) -> bool {
    match checked_value(s, id) {
        None => false,
        Some((v0, v1)) => find_in(s, wrapper_name(), v0, v1) is Some,
    }
}

/// Where the body of the app's block starts: just past the first `{` after
/// the app's key.
pub open spec fn section_start(s: Seq<u8>, a: int, id: Seq<u8>) -> Option<int> {
    match find_in(s, seq![OPEN_BRACE], a + app_token(id).len(), s.len() as int) {
        None => None,
        Some(br) => Some(br + 1),
    }
}

/// `s` with `s[i..j]` replaced by `x`.
pub open spec fn splice(s: Seq<u8>, i: int, j: int, x: Seq<u8>) -> Seq<u8> {
    s.subrange(0, i) + x + s.subrange(j, s.len() as int)
}

/// The installer's outcome on the file `s`: `Ok(None)` where the wrapper is
/// there already, `Ok(Some(t))` with the new file `t`, or the error.
pub open spec fn configured_edit(s: Seq<u8>, id: Seq<u8>) -> Result<Option<Seq<u8>>, EditError> {
    if is_configured(s, id) {
        Ok(None)
    } else {
        match app_pos(s, id) {
            None => Err(EditError::GameNotFound),
            Some(a) => match section_start(s, a, id) {
                None => Err(EditError::InvalidStructure),
                Some(b) => match find_in(s, launch_key(), b, window_end(s, b)) {
                    Some(k) => match value_after_key(s, k, s.len() as int) {
                        None => Err(EditError::InvalidLaunchOptions),
                        Some((v0, v1)) => Ok(Some(splice(s, v0, v1, wrapped(s.subrange(v0, v1))))),
                    },
                    None => Ok(Some(splice(s, b, b, inserted_entry()))),
                },
            },
        }
    }
}

/// The file after the installer: the new contents, or `s` itself where the
/// installer leaves it alone.
pub open spec fn file_after(s: Seq<u8>, id: Seq<u8>) -> Seq<u8> {
    match configured_edit(s, id) {
        Ok(Some(t)) => t,
        _ => s,
    }
}

fn window_end_exec(s: &[u8], start: usize) -> (r: usize)
    requires
        start <= s@.len(),
    ensures
        r as int == window_end(s@, start as int),
{
    let len: usize = s.len();
    if len - start >= WINDOW {
        start + WINDOW
    } else {
        len
    }
}

fn value_after_key_exec(s: &[u8], k: usize, limit: usize) -> (r: Option<(usize, usize)>)
    requires
        limit <= s@.len(),
        k + KEY_LEN <= s@.len(),
    ensures
        match r {
            Some((v0, v1)) => {
                &&& value_after_key(s@, k as int, limit as int) == Some((v0 as int, v1 as int))
                &&& v0 <= v1 < limit
            },
            None => value_after_key(s@, k as int, limit as int) is None,
        },
{
    let n: usize = s.len();
    assert(k + KEY_LEN <= n);
    let quote: Vec<u8> = vec![QUOTE];
    assert(quote@ =~= seq![QUOTE]);
    match find_bytes(s, quote.as_slice(), k + KEY_LEN, limit) {
        None => None,
        Some(q1) => {
            proof {
                lemma_find_some(s@, seq![QUOTE], k + KEY_LEN, limit as int, q1 as int);
            }
            match find_bytes(s, quote.as_slice(), q1 + 1, limit) {
                None => None,
                Some(q2) => {
                    proof {
                        lemma_find_some(s@, seq![QUOTE], q1 + 1, limit as int, q2 as int);
                    }
                    Some((q1 + 1, q2))
                },
            }
        },
    }
}

/// `s` with `s[i..j]` replaced by `x`.
fn splice_bytes(s: &[u8], i: usize, j: usize, x: &[u8]) -> (r: Vec<u8>)
    requires
        i <= j <= s@.len(),
    ensures
        r@ == splice(s@, i as int, j as int, x@),
{
    let mut r: Vec<u8> = Vec::new();
    push_range(&mut r, s, 0, i);
    push_range(&mut r, x, 0, x.len());
    push_range(&mut r, s, j, s.len());
    assert(x@.subrange(0, x@.len() as int) =~= x@);
    assert(r@ =~= splice(s@, i as int, j as int, x@));
    r
}

/// Whether the wrapper is installed for `app_id` in the file `content`:
/// the first launch-options value within 500 bytes of the app's quoted key,
/// read within those bytes, contains `protonhax`.
pub fn has_protonhax_configured(content: &[u8], app_id: &str) -> (r: bool)
    ensures
        r == is_configured(content@, app_id.spec_bytes()),
{
    let n: usize = content.len();
    let token = app_token_bytes(app_id.as_bytes());
    match find_bytes(content, token.as_slice(), 0, n) {
        None => false,
        Some(a) => {
            proof {
                lemma_find_some(content@, token@, 0, n as int, a as int);
            }
            let w = window_end_exec(content, a);
            let key = launch_key_bytes();
            match find_bytes(content, key.as_slice(), a, w) {
                None => false,
                Some(k) => {
                    proof {
                        lemma_find_some(content@, key@, a as int, w as int, k as int);
                    }
                    match value_after_key_exec(content, k, w) {
                        None => false,
                        Some((v0, v1)) => {
                            let name = wrapper_name_bytes();
                            match find_bytes(content, name.as_slice(), v0, v1) {
                                Some(_) => true,
                                None => false,
                            }
                        },
                    }
                },
            }
        },
    }
}

/// Installs the wrapper in the launch options of `app_id` in the file
/// `content`. The result is exactly `configured_edit`: nothing to do where
/// the wrapper is there already; otherwise the existing value `v` of the
/// first launch-options key within 500 bytes of the app block's `{` becomes
/// `protonhax init v %COMMAND%` (`protonhax init %COMMAND%` where `v` is
/// empty), or, with no such key, a new entry opens the block.
pub fn configure_launch_options(content: &[u8], app_id: &str) -> (r: Result<LaunchEdit, EditError>)
    ensures
        edit_view(r) == configured_edit(content@, app_id.spec_bytes()),
{
    if has_protonhax_configured(content, app_id) {
        return Ok(LaunchEdit::AlreadyConfigured);
    }
    let n: usize = content.len();
    let token = app_token_bytes(app_id.as_bytes());
    let a = match find_bytes(content, token.as_slice(), 0, n) {
        None => return Err(EditError::GameNotFound),
        Some(a) => a,
    };
    proof {
        lemma_find_some(content@, token@, 0, n as int, a as int);
    }
    let brace: Vec<u8> = vec![OPEN_BRACE];
    assert(brace@ =~= seq![OPEN_BRACE]);
    let br = match find_bytes(content, brace.as_slice(), a + token.len(), n) {
        None => return Err(EditError::InvalidStructure),
        Some(br) => br,
    };
    proof {
        lemma_find_some(content@, brace@, a + token@.len(), n as int, br as int);
    }
    let b = br + 1;
    let w = window_end_exec(content, b);
    let key = launch_key_bytes();
    match find_bytes(content, key.as_slice(), b, w) {
        Some(k) => {
            proof {
                lemma_find_some(content@, key@, b as int, w as int, k as int);
            }
            match value_after_key_exec(content, k, n) {
                None => Err(EditError::InvalidLaunchOptions),
                Some((v0, v1)) => {
                    let value = wrapped_value(content, v0, v1);
                    Ok(LaunchEdit::Rewritten(splice_bytes(content, v0, v1, value.as_slice())))
                },
            }
        },
        None => {
            let entry = inserted_entry_bytes();
            Ok(LaunchEdit::Rewritten(splice_bytes(content, b, b, entry.as_slice())))
        },
    }
}


impl EditError {
    /// The line reported for the error.
    pub fn message(&self) -> (r: String)
        ensures
            r@ == match self {
                EditError::GameNotFound => "Game not found in Steam config. Launch the game from Steam at least once first."@,
                EditError::InvalidStructure => "Invalid VDF structure"@,
                EditError::InvalidLaunchOptions => "Invalid LaunchOptions format"@,
            },
    {
        match self {
            EditError::GameNotFound => String::from_str(
                "Game not found in Steam config. Launch the game from Steam at least once first.",
            ),
            EditError::InvalidStructure => String::from_str("Invalid VDF structure"),
            EditError::InvalidLaunchOptions => String::from_str("Invalid LaunchOptions format"),
        }
    }
}

impl LaunchEdit {
    /// The line reported for a successful install.
    pub fn message(&self) -> (r: String)
        ensures
            r@ == match self {
                LaunchEdit::AlreadyConfigured => "Launch options already configured"@,
                LaunchEdit::Rewritten(_) => "Launch options configured successfully"@,
            },
    {
        match self {
            LaunchEdit::AlreadyConfigured => String::from_str("Launch options already configured"),
            LaunchEdit::Rewritten(_) => String::from_str("Launch options configured successfully"),
        }
    }
}

/// Why the wrapper could not be installed, the file's I/O included.
#[derive(Debug, PartialEq, Eq)]
pub enum ConfigError {
    /// Steam's `localconfig.vdf` was not found.
    NotLocated,
    /// The file could not be read; the detail says why.
    ReadFailed(String),
    /// The edit failed.
    Edit(EditError),
    /// The file could not be written; the detail says why.
    WriteFailed(String),
}

impl ConfigError {
    /// The line reported for the error.
    pub fn message(&self) -> (r: String)
        ensures
            r@ == match self {
                ConfigError::NotLocated => "Could not find Steam localconfig.vdf"@,
                ConfigError::ReadFailed(d) => "Failed to read localconfig.vdf: "@ + d@,
                ConfigError::Edit(e) => match e {
                    EditError::GameNotFound => "Game not found in Steam config. Launch the game from Steam at least once first."@,
                    EditError::InvalidStructure => "Invalid VDF structure"@,
                    EditError::InvalidLaunchOptions => "Invalid LaunchOptions format"@,
                },
                ConfigError::WriteFailed(d) => "Failed to write localconfig.vdf: "@ + d@,
            },
    {
        match self {
            ConfigError::NotLocated => String::from_str("Could not find Steam localconfig.vdf"),
            ConfigError::ReadFailed(d) => {
                let mut r = String::from_str("Failed to read localconfig.vdf: ");
                r.append(d.as_str());
                r
            },
            ConfigError::Edit(e) => e.message(),
            ConfigError::WriteFailed(d) => {
                let mut r = String::from_str("Failed to write localconfig.vdf: ");
                r.append(d.as_str());
                r
            },
        }
    }
}

} // verus!
