//! Where Steam keeps the per-user configuration file: the paths under the
//! Steam root, and the choice of the user directory.

use vstd::prelude::*;

verus! {

/// `base` joined with the relative component `part`, as `Path::join` does
/// it: a separator goes between the two unless `base` is empty or already
/// ends with one.
pub open spec fn path_join(base: Seq<char>, part: Seq<char>) -> Seq<char> {
    if base.len() == 0 || base.last() == '/' {
        base + part
    } else {
        base + seq!['/'] + part
    }
}

/// The user-data directory under the Steam root.
pub open spec fn userdata_of(steam_root: Seq<char>) -> Seq<char> {
    path_join(steam_root, "userdata"@)
}

/// The configuration file under a user's directory.
pub open spec fn localconfig_of(user_dir: Seq<char>) -> Seq<char> {
    path_join(path_join(user_dir, "config"@), "localconfig.vdf"@)
}

/// A directory name that reads as a Steam user id: ASCII digits only.
pub open spec fn is_user_id_name(name: Seq<char>) -> bool {
    forall|i: int| 0 <= i < name.len() ==> '0' <= #[trigger] name[i] <= '9'
}

/// What the locator knows of one entry of the user-data directory.
pub struct DirEntryInfo {
    /// The entry's full path.
    pub path: String,
    /// The entry's file name.
    pub name: String,
    /// Whether the entry is a directory.
    pub is_dir: bool,
}

/// The entry is a user's directory.
pub open spec fn is_user_dir(e: DirEntryInfo) -> bool {
    e.is_dir && is_user_id_name(e.name@)
}

fn join_path(base: &str, part: &str) -> (r: String)
    ensures
        r@ == path_join(base@, part@),
{
    let mut r = String::from_str(base);
    let n = base.unicode_len();
    if n > 0 && base.get_char(n - 1) != '/' {
        let sep = "/";
        proof {
            reveal_strlit("/");
        }
        r.append(sep);
    }
    r.append(part);
    r
}

/// The user-data directory under the Steam root `steam_root`.
pub fn userdata_path(steam_root: &str) -> (r: String)
    ensures
        r@ == userdata_of(steam_root@),
{
    join_path(steam_root, "userdata")
}

/// The path of `localconfig.vdf` under the user directory `user_dir`:
/// `<user_dir>/config/localconfig.vdf`.
pub fn get_localconfig_path(user_dir: &str) -> (r: String)
    ensures
        r@ == localconfig_of(user_dir@),
{
    let config = join_path(user_dir, "config");
    join_path(config.as_str(), "localconfig.vdf")
}

/// Whether `name` consists of ASCII digits only.
pub fn is_user_id(name: &str) -> (r: bool)
    ensures
        r == is_user_id_name(name@),
{
    let n = name.unicode_len();
    let mut i: usize = 0;
    while i < n
        invariant
            n == name@.len(),
            i <= n,
            forall|j: int| 0 <= j < i ==> '0' <= #[trigger] name@[j] <= '9',
        decreases n - i,
    {
        let c = name.get_char(i);
        if c < '0' || c > '9' {
            return false;
        }
        i = i + 1;
    }
    true
}

/// The first entry that is a user's directory: a directory whose name is
/// all ASCII digits.
pub fn first_user_dir(entries: &Vec<DirEntryInfo>) -> (r: Option<usize>)
    ensures
        match r {
            Some(i) => {
                &&& i < entries@.len()
                &&& is_user_dir(entries@[i as int])
                &&& forall|j: int| 0 <= j < i ==> !is_user_dir(#[trigger] entries@[j])
            },
            None => forall|j: int| 0 <= j < entries@.len() ==> !is_user_dir(#[trigger] entries@[j]),
        },
{
    let mut i: usize = 0;
    while i < entries.len()
        invariant
            i <= entries@.len(),
            forall|j: int| 0 <= j < i ==> !is_user_dir(#[trigger] entries@[j]),
        decreases entries@.len() - i,
    {
        if entries[i].is_dir && is_user_id(entries[i].name.as_str()) {
            return Some(i);
        }
        i = i + 1;
    }
    None
}

} // verus!
