//! The user's preferences: the last selection, the auto-configure flag, and
//! the programs chosen for each game. Loading and storing them is the
//! caller's business; this is the document and its updates.

use vstd::prelude::*;

verus! {

/// The programs to start in one game's prefix; an empty path is unset.
#[derive(Debug)]
pub struct GameConfig {
    pub exe1_path: String,
    pub exe2_path: String,
}

/// A game's programs as mathematical values.
pub open spec fn config_view(c: GameConfig) -> (Seq<char>, Seq<char>) {
    (c.exe1_path@, c.exe2_path@)
}

/// The programs of a game that has none set.
pub open spec fn unset_config() -> (Seq<char>, Seq<char>) {
    (Seq::empty(), Seq::empty())
}

impl Default for GameConfig {
    fn default() -> (r: GameConfig)
        ensures
            config_view(r) == unset_config(),
    {
        GameConfig { exe1_path: String::new(), exe2_path: String::new() }
    }
}

/// One of the two program slots.
#[derive(Debug, Clone, Copy, PartialEq, Eq, Structural)]
pub enum ExeSlot {
    First,
    Second,
}

/// `c` with the program in `slot` set to `path`.
pub open spec fn with_slot(c: (Seq<char>, Seq<char>), slot: ExeSlot, path: Seq<char>) -> (
    Seq<char>,
    Seq<char>,
) {
    match slot {
        ExeSlot::First => (path, c.1),
        ExeSlot::Second => (c.0, path),
    }
}

/// A game's programs under its app id.
#[derive(Debug)]
pub struct GameEntry {
    pub app_id: String,
    pub config: GameConfig,
}

/// Each app id appears in at most one entry.
pub open spec fn unique_ids(s: Seq<GameEntry>) -> bool {
    forall|i: int, j: int|
        0 <= i < s.len() && 0 <= j < s.len() && i != j ==> #[trigger] s[i].app_id@
            != #[trigger] s[j].app_id@
}

/// Some entry holds the app id `k`.
pub open spec fn has_id(s: Seq<GameEntry>, k: Seq<char>) -> bool {
    exists|i: int| 0 <= i < s.len() && #[trigger] s[i].app_id@ == k
}

/// The programs of each game, by app id.
pub open spec fn games_map(s: Seq<GameEntry>) -> Map<Seq<char>, (Seq<char>, Seq<char>)> {
    Map::new(
        |k: Seq<char>| has_id(s, k),
        |k: Seq<char>|
            {
                let i = choose|i: int| 0 <= i < s.len() && #[trigger] s[i].app_id@ == k;
                config_view(s[i].config)
            },
    )
}

/// The entry at `i` is the one that the map reads for its app id.
proof fn lemma_entry_in_map(s: Seq<GameEntry>, i: int)
    requires
        unique_ids(s),
        0 <= i < s.len(),
    ensures
        games_map(s).contains_key(s[i].app_id@),
        games_map(s)[s[i].app_id@] == config_view(s[i].config),
{
    let k = s[i].app_id@;
    assert(s[i].app_id@ == k);
    let j = choose|j: int| 0 <= j < s.len() && #[trigger] s[j].app_id@ == k;
    assert(j == i);
}

/// Replacing an entry by one with the same app id changes that key alone.
proof fn lemma_update_entry(s: Seq<GameEntry>, i: int, e: GameEntry)
    requires
        unique_ids(s),
        0 <= i < s.len(),
        e.app_id@ == s[i].app_id@,
    ensures
        unique_ids(s.update(i, e)),
        games_map(s.update(i, e)) == games_map(s).insert(e.app_id@, config_view(e.config)),
{
    let t = s.update(i, e);
    let k = e.app_id@;
    assert(unique_ids(t)) by {
        assert forall|a: int, b: int| 0 <= a < t.len() && 0 <= b < t.len() && a != b implies
            #[trigger] t[a].app_id@ != #[trigger] t[b].app_id@ by {
            assert(s[a].app_id@ == t[a].app_id@);
            assert(s[b].app_id@ == t[b].app_id@);
        }
    }
    let m = games_map(s).insert(k, config_view(e.config));
    assert forall|k2: Seq<char>| #[trigger] games_map(t).contains_key(k2) == m.contains_key(k2) by {
        if k2 == k {
            assert(t[i].app_id@ == k2);
        } else if has_id(s, k2) {
            let j = choose|j: int| 0 <= j < s.len() && #[trigger] s[j].app_id@ == k2;
            assert(t[j].app_id@ == k2);
        } else if has_id(t, k2) {
            let j = choose|j: int| 0 <= j < t.len() && #[trigger] t[j].app_id@ == k2;
            assert(s[j].app_id@ == k2);
        }
    }
    assert forall|k2: Seq<char>| #[trigger] games_map(t).contains_key(k2) implies games_map(t)[k2]
        == m[k2] by {
        if k2 == k {
            lemma_entry_in_map(t, i);
        } else {
            let j = choose|j: int| 0 <= j < t.len() && #[trigger] t[j].app_id@ == k2;
            lemma_entry_in_map(t, j);
            lemma_entry_in_map(s, j);
        }
    }
    assert(games_map(t) =~= m);
}

/// Appending an entry for a new app id adds that key alone.
proof fn lemma_push_entry(s: Seq<GameEntry>, e: GameEntry)
    requires
        unique_ids(s),
        !has_id(s, e.app_id@),
    ensures
        unique_ids(s.push(e)),
        games_map(s.push(e)) == games_map(s).insert(e.app_id@, config_view(e.config)),
{
    let t = s.push(e);
    let k = e.app_id@;
    assert(unique_ids(t)) by {
        assert forall|a: int, b: int| 0 <= a < t.len() && 0 <= b < t.len() && a != b implies
            #[trigger] t[a].app_id@ != #[trigger] t[b].app_id@ by {
            if a < s.len() && b < s.len() {
                assert(s[a].app_id@ == t[a].app_id@);
                assert(s[b].app_id@ == t[b].app_id@);
            } else if a < s.len() {
                assert(s[a].app_id@ == t[a].app_id@);
            } else {
                assert(s[b].app_id@ == t[b].app_id@);
            }
        }
    }
    let m = games_map(s).insert(k, config_view(e.config));
    assert forall|k2: Seq<char>| #[trigger] games_map(t).contains_key(k2) == m.contains_key(k2) by {
        if k2 == k {
            assert(t[s.len() as int].app_id@ == k2);
        } else if has_id(s, k2) {
            let j = choose|j: int| 0 <= j < s.len() && #[trigger] s[j].app_id@ == k2;
            assert(t[j].app_id@ == k2);
        } else if has_id(t, k2) {
            let j = choose|j: int| 0 <= j < t.len() && #[trigger] t[j].app_id@ == k2;
            assert(s[j].app_id@ == k2);
        }
    }
    assert forall|k2: Seq<char>| #[trigger] games_map(t).contains_key(k2) implies games_map(t)[k2]
        == m[k2] by {
        if k2 == k {
            lemma_entry_in_map(t, s.len() as int);
        } else {
            let j = choose|j: int| 0 <= j < t.len() && #[trigger] t[j].app_id@ == k2;
            lemma_entry_in_map(t, j);
            lemma_entry_in_map(s, j);
        }
    }
    assert(games_map(t) =~= m);
}

/// The preferences document.
#[derive(Debug)]
pub struct AppConfig {
    pub last_game_name: String,
    pub last_app_id: String,
    pub auto_configure: bool,
    /// One entry per game, app ids unique (see `wf`).
    pub games: Vec<GameEntry>,
}

impl AppConfig {
    /// Each app id appears in at most one entry.
    pub open spec fn wf(&self) -> bool {
        unique_ids(self.games@)
    }

    /// The programs of each game, by app id.
    pub open spec fn game_map(&self) -> Map<Seq<char>, (Seq<char>, Seq<char>)> {
        games_map(self.games@)
    }

    /// The programs set for `app_id`, unset where it has no entry.
    pub open spec fn programs_of(&self, app_id: Seq<char>) -> (Seq<char>, Seq<char>) {
        if self.game_map().contains_key(app_id) {
            self.game_map()[app_id]
        } else {
            unset_config()
        }
    }

    /// The index of the entry for `key`.
    fn position(&self, key: &String) -> (r: Option<usize>)
        requires
            self.wf(),
        ensures
            match r {
                Some(i) => i < self.games@.len() && self.games@[i as int].app_id@ == key@,
                None => !has_id(self.games@, key@),
            },
    {
        let mut i: usize = 0;
        while i < self.games.len()
            invariant
                i <= self.games@.len(),
                forall|j: int| 0 <= j < i ==> self.games@[j].app_id@ != key@,
            decreases self.games@.len() - i,
        {
            if self.games[i].app_id == *key {
                return Some(i);
            }
            i = i + 1;
        }
        None
    }

    /// The programs set for `app_id`; both unset where it has no entry.
    pub fn game_config(&self, app_id: &str) -> (r: GameConfig)
        requires
            self.wf(),
        ensures
            config_view(r) == self.programs_of(app_id@),
    {
        let key = String::from_str(app_id);
        match self.position(&key) {
            Some(i) => {
                proof {
                    lemma_entry_in_map(self.games@, i as int);
                }
                GameConfig {
                    exe1_path: self.games[i].config.exe1_path.clone(),
                    exe2_path: self.games[i].config.exe2_path.clone(),
                }
            },
            None => GameConfig::default(),
        }
    }
}


impl AppConfig {
    /// Sets the program in `slot` for `app_id` to `path`, making an entry
    /// for `app_id` where it has none.
    pub fn set_exe_path(&mut self, app_id: &str, slot: ExeSlot, path: String)
        requires
            old(self).wf(),
        ensures
            final(self).wf(),
            final(self).game_map() == old(self).game_map().insert(
                app_id@,
                with_slot(old(self).programs_of(app_id@), slot, path@),
            ),
            final(self).last_game_name == old(self).last_game_name,
            final(self).last_app_id == old(self).last_app_id,
            final(self).auto_configure == old(self).auto_configure,
    {
        let key = String::from_str(app_id);
        match self.position(&key) {
            Some(i) => {
                proof {
                    lemma_entry_in_map(self.games@, i as int);
                }
                let config = match slot {
                    ExeSlot::First => GameConfig {
                        exe1_path: path,
                        exe2_path: self.games[i].config.exe2_path.clone(),
                    },
                    ExeSlot::Second => GameConfig {
                        exe1_path: self.games[i].config.exe1_path.clone(),
                        exe2_path: path,
                    },
                };
                let entry = GameEntry { app_id: key, config };
                proof {
                    lemma_update_entry(self.games@, i as int, entry);
                }
                self.games[i] = entry;
            },
            None => {
                let config = match slot {
                    ExeSlot::First => GameConfig { exe1_path: path, exe2_path: String::new() },
                    ExeSlot::Second => GameConfig { exe1_path: String::new(), exe2_path: path },
                };
                let entry = GameEntry { app_id: key, config };
                proof {
                    lemma_push_entry(self.games@, entry);
                }
                self.games.push(entry);
            },
        }
    }

    /// Unsets the program in `slot` for `app_id`, where `app_id` has an
    /// entry; otherwise nothing changes.
    pub fn clear_exe_path(&mut self, app_id: &str, slot: ExeSlot)
        requires
            old(self).wf(),
        ensures
            final(self).wf(),
            final(self).game_map() == if old(self).game_map().contains_key(app_id@) {
                old(self).game_map().insert(
                    app_id@,
                    with_slot(old(self).game_map()[app_id@], slot, Seq::empty()),
                )
            } else {
                old(self).game_map()
            },
            final(self).last_game_name == old(self).last_game_name,
            final(self).last_app_id == old(self).last_app_id,
            final(self).auto_configure == old(self).auto_configure,
    {
        let key = String::from_str(app_id);
        if let Some(_) = self.position(&key) {
            self.set_exe_path(app_id, slot, String::new());
        }
    }

    /// Records the game last selected.
    pub fn select_game(&mut self, name: String, app_id: String)
        requires
            old(self).wf(),
        ensures
            final(self).wf(),
            final(self).game_map() == old(self).game_map(),
            final(self).last_game_name == name,
            final(self).last_app_id == app_id,
            final(self).auto_configure == old(self).auto_configure,
    {
        self.last_game_name = name;
        self.last_app_id = app_id;
    }

    /// Sets whether the wrapper is installed at launch.
    pub fn set_auto_configure(&mut self, enabled: bool)
        requires
            old(self).wf(),
        ensures
            final(self).wf(),
            final(self).game_map() == old(self).game_map(),
            final(self).last_game_name == old(self).last_game_name,
            final(self).last_app_id == old(self).last_app_id,
            final(self).auto_configure == enabled,
    {
        self.auto_configure = enabled;
    }
}

impl Default for AppConfig {
    /// No selection, auto-configuration on, no game's programs set.
    fn default() -> (r: AppConfig)
        ensures
            r.wf(),
            r.last_game_name@ == Seq::<char>::empty(),
            r.last_app_id@ == Seq::<char>::empty(),
            r.auto_configure,
            r.game_map() == Map::<Seq<char>, (Seq<char>, Seq<char>)>::empty(),
    {
        let r = AppConfig {
            last_game_name: String::new(),
            last_app_id: String::new(),
            auto_configure: true,
            games: Vec::new(),
        };
        assert(r.game_map() =~= Map::<Seq<char>, (Seq<char>, Seq<char>)>::empty());
        r
    }
}

} // verus!
