//! Where the runtime tree lives, and the start-up configuration that can
//! point to it.
//!
//! Paths are kept as text with `/` as separator and are joined the way a
//! Unix path buffer pushes a component: an absolute component replaces the
//! path, an empty path takes the component as it is, and otherwise one
//! separator goes between them unless the path already ends in one.
use vstd::prelude::*;

verus! {

/// `base` with the path component `seg` pushed onto it.
pub open spec fn path_join(base: Seq<char>, seg: Seq<char>) -> Seq<char> {
    if seg.len() > 0 && seg[0] == '/' {
        seg
    } else if base.len() == 0 {
        seg
    } else if base.last() == '/' {
        base + seg
    } else {
        base + seq!['/'] + seg
    }
}

/// Pushes the path component `seg` onto `base` (see [`path_join`]).
pub fn join_path(base: &str, seg: &str) -> (r: String)
    ensures
        r@ == path_join(base@, seg@),
        // An absolute component replaces the path.
        seg@.len() > 0 && seg@[0] == '/' ==> r@ == seg@,
        // A relative one is appended: the path comes first, the component
        // last, with one `/` between them unless the path is empty or already
        // ends in one.
        !(seg@.len() > 0 && seg@[0] == '/') ==> r@.len() == base@.len() + seg@.len() + (if base@.len() == 0
            || base@.last() == '/' {
            0int
        } else {
            1int
        }) && r@.subrange(0, base@.len() as int) == base@ && r@.subrange(r@.len() - seg@.len(), r@.len() as int)
            == seg@,
        !(seg@.len() > 0 && seg@[0] == '/') && base@.len() > 0 && base@.last() != '/' ==> r@[base@.len() as int] == '/',
{
    let seg_len = seg.unicode_len();
    if seg_len > 0 && seg.get_char(0) == '/' {
        return String::from_str(seg);
    }
    let base_len = base.unicode_len();
    if base_len == 0 {
        return String::from_str(seg);
    }
    let mut out = String::from_str(base);
    if base.get_char(base_len - 1) != '/' {
        out.append("/");
        proof {
            reveal_strlit("/");
        }
    }
    out.append(seg);
    proof {
        reveal_strlit("/");
        assert(base@.last() == base@[base_len - 1]);
    }
    out
}

/// `name` with `.yml` appended.
pub open spec fn yml_name(name: Seq<char>) -> Seq<char> {
    name + seq!['.', 'y', 'm', 'l']
}

fn yml_file_name(name: &str) -> (r: String)
    ensures
        r@ == yml_name(name@),
{
    let mut s = String::from_str(name);
    s.append(".yml");
    proof {
        reveal_strlit(".yml");
    }
    s
}

/// The root of the runtime tree (`runtime/data`, `runtime/assets`).
#[derive(Debug, Clone)]
pub struct RuntimePaths {
    pub root: String,
}

/// `root/data`.
pub open spec fn data_path(root: Seq<char>) -> Seq<char> {
    path_join(root, seq!['d', 'a', 't', 'a'])
}

/// `root/data/characters/{name}`.
pub open spec fn character_path(root: Seq<char>, name: Seq<char>) -> Seq<char> {
    path_join(path_join(data_path(root), "characters"@), name)
}

impl RuntimePaths {
    /// Paths under a known root.
    pub fn from_root(root: String) -> (r: Self)
        ensures
            r.root@ == root@,
    {
        RuntimePaths { root }
    }

    /// The root of the runtime tree, chosen in order from the environment,
    /// from `bebeu-engine.yml`, or the fallback next to the engine's sources.
    pub fn resolve(env_root: Option<String>, engine_config: &EngineConfig, fallback: String) -> (r: Self)
        ensures
            r.root@ == (match env_root {
                Some(e) => e@,
                None => match engine_config.workspace_dir {
                    Some(w) => w@,
                    None => fallback@,
                },
            }),
    {
        if let Some(e) = env_root {
            return RuntimePaths { root: e };
        }
        match &engine_config.workspace_dir {
            Some(w) => RuntimePaths { root: w.clone() },
            None => RuntimePaths { root: fallback },
        }
    }

    /// The root directory.
    pub fn root(&self) -> (r: &str)
        ensures
            r@ == self.root@,
    {
        self.root.as_str()
    }

    /// The directory the asset loader reads from: `root/data`.
    pub fn data_dir(&self) -> (r: String)
        ensures
            r@ == data_path(self.root@),
    {
        proof {
            reveal_strlit("data");
        }
        join_path(self.root.as_str(), "data")
    }

    /// `root/data/projects/{name}.yml`.
    pub fn project_file(&self, name: &str) -> (r: String)
        ensures
            r@ == path_join(path_join(data_path(self.root@), "projects"@), yml_name(name@)),
    {
        let d = self.data_dir();
        let p = join_path(d.as_str(), "projects");
        let f = yml_file_name(name);
        join_path(p.as_str(), f.as_str())
    }

    /// `root/data/characters/{name}.yml`.
    pub fn character_file(&self, name: &str) -> (r: String)
        ensures
            r@ == path_join(path_join(data_path(self.root@), "characters"@), yml_name(name@)),
    {
        let d = self.data_dir();
        let p = join_path(d.as_str(), "characters");
        let f = yml_file_name(name);
        join_path(p.as_str(), f.as_str())
    }

    /// `root/data/characters/{name}`, holding `sprite-groups/` and
    /// `animations/`.
    pub fn character_dir(&self, name: &str) -> (r: String)
        ensures
            r@ == character_path(self.root@, name@),
    {
        let d = self.data_dir();
        let p = join_path(d.as_str(), "characters");
        join_path(p.as_str(), name)
    }

    /// `root/data/levels/{name}.yml`.
    pub fn level_file(&self, name: &str) -> (r: String)
        ensures
            r@ == path_join(path_join(data_path(self.root@), "levels"@), yml_name(name@)),
    {
        let d = self.data_dir();
        let p = join_path(d.as_str(), "levels");
        let f = yml_file_name(name);
        join_path(p.as_str(), f.as_str())
    }

    /// `root/data/characters/{character}/sprite-groups/{group}.yml`.
    pub fn sprite_group_file(&self, character: &str, group: &str) -> (r: String)
        ensures
            r@ == path_join(path_join(character_path(self.root@, character@), "sprite-groups"@), yml_name(group@)),
    {
        let c = self.character_dir(character);
        let g = join_path(c.as_str(), "sprite-groups");
        let f = yml_file_name(group);
        join_path(g.as_str(), f.as_str())
    }

    /// `root/data/characters/{character}/sprite-groups/{group}/sprites/{sprite}`.
    pub fn sprite_file(&self, character: &str, group: &str, sprite: &str) -> (r: String)
        ensures
            r@ == path_join(
                path_join(path_join(path_join(character_path(self.root@, character@), "sprite-groups"@), group@), "sprites"@),
                sprite@,
            ),
    {
        let c = self.character_dir(character);
        let g = join_path(c.as_str(), "sprite-groups");
        let gg = join_path(g.as_str(), group);
        let s = join_path(gg.as_str(), "sprites");
        join_path(s.as_str(), sprite)
    }

    /// `root/data/characters/{character}/sound-groups/{group}/sounds/{sound}`.
    pub fn sound_file(&self, character: &str, group: &str, sound: &str) -> (r: String)
        ensures
            r@ == path_join(
                path_join(path_join(path_join(character_path(self.root@, character@), "sound-groups"@), group@), "sounds"@),
                sound@,
            ),
    {
        let c = self.character_dir(character);
        let g = join_path(c.as_str(), "sound-groups");
        let gg = join_path(g.as_str(), group);
        let s = join_path(gg.as_str(), "sounds");
        join_path(s.as_str(), sound)
    }
}

/// The contents of `bebeu-engine.yml`: only where the runtime tree is.
#[derive(Debug, Clone)]
pub struct EngineConfig {
    pub workspace_dir: Option<String>,
}

impl Default for EngineConfig {
    fn default() -> (r: Self)
        ensures
            r.workspace_dir is None,
    {
        EngineConfig { workspace_dir: None }
    }
}

} // verus!
