//! Bands: isolated environments (their own home, configuration, data and
//! temporary directories) in which agents can be tried without touching the
//! user's own setup. The library lays out a band and decides; the program
//! around it touches the file system.

use crate::outside::{joined, path_join};
use vstd::prelude::*;

verus! {

/// How strongly a band is isolated.
#[derive(Debug, Clone, Copy, PartialEq, Eq, Structural)]
pub enum BandIsolationLevel {
    /// Only the home and configuration directories are isolated.
    Lightweight,
    /// Home, a temporary file system, and network restricted to loopback.
    Standard,
}

impl BandIsolationLevel {
    /// The name of the level, as the status shows it.
    pub open spec fn spec_name(self) -> Seq<char> {
        match self {
            BandIsolationLevel::Lightweight => "Lightweight"@,
            BandIsolationLevel::Standard => "Standard"@,
        }
    }

    /// The name of the level, as the status shows it.
    pub fn name(&self) -> (res: String)
        ensures
            res@ == self.spec_name(),
    {
        match self {
            BandIsolationLevel::Lightweight => String::from_str("Lightweight"),
            BandIsolationLevel::Standard => String::from_str("Standard"),
        }
    }

    /// The level a command-line word names: `standard`, or else lightweight.
    pub fn from_flag(word: &str) -> (res: BandIsolationLevel)
        ensures
            res == (if word@ == "standard"@ {
                BandIsolationLevel::Standard
            } else {
                BandIsolationLevel::Lightweight
            }),
    {
        if crate::text::str_eq(word, "standard") {
            BandIsolationLevel::Standard
        } else {
            BandIsolationLevel::Lightweight
        }
    }
}

/// A band: its name, isolation level, root directory and creation time
/// (RFC 3339 text).
#[derive(Debug)]
pub struct Band {
    pub name: String,
    pub isolation: BandIsolationLevel,
    pub root: String,
    pub created_at: String,
}

/// What `aish band status` shows of a band.
#[derive(Debug)]
pub struct BandStatus {
    pub name: String,
    pub isolation: String,
    pub root: String,
    pub created_at: String,
    pub exists: bool,
    pub db_exists: bool,
    pub db_size_bytes: u64,
    pub adapters_configured: bool,
}

/// Why a band operation was refused.
#[derive(Debug)]
pub enum BandError {
    /// A band of this name already has a root directory.
    AlreadyExists { name: String, root: String },
    /// No band of this name exists.
    NotFound { name: String },
}

impl BandError {
    /// The message of the error: `Band '<name>' already exists at <root>`, or
    /// `Band '<name>' not found`.
    pub fn message(&self) -> (res: String)
        ensures
            res@ == match *self {
                BandError::AlreadyExists { name, root } => "Band '"@ + name@ + "' already exists at "@ + root@,
                BandError::NotFound { name } => "Band '"@ + name@ + "' not found"@,
            },
    {
        let mut text = String::from_str("Band '");
        match self {
            BandError::AlreadyExists { name, root } => {
                text.append(name.as_str());
                text.append("' already exists at ");
                text.append(root.as_str());
            },
            BandError::NotFound { name } => {
                text.append(name.as_str());
                text.append("' not found");
            },
        }
        text
    }
}

/// The root directory of the band `name` under `bands_root`.
pub open spec fn band_root(bands_root: Seq<char>, name: Seq<char>) -> Seq<char> {
    joined(bands_root, name)
}

/// The directories a new band gets: `home`, `config/aish`, `data` and `tmp`
/// under its root.
pub open spec fn band_directories(root: Seq<char>) -> Seq<Seq<char>> {
    seq![
        joined(root, "home"@),
        joined(joined(root, "config"@), "aish"@),
        joined(root, "data"@),
        joined(root, "tmp"@),
    ]
}

/// The environment of a process run inside a band: the band's name and root,
/// and its own home, configuration, temporary and database paths.
pub open spec fn band_env(name: Seq<char>, root: Seq<char>) -> Seq<(Seq<char>, Seq<char>)> {
    seq![
        ("AISH_BAND"@, name),
        ("AISH_BAND_ROOT"@, root),
        ("HOME"@, joined(root, "home"@)),
        ("XDG_CONFIG_HOME"@, joined(root, "config"@)),
        ("TMPDIR"@, joined(root, "tmp"@)),
        ("AISH_DB_PATH"@, joined(joined(root, "data"@), "aish.db"@)),
    ]
}

/// Where bands live: the `AISH_BANDS_ROOT` variable when it is set, else
/// `.aish/bands` under the home directory (or under `.` when there is none).
pub open spec fn spec_bands_root_for(env_root: Option<Seq<char>>, home: Option<Seq<char>>) -> Seq<char> {
    match env_root {
        Some(r) => r,
        None => joined(
            joined(
                match home {
                    Some(h) => h,
                    None => "."@,
                },
                ".aish"@,
            ),
            "bands"@,
        ),
    }
}

/// Where bands live, given `AISH_BANDS_ROOT` and the home directory, each
/// when there is one.
pub fn bands_root_for(env_root: Option<&str>, home: Option<&str>) -> (res: String)
    ensures
        res@ == spec_bands_root_for(env_root.deep_view(), home.deep_view()),
{
    match env_root {
        Some(r) => String::from_str(r),
        None => {
            let base = match home {
                Some(h) => path_join(h, ".aish"),
                None => path_join(".", ".aish"),
            };
            path_join(base.as_str(), "bands")
        },
    }
}

impl Band {
    /// The root directory of the band `name` under `bands_root`.
    pub fn root_for(bands_root: &str, name: &str) -> (res: String)
        ensures
            res@ == band_root(bands_root@, name@),
    {
        path_join(bands_root, name)
    }

    /// Creating a band: refused when its root directory already exists;
    /// otherwise the band, rooted under `bands_root`. The caller then creates
    /// [`Band::directories`] and writes its files.
    pub fn plan_create(
        name: &str,
        isolation: BandIsolationLevel,
        bands_root: &str,
        root_exists: bool,
        created_at: String,
    ) -> (res: Result<Band, BandError>)
        ensures
            root_exists ==> (res matches Err(BandError::AlreadyExists { name: n, root })
                && n@ == name@ && root@ == band_root(bands_root@, name@)),
            !root_exists ==> (res matches Ok(band) && band.name@ == name@ && band.isolation == isolation
                && band.root@ == band_root(bands_root@, name@) && band.created_at == created_at),
    {
        let root = Band::root_for(bands_root, name);
        if root_exists {
            Err(BandError::AlreadyExists { name: String::from_str(name), root })
        } else {
            Ok(Band { name: String::from_str(name), isolation, root, created_at })
        }
    }

    /// Destroying a band: refused when its root directory does not exist;
    /// otherwise the root to remove.
    pub fn plan_destroy(name: &str, bands_root: &str, root_exists: bool) -> (res: Result<String, BandError>)
        ensures
            !root_exists ==> (res matches Err(BandError::NotFound { name: n }) && n@ == name@),
            root_exists ==> (res matches Ok(root) && root@ == band_root(bands_root@, name@)),
    {
        if root_exists {
            Ok(Band::root_for(bands_root, name))
        } else {
            Err(BandError::NotFound { name: String::from_str(name) })
        }
    }

    /// The directories of the band; see [`band_directories`].
    pub fn directories(&self) -> (res: Vec<String>)
        ensures
            res.deep_view() == band_directories(self.root@),
    {
        proof {
            reveal_strlit("home");
            reveal_strlit("config");
            reveal_strlit("aish");
            reveal_strlit("data");
            reveal_strlit("tmp");
        }
        let mut res: Vec<String> = Vec::new();
        res.push(path_join(self.root.as_str(), "home"));
        let config = path_join(self.root.as_str(), "config");
        res.push(path_join(config.as_str(), "aish"));
        res.push(path_join(self.root.as_str(), "data"));
        res.push(path_join(self.root.as_str(), "tmp"));
        assert(res.deep_view() =~= band_directories(self.root@));
        res
    }

    /// The band's description file, `band.toml` under its root.
    pub fn band_file(&self) -> (res: String)
        ensures
            res@ == joined(self.root@, "band.toml"@),
    {
        path_join(self.root.as_str(), "band.toml")
    }

    /// The band's adapter list, `config/aish/adapters.ron` under its root.
    pub fn adapters_file(&self) -> (res: String)
        ensures
            res@ == joined(joined(joined(self.root@, "config"@), "aish"@), "adapters.ron"@),
    {
        let config = path_join(self.root.as_str(), "config");
        let aish = path_join(config.as_str(), "aish");
        path_join(aish.as_str(), "adapters.ron")
    }

    /// The band's database, `data/aish.db` under its root.
    pub fn db_file(&self) -> (res: String)
        ensures
            res@ == joined(joined(self.root@, "data"@), "aish.db"@),
    {
        let data = path_join(self.root.as_str(), "data");
        path_join(data.as_str(), "aish.db")
    }

    /// The environment of a process run inside the band; see [`band_env`].
    pub fn env_vars(&self) -> (res: Vec<(String, String)>)
        ensures
            res.deep_view() == band_env(self.name@, self.root@),
    {
        proof {
            reveal_strlit("home");
            reveal_strlit("config");
            reveal_strlit("data");
            reveal_strlit("tmp");
            reveal_strlit("aish.db");
        }
        let mut res: Vec<(String, String)> = Vec::new();
        res.push((String::from_str("AISH_BAND"), self.name.clone()));
        res.push((String::from_str("AISH_BAND_ROOT"), self.root.clone()));
        res.push((String::from_str("HOME"), path_join(self.root.as_str(), "home")));
        res.push((String::from_str("XDG_CONFIG_HOME"), path_join(self.root.as_str(), "config")));
        res.push((String::from_str("TMPDIR"), path_join(self.root.as_str(), "tmp")));
        let data = path_join(self.root.as_str(), "data");
        res.push((String::from_str("AISH_DB_PATH"), path_join(data.as_str(), "aish.db")));
        assert(res.deep_view() =~= band_env(self.name@, self.root@));
        res
    }

    /// The status of the band, from what the file system shows: whether its
    /// root exists, whether its database exists and how large it is (a size
    /// that could not be read counts as 0), and whether its adapter list
    /// exists.
    pub fn status_from(&self, exists: bool, db_exists: bool, db_len: u64, adapters_exist: bool) -> (res: BandStatus)
        ensures
            res.name@ == self.name@,
            res.isolation@ == self.isolation.spec_name(),
            res.root@ == self.root@,
            res.created_at@ == self.created_at@,
            res.exists == exists,
            res.db_exists == db_exists,
            res.db_size_bytes == (if db_exists {
                db_len
            } else {
                0
            }),
            res.adapters_configured == adapters_exist,
    {
        BandStatus {
            name: self.name.clone(),
            isolation: self.isolation.name(),
            root: self.root.clone(),
            created_at: self.created_at.clone(),
            exists,
            db_exists,
            db_size_bytes: if db_exists {
                db_len
            } else {
                0
            },
            adapters_configured: adapters_exist,
        }
    }

    /// The position of the band named `name` among `bands`: the first one of
    /// that name, if any.
    pub fn find_named(bands: &Vec<Band>, name: &str) -> (res: Option<usize>)
        ensures
            match res {
                Some(i) => i < bands@.len() && bands@[i as int].name@ == name@ && forall|j: int|
                    0 <= j < i ==> bands@[j].name@ != name@,
                None => forall|j: int| 0 <= j < bands@.len() ==> bands@[j].name@ != name@,
            },
    {
        let mut i: usize = 0;
        while i < bands.len()
            invariant
                i <= bands@.len(),
                forall|j: int| 0 <= j < i ==> bands@[j].name@ != name@,
            decreases bands@.len() - i,
        {
            if crate::text::str_eq(bands[i].name.as_str(), name) {
                return Some(i);
            }
            i = i + 1;
        }
        None
    }
}

} // verus!

verus! {

// ---- Laws of isolation ----

/// Joining a relative part onto a directory stays under that directory.
pub proof fn lemma_joined_stays_under(base: Seq<char>, part: Seq<char>)
    requires
        !(part.len() > 0 && part[0] == '/'),
    ensures
        base.is_prefix_of(joined(base, part)),
{
    let j = joined(base, part);
    if base.len() == 0 || base.last() == '/' {
        assert(j.subrange(0, base.len() as int) =~= base);
    } else {
        assert(j.subrange(0, base.len() as int) =~= base);
    }
}

/// Nothing a band's process is pointed at leaks out of the band: its home,
/// configuration, temporary directory and database all lie under the band's
/// root, and so do the configuration directory and the database the shell
/// picks inside a band (when `AISH_DB_PATH` is not set), whatever the
/// platform's directories are.
pub proof fn lemma_band_stays_inside(
    name: Seq<char>,
    root: Seq<char>,
    platform_config: Option<Seq<char>>,
    platform_data: Option<Seq<char>>,
)
    ensures
        band_env(name, root)[1].1 == root,
        forall|i: int| 2 <= i < 6 ==> root.is_prefix_of(#[trigger] band_env(name, root)[i].1),
        forall|i: int| 0 <= i < 4 ==> root.is_prefix_of(#[trigger] band_directories(root)[i]),
        root.is_prefix_of(crate::config::spec_config_dir_for(Some(root), platform_config)),
        root.is_prefix_of(crate::store::spec_db_path_for(None, Some(root), platform_data)),
{
    reveal_strlit("home");
    reveal_strlit("config");
    reveal_strlit("tmp");
    reveal_strlit("data");
    reveal_strlit("aish.db");
    reveal_strlit("aish");
    lemma_joined_stays_under(root, "home"@);
    lemma_joined_stays_under(root, "config"@);
    lemma_joined_stays_under(root, "tmp"@);
    lemma_joined_stays_under(root, "data"@);
    let config = joined(root, "config"@);
    let data = joined(root, "data"@);
    lemma_joined_stays_under(config, "aish"@);
    lemma_joined_stays_under(data, "aish.db"@);
    let db = joined(data, "aish.db"@);
    let conf_aish = joined(config, "aish"@);
    assert(root.is_prefix_of(db)) by {
        assert(db.subrange(0, root.len() as int) =~= db.subrange(0, data.len() as int).subrange(0, root.len() as int));
    }
    assert(root.is_prefix_of(conf_aish)) by {
        assert(conf_aish.subrange(0, root.len() as int) =~= conf_aish.subrange(0, config.len() as int).subrange(
            0,
            root.len() as int,
        ));
    }
    assert forall|i: int| 2 <= i < 6 implies root.is_prefix_of(#[trigger] band_env(name, root)[i].1) by {
        if i == 5 {
            assert(band_env(name, root)[i].1 == db);
        }
    }
    assert forall|i: int| 0 <= i < 4 implies root.is_prefix_of(#[trigger] band_directories(root)[i]) by {
        if i == 1 {
            assert(band_directories(root)[i] == conf_aish);
        }
    }
}

} // verus!
