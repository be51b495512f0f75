//! The configuration and the store that owns it.

use vstd::prelude::*;
use std::collections::HashMap;
use crate::ident::{is_random_uuid, uuid_new_v4};

verus! {

broadcast use vstd::std_specs::hash::group_hash_axioms;

/// What the public entry point does for a profile.
#[derive(Debug, PartialEq, Eq)]
pub enum Action {
    /// Clients are redirected to the target URI.
    Redirect(String),
}

/// Mathematical value of an [`Action`].
pub enum ActionView {
    Redirect(Seq<char>),
}

impl View for Action {
    type V = ActionView;

    open spec fn view(&self) -> ActionView {
        match self {
            Action::Redirect(uri) => ActionView::Redirect(uri@),
        }
    }
}

impl Clone for Action {
    fn clone(&self) -> (r: Self)
        ensures
            r == *self,
    {
        match self {
            Action::Redirect(uri) => Action::Redirect(uri.clone()),
        }
    }
}

/// A named destination.
#[derive(Debug, PartialEq, Eq)]
pub struct Profile {
    pub name: String,
    pub action: Action,
}

/// Mathematical value of a [`Profile`].
pub struct ProfileView {
    pub name: Seq<char>,
    pub action: ActionView,
}

impl View for Profile {
    type V = ProfileView;

    open spec fn view(&self) -> ProfileView {
        ProfileView { name: self.name@, action: self.action@ }
    }
}

impl Clone for Profile {
    fn clone(&self) -> (r: Self)
        ensures
            r == *self,
    {
        Profile { name: self.name.clone(), action: self.action.clone() }
    }
}

/// The full persisted state: the profile set and which of them is active.
#[derive(Debug, PartialEq, Eq)]
pub struct Config {
    pub current_profile_id: u128,
    pub profiles: HashMap<u128, Profile>,
}

/// Mathematical value of a [`Config`].
pub struct ConfigView {
    pub current_profile_id: u128,
    pub profiles: Map<u128, ProfileView>,
}

impl ConfigView {
    /// The active identifier names a profile of the set, so the set is not
    /// empty either.
    pub open spec fn valid(self) -> bool {
        self.profiles.contains_key(self.current_profile_id)
    }

    /// The profile that serves public traffic.
    pub open spec fn current_profile(self) -> ProfileView
        recommends
            self.valid(),
    {
        self.profiles[self.current_profile_id]
    }
}

/// The profile that a fresh configuration is seeded with.
pub open spec fn seed_profile() -> ProfileView {
    ProfileView {
        name: "https://astrid.tech"@,
        action: ActionView::Redirect("https://astrid.tech"@),
    }
}

/// The configuration that holds the seed profile alone, under `id`.
pub open spec fn seed_config(id: u128) -> ConfigView {
    ConfigView {
        current_profile_id: id,
        profiles: Map::<u128, ProfileView>::empty().insert(id, seed_profile()),
    }
}

impl View for Config {
    type V = ConfigView;

    open spec fn view(&self) -> ConfigView {
        ConfigView {
            current_profile_id: self.current_profile_id,
            profiles: self.profiles@.map_values(|p: Profile| p@),
        }
    }
}

impl Clone for Config {
    fn clone(&self) -> (r: Self)
        ensures
            r.current_profile_id == self.current_profile_id,
            r.profiles@ == self.profiles@,
            r@ == self@,
    {
        Config {
            current_profile_id: self.current_profile_id,
            profiles: self.profiles.clone(),
        }
    }
}

impl Default for Config {
    /// A configuration seeded with one profile under a fresh random
    /// identifier.
    fn default() -> (r: Self)
        ensures
            r@ == seed_config(r.current_profile_id),
            is_random_uuid(r.current_profile_id),
    {
        Config::seeded(uuid_new_v4())
    }
}

impl Config {
    /// The invariant of the data model, on the executable value.
    pub open spec fn wf(&self) -> bool {
        self@.valid()
    }

    /// Tests the invariant.
    pub fn is_valid(&self) -> (b: bool)
        ensures
            b == self.wf(),
    {
        self.profiles.contains_key(&self.current_profile_id)
    }

    /// The seed configuration under a given identifier.
    pub fn seeded(id: u128) -> (r: Self)
        ensures
            r@ == seed_config(id),
            r.wf(),
    {
        let mut profiles: HashMap<u128, Profile> = HashMap::new();
        let profile = Profile {
            name: "https://astrid.tech".to_owned(),
            action: Action::Redirect("https://astrid.tech".to_owned()),
        };
        profiles.insert(id, profile);
        let r = Config { current_profile_id: id, profiles };
        assert(r@.profiles =~= seed_config(id).profiles);
        r
    }

    /// The active profile.
    pub fn current_profile(&self) -> (p: &Profile)
        requires
            self.wf(),
        ensures
            p@ == self@.current_profile(),
            *p == self.profiles@[self.current_profile_id],
    {
        let found = self.profiles.get(&self.current_profile_id);
        found.unwrap()
    }
}

/// Start-up settings, resolved before the store is built.
pub struct Settings {
    /// Where the configuration file lives.
    pub state_file_path: Option<String>,
    /// The admin password, in plain text.
    pub admin_password: Option<String>,
}

/// The configuration store: the file's path and the one live configuration.
///
/// The store does no I/O itself. Whoever owns it writes the cached value to
/// [`ConfigFile::path`] while [`ConfigFile::needs_write`] holds, and reports
/// how the write went with [`ConfigFile::write_finished`].
pub struct ConfigFile {
    path: String,
    cached: Config,
    unsaved: bool,
    durable: bool,
}

/// Mathematical value of a [`ConfigFile`].
pub struct StoreState {
    pub path: Seq<char>,
    pub config: ConfigView,
    /// The cache holds a value that the file does not hold yet.
    pub unsaved: bool,
    /// The file holds some configuration of this store: one that was loaded
    /// from it, or one whose write has finished.
    pub durable: bool,
}

/// Why the store could not finish an operation.
#[derive(Debug, Clone, Copy, PartialEq, Eq, Structural)]
pub enum StoreError {
    /// The seed configuration could not be written at start-up: there is no
    /// durable configuration to run on.
    StartupIO,
    /// The write of the configuration file failed; the cache is ahead of
    /// the file, which still holds an earlier configuration.
    PersistenceFailure,
}

impl StoreState {
    /// The store after `config` replaced the cached value.
    pub open spec fn replaced(self, config: ConfigView) -> StoreState {
        StoreState { path: self.path, config, unsaved: true, durable: self.durable }
    }

    /// The store after a write of the cached value went through.
    pub open spec fn written(self) -> StoreState {
        StoreState { path: self.path, config: self.config, unsaved: false, durable: true }
    }

    /// The error that a failed write is reported with.
    pub open spec fn write_error(self) -> StoreError {
        if self.durable {
            StoreError::PersistenceFailure
        } else {
            StoreError::StartupIO
        }
    }
}

/// The store after a run of replacements, made one after the other in the
/// order of `payloads`.
pub open spec fn replaced_by_all(s: StoreState, payloads: Seq<ConfigView>) -> StoreState
    decreases payloads.len(),
{
    if payloads.len() == 0 {
        s
    } else {
        replaced_by_all(s, payloads.drop_last()).replaced(payloads.last())
    }
}

/// Replacements are whole-value swaps: after the first `n` of a run the
/// store holds the payload of the `n`-th, never a mixture and never a value
/// that no replacement brought. The path never changes.
pub proof fn law_replacements_are_serial(s: StoreState, payloads: Seq<ConfigView>, n: int)
    requires
        0 <= n <= payloads.len(),
    ensures
        replaced_by_all(s, payloads.take(n)).path == s.path,
        n == 0 ==> replaced_by_all(s, payloads.take(n)) == s,
        n > 0 ==> replaced_by_all(s, payloads.take(n)) == s.replaced(payloads[n - 1]),
    decreases n,
{
    if n > 0 {
        law_replacements_are_serial(s, payloads, n - 1);
        assert(payloads.take(n).drop_last() =~= payloads.take(n - 1));
    }
}

/// After a run of replacements the store holds the payload of the last one.
pub proof fn law_last_replacement_wins(s: StoreState, payloads: Seq<ConfigView>)
    requires
        payloads.len() > 0,
    ensures
        replaced_by_all(s, payloads) == s.replaced(payloads.last()),
{
    law_replacements_are_serial(s, payloads, payloads.len() as int);
    assert(payloads.take(payloads.len() as int) =~= payloads);
}

/// The store that start-up yields for a path and for what the file held:
/// a valid configuration is taken as it is, anything else gives way to the
/// seed configuration under `fresh`, which is still to be written.
pub open spec fn initial_store(path: Seq<char>, loaded: Option<ConfigView>, fresh: u128)
    -> StoreState {
    if loaded is Some && loaded->0.valid() {
        StoreState { path, config: loaded->0, unsaved: false, durable: true }
    } else {
        StoreState { path, config: seed_config(fresh), unsaved: true, durable: false }
    }
}

/// The views of an optional configuration.
pub open spec fn loaded_view(loaded: Option<Config>) -> Option<ConfigView> {
    match loaded {
        Some(c) => Some(c@),
        None => None,
    }
}

impl View for ConfigFile {
    type V = StoreState;

    closed spec fn view(&self) -> StoreState {
        StoreState {
            path: self.path@,
            config: self.cached@,
            unsaved: self.unsaved,
            durable: self.durable,
        }
    }
}

impl ConfigFile {
    /// The store never holds a configuration whose active identifier
    /// dangles.
    #[verifier::type_invariant]
    pub(crate) open spec fn holds_valid_config(self) -> bool {
        self@.config.valid()
    }

    /// The invariant of the store, over its view. It holds of every store.
    pub open spec fn wf(&self) -> bool {
        self@.config.valid()
    }

    /// Builds the store from the settings; the path must be there.
    pub fn extract_from_config(settings: &Settings, loaded: Option<Config>) -> (r: Self)
        requires
            settings.state_file_path is Some,
        ensures
            r.wf(),
            r@ == initial_store(
                settings.state_file_path->0@,
                loaded_view(loaded),
                r@.config.current_profile_id,
            ),
    {
        Self::new(settings.state_file_path.as_ref().unwrap().clone(), loaded)
    }

    /// Builds the store for `path` from what reading the file gave: `None`
    /// where the file was missing, unreadable or malformed.
    pub fn new(path: String, loaded: Option<Config>) -> (r: Self)
        ensures
            r.wf(),
            r@ == initial_store(path@, loaded_view(loaded), r@.config.current_profile_id),
            r@.unsaved ==> is_random_uuid(r@.config.current_profile_id),
    {
        match loaded {
            Some(config) => {
                if config.is_valid() {
                    ConfigFile { path, cached: config, unsaved: false, durable: true }
                } else {
                    ConfigFile { path, cached: Config::default(), unsaved: true, durable: false }
                }
            },
            None => ConfigFile { path, cached: Config::default(), unsaved: true, durable: false },
        }
    }

    /// Replaces the cached configuration. The new value is visible to
    /// [`ConfigFile::read`] at once and is marked as not yet written.
    pub fn store(&mut self, config: Config)
        requires
            config.wf(),
        ensures
            final(self)@ == old(self)@.replaced(config@),
            final(self).wf(),
    {
        self.cached = config;
        self.unsaved = true;
    }

    /// The current configuration, from memory.
    pub fn read(&self) -> (c: &Config)
        ensures
            c@ == self@.config,
            c.wf(),
            self.wf(),
    {
        proof {
            use_type_invariant(self);
        }
        &self.cached
    }

    /// The path of the configuration file.
    pub fn path(&self) -> (p: &str)
        ensures
            p@ == self@.path,
    {
        self.path.as_str()
    }

    /// Whether the cache holds a value that the file does not hold yet.
    pub fn needs_write(&self) -> (b: bool)
        ensures
            b == self@.unsaved,
    {
        self.unsaved
    }

    /// Takes note of how the write of the cached value went. A failed write
    /// is reported and leaves the store as it was: the cache stays
    /// authoritative and stays marked as unsaved. The failure is a
    /// `StartupIO` while the file has never held a configuration of this
    /// store, a `PersistenceFailure` afterwards.
    pub fn write_finished(&mut self, written: bool) -> (r: Result<(), StoreError>)
        ensures
            written ==> r is Ok && final(self)@ == old(self)@.written(),
            !written ==> r == Err::<(), StoreError>(old(self)@.write_error()) && final(self)@
                == old(self)@,
            final(self).wf(),
    {
        proof {
            use_type_invariant(&*self);
        }
        if written {
            self.unsaved = false;
            self.durable = true;
            Ok(())
        } else if self.durable {
            Err(StoreError::PersistenceFailure)
        } else {
            Err(StoreError::StartupIO)
        }
    }
}

/// What the store holds is taken back unchanged when it is loaded again: a
/// valid configuration survives start-up as it is, with nothing to write.
pub proof fn law_reload_keeps_valid_config(path: Seq<char>, c: ConfigView, fresh: u128)
    requires
        c.valid(),
    ensures
        initial_store(path, Some(c), fresh).config == c,
        !initial_store(path, Some(c), fresh).unsaved,
        initial_store(path, Some(c), fresh).durable,
{
}

} // verus!
