//! The admin transactions and the one query of the public entry point, each a
//! read-modify-write cycle against the store.

use vstd::prelude::*;
use crate::config::{Action, ActionView, ConfigFile, ConfigView, Profile, ProfileView};
use crate::config::{initial_store, StoreState};
use crate::ident::{is_random_uuid, parsed_uuid, uuid_from_str, uuid_new_v4};

verus! {

broadcast use vstd::std_specs::hash::group_hash_axioms;

/// Why a transaction was turned down. None of them changes the store.
#[derive(Debug, Clone, Copy, PartialEq, Eq, Structural)]
pub enum ProfileError {
    /// The redirect target is empty.
    InvalidInput,
    /// The identifier is not the text of a UUID.
    InvalidIdentifier,
    /// The identifier names no profile of the set.
    ProfileNotFound,
    /// The profile is the active one and cannot be deleted.
    ActiveProfile,
}

/// The display name of a new profile: the one given, else one built from
/// the target.
pub open spec fn display_name(name: Option<Seq<char>>, target_uri: Seq<char>) -> Seq<char> {
    match name {
        Some(n) => n,
        None => "Redirect: "@ + target_uri,
    }
}

/// The profile that a creation adds.
pub open spec fn new_profile(name: Option<Seq<char>>, target_uri: Seq<char>) -> ProfileView {
    ProfileView {
        name: display_name(name, target_uri),
        action: ActionView::Redirect(target_uri),
    }
}

/// The characters of an optional name.
pub open spec fn name_view(name: Option<&str>) -> Option<Seq<char>> {
    match name {
        Some(n) => Some(n@),
        None => None,
    }
}

/// `c` with `profile` under `id`; the active profile stays.
pub open spec fn with_profile(c: ConfigView, id: u128, profile: ProfileView) -> ConfigView {
    ConfigView { current_profile_id: c.current_profile_id, profiles: c.profiles.insert(id, profile) }
}

/// `c` with `id` as the active profile; the set stays.
pub open spec fn with_active(c: ConfigView, id: u128) -> ConfigView {
    ConfigView { current_profile_id: id, profiles: c.profiles }
}

/// `c` without the profile under `id`; the active profile stays.
pub open spec fn without_profile(c: ConfigView, id: u128) -> ConfigView {
    ConfigView { current_profile_id: c.current_profile_id, profiles: c.profiles.remove(id) }
}

/// The store and the verdict after an activation of `id`.
pub open spec fn activation(s: StoreState, id: u128) -> (StoreState, Result<(), ProfileError>) {
    if s.config.profiles.contains_key(id) {
        (s.replaced(with_active(s.config, id)), Ok(()))
    } else {
        (s, Err(ProfileError::ProfileNotFound))
    }
}

/// The store and the verdict after a deletion of `id`. The active profile
/// is never deleted; deleting an absent one succeeds and changes no profile.
pub open spec fn deletion(s: StoreState, id: u128) -> (StoreState, Result<(), ProfileError>) {
    if id == s.config.current_profile_id {
        (s, Err(ProfileError::ActiveProfile))
    } else {
        (s.replaced(without_profile(s.config, id)), Ok(()))
    }
}

/// What the public entry point does right now: the action of the active
/// profile.
pub fn current_action(store: &ConfigFile) -> (action: Action)
    ensures
        store.wf(),
        action@ == store@.config.current_profile().action,
{
    store.read().current_profile().action.clone()
}

/// Adds a profile under a given identifier. An empty target is turned down.
/// A profile that was under `id` before is replaced.
pub fn insert_profile(store: &mut ConfigFile, id: u128, name: Option<&str>, target_uri: &str) -> (r:
    Result<(), ProfileError>)
    ensures
        final(store).wf(),
        target_uri@.len() == 0 ==> r == Err::<(), ProfileError>(ProfileError::InvalidInput)
            && final(store)@ == old(store)@,
        target_uri@.len() > 0 ==> r is Ok && final(store)@ == old(store)@.replaced(
            with_profile(old(store)@.config, id, new_profile(name_view(name), target_uri@)),
        ),
{
    proof {
        use_type_invariant(&*store);
    }
    if target_uri.is_empty() {
        return Err(ProfileError::InvalidInput);
    }
    let mut config = store.read().clone();
    let shown = match name {
        Some(n) => n.to_owned(),
        None => "Redirect: ".to_owned().concat(target_uri),
    };
    let profile = Profile { name: shown, action: Action::Redirect(target_uri.to_owned()) };
    config.profiles.insert(id, profile);
    assert(config@.profiles =~= with_profile(
        old(store)@.config,
        id,
        new_profile(name_view(name), target_uri@),
    ).profiles);
    store.store(config);
    Ok(())
}

/// Adds a profile under a fresh random identifier and returns the
/// identifier. An empty target is turned down before any identifier is
/// drawn.
pub fn create_profile(store: &mut ConfigFile, name: Option<&str>, target_uri: &str) -> (r: Result<
    u128,
    ProfileError,
>)
    ensures
        final(store).wf(),
        target_uri@.len() == 0 ==> r == Err::<u128, ProfileError>(ProfileError::InvalidInput)
            && final(store)@ == old(store)@,
        target_uri@.len() > 0 ==> r is Ok && is_random_uuid(r->Ok_0) && final(store)@ == old(
            store,
        )@.replaced(
            with_profile(old(store)@.config, r->Ok_0, new_profile(name_view(name), target_uri@)),
        ),
{
    proof {
        use_type_invariant(&*store);
    }
    if target_uri.is_empty() {
        return Err(ProfileError::InvalidInput);
    }
    let id = uuid_new_v4();
    match insert_profile(store, id, name, target_uri) {
        Ok(()) => Ok(id),
        Err(e) => Err(e),
    }
}

/// Makes the profile under `id` the active one, if there is such a
/// profile.
pub fn activate(store: &mut ConfigFile, id: u128) -> (r: Result<(), ProfileError>)
    ensures
        final(store).wf(),
        (final(store)@, r) == activation(old(store)@, id),
{
    proof {
        use_type_invariant(&*store);
    }
    if !store.read().profiles.contains_key(&id) {
        return Err(ProfileError::ProfileNotFound);
    }
    let mut config = store.read().clone();
    config.current_profile_id = id;
    assert(config@ == with_active(old(store)@.config, id));
    store.store(config);
    Ok(())
}

/// Reads an identifier from `id` and activates the profile under it.
pub fn activate_profile(store: &mut ConfigFile, id: &str) -> (r: Result<(), ProfileError>)
    ensures
        final(store).wf(),
        parsed_uuid(id@) is None ==> r == Err::<(), ProfileError>(ProfileError::InvalidIdentifier)
            && final(store)@ == old(store)@,
        parsed_uuid(id@) is Some ==> (final(store)@, r) == activation(
            old(store)@,
            parsed_uuid(id@)->0,
        ),
{
    proof {
        use_type_invariant(&*store);
    }
    match uuid_from_str(id) {
        Some(parsed) => activate(store, parsed),
        None => Err(ProfileError::InvalidIdentifier),
    }
}

/// Removes the profile under `id`, unless it is the active one.
pub fn delete(store: &mut ConfigFile, id: u128) -> (r: Result<(), ProfileError>)
    ensures
        final(store).wf(),
        (final(store)@, r) == deletion(old(store)@, id),
{
    proof {
        use_type_invariant(&*store);
    }
    if store.read().current_profile_id == id {
        return Err(ProfileError::ActiveProfile);
    }
    let mut config = store.read().clone();
    config.profiles.remove(&id);
    assert(config@.profiles =~= without_profile(old(store)@.config, id).profiles);
    store.store(config);
    Ok(())
}

/// Reads an identifier from `id` and deletes the profile under it.
pub fn delete_profile(store: &mut ConfigFile, id: &str) -> (r: Result<(), ProfileError>)
    ensures
        final(store).wf(),
        parsed_uuid(id@) is None ==> r == Err::<(), ProfileError>(ProfileError::InvalidIdentifier)
            && final(store)@ == old(store)@,
        parsed_uuid(id@) is Some ==> (final(store)@, r) == deletion(
            old(store)@,
            parsed_uuid(id@)->0,
        ),
{
    proof {
        use_type_invariant(&*store);
    }
    match uuid_from_str(id) {
        Some(parsed) => delete(store, parsed),
        None => Err(ProfileError::InvalidIdentifier),
    }
}

/// A valid configuration has at least one profile, and its active
/// identifier resolves to one of them.
pub proof fn law_valid_config_resolves(c: ConfigView)
    requires
        c.valid(),
    ensures
        c.profiles.contains_key(c.current_profile_id),
        c.profiles != Map::<u128, ProfileView>::empty(),
        c.profiles.dom().finite() ==> c.profiles.len() > 0,
{
    assert(!Map::<u128, ProfileView>::empty().contains_key(c.current_profile_id));
    if c.profiles.dom().finite() {
        if c.profiles.len() == 0 {
            assert(c.profiles.dom().len() == 0);
            assert(c.profiles.dom() =~= Set::<u128>::empty());
        }
    }
}

/// Start-up yields a valid configuration whatever the file held, and every
/// transaction, accepted or turned down, keeps the configuration valid.
pub proof fn law_transactions_keep_validity(
    s: StoreState,
    loaded: Option<ConfigView>,
    id: u128,
    profile: ProfileView,
)
    requires
        s.config.valid(),
    ensures
        initial_store(s.path, loaded, id).config.valid(),
        s.replaced(with_profile(s.config, id, profile)).config.valid(),
        activation(s, id).0.config.valid(),
        deletion(s, id).0.config.valid(),
{
}

/// An activation of an identifier that names no profile is turned down with
/// `ProfileNotFound` and leaves the store as it was.
pub proof fn law_unknown_activation_changes_nothing(s: StoreState, id: u128)
    requires
        !s.config.profiles.contains_key(id),
    ensures
        activation(s, id) == (s, Err::<(), ProfileError>(ProfileError::ProfileNotFound)),
{
}

/// After an accepted activation the active profile is the one that was
/// under the identifier, and no profile has changed.
pub proof fn law_activation_selects(s: StoreState, id: u128)
    requires
        s.config.profiles.contains_key(id),
    ensures
        activation(s, id).1 is Ok,
        activation(s, id).0.config.current_profile() == s.config.profiles[id],
        activation(s, id).0.config.profiles == s.config.profiles,
{
}

/// A creation leaves the active profile and every other profile as they
/// were.
pub proof fn law_creation_keeps_active(c: ConfigView, id: u128, profile: ProfileView, other: u128)
    requires
        other != id,
    ensures
        with_profile(c, id, profile).current_profile_id == c.current_profile_id,
        with_profile(c, id, profile).profiles.contains_key(id),
        with_profile(c, id, profile).profiles[id] == profile,
        with_profile(c, id, profile).profiles.contains_key(other) == c.profiles.contains_key(other),
        c.profiles.contains_key(other) ==> with_profile(c, id, profile).profiles[other]
            == c.profiles[other],
{
}

} // verus!
