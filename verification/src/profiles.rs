//! The saved connection profiles, and the credentials that they use.
use crate::text::chars_of;
use vstd::prelude::*;

verus! {

/// The size of a remote desktop, in pixels.
#[derive(Debug, Clone, Copy, PartialEq, Eq, Structural)]
pub struct Resolution {
    pub width: u16,
    pub height: u16,
}

/// A saved connection.
#[derive(Debug, PartialEq, Eq)]
pub struct ConnectionProfile {
    /// Tells profiles apart.
    pub id: String,
    pub name: String,
    /// The host as the user wrote it.
    pub host: String,
    /// The host as credentials are stored under it: the same for every way to write one host.
    pub normalized_host: String,
    pub port: u16,
    pub username: String,
    pub resolution: Resolution,
}

impl Clone for ConnectionProfile {
    fn clone(&self) -> (r: ConnectionProfile)
        ensures
            r == *self,
    {
        ConnectionProfile {
            id: self.id.clone(),
            name: self.name.clone(),
            host: self.host.clone(),
            normalized_host: self.normalized_host.clone(),
            port: self.port,
            username: self.username.clone(),
            resolution: self.resolution,
        }
    }
}

/// Under what a password is stored.
#[derive(Debug, PartialEq, Eq)]
pub struct SecretKey {
    pub host: String,
    pub port: u16,
    pub user: String,
}

/// The contents of a [`SecretKey`].
pub ghost struct SecretKeyView {
    pub host: Seq<char>,
    pub port: u16,
    pub user: Seq<char>,
}

impl View for SecretKey {
    type V = SecretKeyView;

    open spec fn view(&self) -> SecretKeyView {
        SecretKeyView { host: self.host@, port: self.port, user: self.user@ }
    }
}

/// Under what the password of a profile is stored.
pub open spec fn credential(profile: ConnectionProfile) -> SecretKeyView {
    SecretKeyView {
        host: profile.normalized_host@,
        port: profile.port,
        user: profile.username@,
    }
}

/// A copy of a profile under another identity and name.
pub open spec fn duplicated(
    profile: ConnectionProfile,
    id: String,
    name: String,
) -> ConnectionProfile {
    ConnectionProfile { id, name, ..profile }
}

impl ConnectionProfile {
    /// A copy of the profile under another identity and name.
    pub fn duplicate(&self, id: String, name: String) -> (r: ConnectionProfile)
        ensures
            r == duplicated(*self, id, name),
            r.id == id,
            r.name == name,
    {
        let copy = self.clone();
        ConnectionProfile { id, name, ..copy }
    }

    /// Under what the password of the profile is stored.
    pub fn secret_key(&self) -> (r: SecretKey)
        ensures
            r@ == credential(*self),
            r.host@ == self.normalized_host@,
            r.port == self.port,
            r.user@ == self.username@,
    {
        SecretKey {
            host: self.normalized_host.clone(),
            port: self.port,
            user: self.username.clone(),
        }
    }
}

/// Whether two profiles use the same stored password.
pub fn same_credential(a: &ConnectionProfile, b: &ConnectionProfile) -> (r: bool)
    ensures
        r == (credential(*a) == credential(*b)),
{
    a.normalized_host == b.normalized_host && a.port == b.port && a.username == b.username
}

/// The lowercase equivalent of a string, by the Unicode rules of `str::to_lowercase`.
pub uninterp spec fn lowercase(s: Seq<char>) -> Seq<char>;

/// Wraps `str::to_lowercase`. Claims that the result depends on the string alone, and that it
/// is empty for an empty string.
#[verifier::external_body]
fn to_lowercase(s: &str) -> (r: String)
    ensures
        r@ == lowercase(s@),
        s@.len() == 0 ==> r@.len() == 0,
{
    s.to_lowercase()
}

/// Whether `needle` occurs in `hay`.
pub open spec fn occurs_in(needle: Seq<char>, hay: Seq<char>) -> bool {
    exists|i: int|
        0 <= i <= hay.len() - needle.len() && #[trigger] hay.subrange(i, i + needle.len())
            == needle
}

fn stands_at(needle: &Vec<char>, hay: &Vec<char>, at: usize) -> (r: bool)
    requires
        at + needle@.len() <= hay@.len(),
    ensures
        r == (hay@.subrange(at as int, at + needle@.len()) == needle@),
{
    let end: usize = hay.len();
    for j in 0..needle.len()
        invariant
            at + needle@.len() <= hay@.len(),
            end == hay@.len(),
            forall|k: int| 0 <= k < j ==> hay@[at + k] == needle@[k],
    {
        if hay[at + j] != needle[j] {
            assert(hay@.subrange(at as int, at + needle@.len())[j as int] != needle@[j as int]);
            return false;
        }
    }
    assert(hay@.subrange(at as int, at + needle@.len()) =~= needle@);
    true
}

fn contains(hay: &Vec<char>, needle: &Vec<char>) -> (r: bool)
    ensures
        r == occurs_in(needle@, hay@),
{
    if needle.len() > hay.len() {
        return false;
    }
    let last: usize = hay.len() - needle.len();
    let mut at: usize = 0;
    while at <= last
        invariant
            last == hay@.len() - needle@.len(),
            at <= last + 1,
            hay@.len() <= usize::MAX,
            forall|i: int| 0 <= i < at ==> #[trigger] hay@.subrange(i, i + needle@.len()) != needle@,
        decreases last + 1 - at,
    {
        if stands_at(needle, hay, at) {
            return true;
        }
        if at == last {
            return false;
        }
        at = at + 1;
    }
    false
}

/// Whether a search shows a profile: the search is empty, or the name or the host contains it,
/// upper and lower case taken as one.
pub open spec fn found_by(profile: ConnectionProfile, query: Seq<char>) -> bool {
    ||| lowercase(query).len() == 0
    ||| occurs_in(lowercase(query), lowercase(profile.name@))
    ||| occurs_in(lowercase(query), lowercase(profile.host@))
}

/// Whether a search shows a profile whose lowercase name and host are these.
pub fn found_in(query: &str, name: &str, host: &str) -> (r: bool)
    ensures
        r == (query@.len() == 0 || occurs_in(query@, name@) || occurs_in(query@, host@)),
{
    let query = chars_of(query);
    query.len() == 0 || contains(&chars_of(name), &query) || contains(&chars_of(host), &query)
}

/// Whether a search shows a profile.
pub fn matches_search(profile: &ConnectionProfile, query: &str) -> (r: bool)
    ensures
        r == found_by(*profile, query@),
        query@.len() == 0 ==> r,
{
    let query = to_lowercase(query);
    let name = to_lowercase(profile.name.as_str());
    let host = to_lowercase(profile.host.as_str());
    found_in(query.as_str(), name.as_str(), host.as_str())
}

/// The second line of a profile's row: who connects where.
pub fn row_subtitle(username: &str, address: &str) -> (r: String)
    ensures
        r@ == username@ + "@"@ + address@,
{
    username.to_owned().concat("@").concat(address)
}

/// The saved profiles, in the order in which they are listed.
pub struct ProfileList {
    profiles: Vec<ConnectionProfile>,
}

impl View for ProfileList {
    type V = Seq<ConnectionProfile>;

    closed spec fn view(&self) -> Seq<ConnectionProfile> {
        self.profiles@
    }
}

/// A list that is to take the place of the saved one, and the password that then falls out
/// of use.
#[derive(Debug, PartialEq, Eq)]
pub struct ProfileChange {
    pub profiles: Vec<ConnectionProfile>,
    pub orphaned: Option<SecretKey>,
}

/// The contents of a [`ProfileChange`].
pub ghost struct ProfileChangeView {
    pub profiles: Seq<ConnectionProfile>,
    pub orphaned: Option<SecretKeyView>,
}

/// The contents of an optional key.
pub open spec fn key_view(key: Option<SecretKey>) -> Option<SecretKeyView> {
    match key {
        Some(key) => Some(key@),
        None => None,
    }
}

impl View for ProfileChange {
    type V = ProfileChangeView;

    open spec fn view(&self) -> ProfileChangeView {
        ProfileChangeView { profiles: self.profiles@, orphaned: key_view(self.orphaned) }
    }
}

/// What came of a change.
#[derive(Debug, PartialEq, Eq)]
pub enum ChangeOutcome {
    /// The change holds. The password stored under this key is to be removed.
    Saved { orphaned: Option<SecretKey> },
    /// The change could not be saved, for this reason, and does not hold.
    NotSaved(String),
}

/// Whether some profile uses this credential.
pub open spec fn uses(profiles: Seq<ConnectionProfile>, key: SecretKeyView) -> bool {
    exists|i: int| 0 <= i < profiles.len() && credential(#[trigger] profiles[i]) == key
}

/// The key, if no profile uses it.
pub open spec fn if_unused(profiles: Seq<ConnectionProfile>, key: SecretKeyView) -> Option<
    SecretKeyView,
> {
    if uses(profiles, key) {
        None
    } else {
        Some(key)
    }
}

/// The position of the first profile with this identity, or the length of the list where there
/// is none.
pub open spec fn position_of(profiles: Seq<ConnectionProfile>, id: Seq<char>) -> int
    decreases profiles.len(),
{
    if profiles.len() == 0 || profiles[0].id@ == id {
        0
    } else {
        1 + position_of(profiles.skip(1), id)
    }
}

/// The list with the profile of the same identity replaced.
pub open spec fn edited(
    profiles: Seq<ConnectionProfile>,
    updated: ConnectionProfile,
) -> ProfileChangeView {
    let position = position_of(profiles, updated.id@);
    let saved = profiles.update(position, updated);
    ProfileChangeView {
        profiles: saved,
        orphaned: if_unused(saved, credential(profiles[position])),
    }
}

/// The list without the profiles of this identity.
pub open spec fn without(profiles: Seq<ConnectionProfile>, id: Seq<char>) -> Seq<
    ConnectionProfile,
> {
    profiles.filter(|profile: ConnectionProfile| profile.id@ != id)
}

/// The list without this profile.
pub open spec fn deleted(
    profiles: Seq<ConnectionProfile>,
    target: ConnectionProfile,
) -> ProfileChangeView {
    let saved = without(profiles, target.id@);
    ProfileChangeView { profiles: saved, orphaned: if_unused(saved, credential(target)) }
}

/// The list with one profile more.
pub open spec fn added(
    profiles: Seq<ConnectionProfile>,
    profile: ConnectionProfile,
) -> ProfileChangeView {
    ProfileChangeView { profiles: profiles.push(profile), orphaned: None }
}

/// The position is that of the first profile with this identity.
pub proof fn lemma_position_of(profiles: Seq<ConnectionProfile>, id: Seq<char>)
    ensures
        0 <= position_of(profiles, id) <= profiles.len(),
        position_of(profiles, id) < profiles.len() ==> profiles[position_of(
            profiles,
            id,
        )].id@ == id,
        forall|i: int| 0 <= i < position_of(profiles, id) ==> (#[trigger] profiles[i]).id@ != id,
    decreases profiles.len(),
{
    if profiles.len() > 0 && profiles[0].id@ != id {
        let rest = profiles.skip(1);
        lemma_position_of(rest, id);
        assert forall|i: int| 0 <= i < position_of(profiles, id) implies (
        #[trigger] profiles[i]).id@ != id by {
            if i > 0 {
                assert(profiles[i] == rest[i - 1]);
            }
        }
    }
}

fn clone_profiles(profiles: &Vec<ConnectionProfile>) -> (r: Vec<ConnectionProfile>)
    ensures
        r@ == profiles@,
{
    let mut copy: Vec<ConnectionProfile> = Vec::new();
    for i in 0..profiles.len()
        invariant
            copy@ == profiles@.take(i as int),
    {
        copy.push(profiles[i].clone());
    }
    copy
}

/// The key of `owner`'s password, if none of `profiles` uses it.
fn orphaned_key(profiles: &Vec<ConnectionProfile>, owner: &ConnectionProfile) -> (r: Option<
    SecretKey,
>)
    ensures
        key_view(r) == if_unused(profiles@, credential(*owner)),
{
    for i in 0..profiles.len()
        invariant
            forall|j: int|
                0 <= j < i ==> credential(#[trigger] profiles@[j]) != credential(*owner),
    {
        if same_credential(&profiles[i], owner) {
            assert(credential(profiles@[i as int]) == credential(*owner));
            return None;
        }
    }
    Some(owner.secret_key())
}

impl ProfileList {
    /// The list to start with: the saved profiles, or none and the error to show.
    pub fn load(loaded: Result<Vec<ConnectionProfile>, String>) -> (r: (
        ProfileList,
        Option<String>,
    ))
        ensures
            loaded matches Ok(profiles) ==> r.0@ == profiles@ && r.1 is None,
            loaded matches Err(error) ==> r.0@.len() == 0 && r.1 == Some(error),
    {
        match loaded {
            Ok(profiles) => (ProfileList { profiles }, None),
            Err(error) => (ProfileList { profiles: Vec::new() }, Some(error)),
        }
    }

    /// The profiles, in order.
    pub fn profiles(&self) -> (r: &Vec<ConnectionProfile>)
        ensures
            r@ == self@,
    {
        &self.profiles
    }

    /// Which page the window shows: the list, or a hint where it is empty.
    pub fn visible_page(&self) -> (r: &'static str)
        ensures
            r@ == (if self@.len() == 0 {
                "empty"@
            } else {
                "list"@
            }),
    {
        if self.profiles.len() == 0 {
            "empty"
        } else {
            "list"
        }
    }

    /// Plans to add a profile.
    pub fn plan_add(&self, profile: ConnectionProfile) -> (r: ProfileChange)
        ensures
            r@ == added(self@, profile),
    {
        let mut profiles = clone_profiles(&self.profiles);
        profiles.push(profile);
        ProfileChange { profiles, orphaned: None }
    }

    /// Plans to add a copy of a profile under another identity and name.
    pub fn plan_duplicate(&self, profile: &ConnectionProfile, id: String, name: String) -> (r:
        ProfileChange)
        ensures
            r@ == added(self@, duplicated(*profile, id, name)),
    {
        self.plan_add(profile.duplicate(id, name))
    }

    /// Plans to replace the profile that has the identity of `updated`. There is nothing to do
    /// where it is gone from the list.
    pub fn plan_edit(&self, updated: ConnectionProfile) -> (r: Option<ProfileChange>)
        ensures
            r is None <==> forall|i: int|
                0 <= i < self@.len() ==> (#[trigger] self@[i]).id@ != updated.id@,
            r matches Some(change) ==> change@ == edited(self@, updated),
    {
        proof {
            lemma_position_of(self@, updated.id@);
        }
        for position in 0..self.profiles.len()
            invariant
                0 <= position_of(self@, updated.id@) <= self@.len(),
                position_of(self@, updated.id@) < self@.len() ==> self@[position_of(
                    self@,
                    updated.id@,
                )].id@ == updated.id@,
                forall|i: int|
                    0 <= i < position_of(self@, updated.id@) ==> (#[trigger] self@[i]).id@
                        != updated.id@,
                forall|i: int| 0 <= i < position ==> (#[trigger] self@[i]).id@ != updated.id@,
        {
            if self.profiles[position].id == updated.id {
                assert(self@[position as int].id@ == updated.id@);
                assert(position == position_of(self@, updated.id@));
                let mut profiles = clone_profiles(&self.profiles);
                profiles.set(position, updated);
                let orphaned = orphaned_key(&profiles, &self.profiles[position]);
                return Some(ProfileChange { profiles, orphaned });
            }
        }
        None
    }

    /// Plans to delete a profile.
    pub fn plan_delete(&self, target: &ConnectionProfile) -> (r: ProfileChange)
        ensures
            r@ == deleted(self@, *target),
    {
        let mut profiles: Vec<ConnectionProfile> = Vec::new();
        proof {
            reveal(Seq::filter);
        }
        assert(profiles@ =~= without(self@.take(0), target.id@));
        for i in 0..self.profiles.len()
            invariant
                profiles@ == without(self@.take(i as int), target.id@),
        {
            proof {
                reveal(Seq::filter);
                assert(self@.take(i + 1).drop_last() =~= self@.take(i as int));
            }
            if self.profiles[i].id != target.id {
                profiles.push(self.profiles[i].clone());
            }
        }
        assert(self@.take(self@.len() as int) =~= self@);
        let orphaned = orphaned_key(&profiles, target);
        ProfileChange { profiles, orphaned }
    }

    /// Takes over a planned change if it could be saved. Otherwise the list stays as it is.
    pub fn commit(&mut self, change: ProfileChange, saved: Result<(), String>) -> (r: ChangeOutcome)
        ensures
            saved is Ok ==> final(self)@ == change.profiles@ && r == (ChangeOutcome::Saved {
                orphaned: change.orphaned,
            }),
            saved matches Err(error) ==> final(self)@ == old(self)@ && r
                == ChangeOutcome::NotSaved(error),
    {
        match saved {
            Ok(()) => {
                self.profiles = change.profiles;
                ChangeOutcome::Saved { orphaned: change.orphaned }
            },
            Err(error) => ChangeOutcome::NotSaved(error),
        }
    }
}

/// Law: a duplicate uses the same stored password as its original.
pub proof fn law_duplicates_share_the_credential(
    profile: ConnectionProfile,
    id: String,
    name: String,
)
    ensures
        credential(duplicated(profile, id, name)) == credential(profile),
{
}

/// Law: two profiles use the same stored password just where host, port and user agree. So an
/// edit of the endpoint or of the user changes the credential, and no other edit does.
pub proof fn law_credential_is_endpoint_and_user(a: ConnectionProfile, b: ConnectionProfile)
    ensures
        credential(a) == credential(b) <==> a.normalized_host@ == b.normalized_host@ && a.port
            == b.port && a.username@ == b.username@,
{
}

/// Law: an edit removes just the passwords that fall out of use by it.
pub proof fn law_edit_removes_what_falls_out_of_use(
    profiles: Seq<ConnectionProfile>,
    updated: ConnectionProfile,
    key: SecretKeyView,
)
    requires
        exists|i: int| 0 <= i < profiles.len() && (#[trigger] profiles[i]).id@ == updated.id@,
    ensures
        edited(profiles, updated).orphaned == Some(key) <==> uses(profiles, key) && !uses(
            edited(profiles, updated).profiles,
            key,
        ),
{
    lemma_position_of(profiles, updated.id@);
    let position = position_of(profiles, updated.id@);
    let saved = profiles.update(position, updated);
    let i = choose|i: int| 0 <= i < profiles.len() && (#[trigger] profiles[i]).id@ == updated.id@;
    assert(position < profiles.len());
    assert(credential(profiles[position]) == credential(profiles[position]));
    if uses(profiles, key) && !uses(saved, key) {
        let j = choose|j: int| 0 <= j < profiles.len() && credential(#[trigger] profiles[j]) == key;
        if j != position {
            assert(saved[j] == profiles[j]);
        }
    }
}

proof fn lemma_without(profiles: Seq<ConnectionProfile>, id: Seq<char>, profile: ConnectionProfile)
    ensures
        without(profiles, id).contains(profile) <==> profiles.contains(profile) && profile.id@ != id,
    decreases profiles.len(),
{
    reveal(Seq::filter);
    if profiles.len() > 0 {
        let before = profiles.drop_last();
        lemma_without(before, id, profile);
        assert(profiles =~= before.push(profiles.last()));
        assert(profiles.contains(profile) <==> before.contains(profile) || profiles.last()
            == profile) by {
            if profiles.contains(profile) {
                let i = choose|i: int| 0 <= i < profiles.len() && profiles[i] == profile;
                if i < before.len() {
                    assert(before[i] == profile);
                }
            }
            if before.contains(profile) {
                let i = choose|i: int| 0 <= i < before.len() && before[i] == profile;
                assert(profiles[i] == profile);
            }
        }
        if profiles.last().id@ != id {
            let kept = without(before, id);
            let all = without(profiles, id);
            assert(all =~= kept.push(profiles.last()));
            assert(all.contains(profile) <==> kept.contains(profile) || profiles.last()
                == profile) by {
                if all.contains(profile) {
                    let i = choose|i: int| 0 <= i < all.len() && all[i] == profile;
                    if i < kept.len() {
                        assert(kept[i] == profile);
                    }
                }
                if kept.contains(profile) {
                    let i = choose|i: int| 0 <= i < kept.len() && kept[i] == profile;
                    assert(all[i] == profile);
                }
                assert(all[all.len() - 1] == profiles.last());
            }
        }
    }
}

/// Law: the deletion of a listed profile removes just the passwords that fall out of use by it,
/// where no other profile has its identity.
pub proof fn law_delete_removes_what_falls_out_of_use(
    profiles: Seq<ConnectionProfile>,
    target: ConnectionProfile,
    key: SecretKeyView,
)
    requires
        profiles.contains(target),
        forall|i: int|
            0 <= i < profiles.len() && (#[trigger] profiles[i]).id@ == target.id@ ==> profiles[i]
                == target,
    ensures
        deleted(profiles, target).orphaned == Some(key) <==> uses(profiles, key) && !uses(
            deleted(profiles, target).profiles,
            key,
        ),
{
    let saved = without(profiles, target.id@);
    let t = choose|t: int| 0 <= t < profiles.len() && profiles[t] == target;
    assert(credential(profiles[t]) == credential(target));
    if uses(profiles, key) && !uses(saved, key) {
        let j = choose|j: int| 0 <= j < profiles.len() && credential(#[trigger] profiles[j]) == key;
        if profiles[j].id@ != target.id@ {
            lemma_without(profiles, target.id@, profiles[j]);
            let k = choose|k: int| 0 <= k < saved.len() && saved[k] == profiles[j];
            assert(credential(saved[k]) == key);
        }
    }
}

/// Law: no change removes a password that a profile still uses.
pub proof fn law_used_passwords_are_kept(
    profiles: Seq<ConnectionProfile>,
    profile: ConnectionProfile,
    key: SecretKeyView,
)
    ensures
        edited(profiles, profile).orphaned == Some(key) ==> !uses(
            edited(profiles, profile).profiles,
            key,
        ),
        deleted(profiles, profile).orphaned == Some(key) ==> !uses(
            deleted(profiles, profile).profiles,
            key,
        ),
        added(profiles, profile).orphaned is None,
{
}

/// Law: a password is stored under the normalized host, the port and the user of its profile, and
/// a key names just these.
pub proof fn law_key_names_host_port_and_user(
    profile: ConnectionProfile,
    host: String,
    port: u16,
    user: String,
)
    ensures
        credential(profile).host == profile.normalized_host@,
        credential(profile).port == profile.port,
        credential(profile).user == profile.username@,
        (SecretKey { host, port, user })@.host == host@,
        (SecretKey { host, port, user })@.port == port,
        (SecretKey { host, port, user })@.user == user@,
        key_view(Some(SecretKey { host, port, user })) == Some(
            (SecretKeyView { host: host@, port, user: user@ }),
        ),
        key_view(None) is None,
{
}

/// Law: a duplicate has the identity and the name that it is given, and everything else from its
/// original.
pub proof fn law_duplicate_differs_in_identity_and_name(
    profile: ConnectionProfile,
    id: String,
    name: String,
)
    ensures
        duplicated(profile, id, name).id == id,
        duplicated(profile, id, name).name == name,
        duplicated(profile, id, name).host == profile.host,
        duplicated(profile, id, name).normalized_host == profile.normalized_host,
        duplicated(profile, id, name).port == profile.port,
        duplicated(profile, id, name).username == profile.username,
        duplicated(profile, id, name).resolution == profile.resolution,
{
}

/// Law: the contents of a change are its profiles and its key.
pub proof fn law_changes_hold_their_contents(change: ProfileChange)
    ensures
        change@.profiles == change.profiles@,
        change@.orphaned is Some <==> change.orphaned is Some,
        change.orphaned matches Some(key) ==> change@.orphaned == Some(key@),
{
}

/// Law: a profile that is added stands last, before it everything is as it was, and no password
/// is removed.
pub proof fn law_added_profile_is_last(
    profiles: Seq<ConnectionProfile>,
    profile: ConnectionProfile,
)
    ensures
        added(profiles, profile).profiles.len() == profiles.len() + 1,
        added(profiles, profile).profiles[profiles.len() as int] == profile,
        forall|i: int|
            0 <= i < profiles.len() ==> #[trigger] added(profiles, profile).profiles[i]
                == profiles[i],
        added(profiles, profile).orphaned is None,
{
}

proof fn lemma_position_is(profiles: Seq<ConnectionProfile>, id: Seq<char>, at: int)
    requires
        0 <= at < profiles.len(),
        profiles[at].id@ == id,
        forall|i: int| 0 <= i < at ==> (#[trigger] profiles[i]).id@ != id,
    ensures
        position_of(profiles, id) == at,
{
    lemma_position_of(profiles, id);
    let position = position_of(profiles, id);
    if position > at {
        assert(profiles[at].id@ != id);
    }
    if position < at {
        assert(profiles[position].id@ != id);
    }
}

/// Law: an edit puts the profile, with every field as the user left it, in the place of the first
/// one with its identity, and touches no other place.
pub proof fn law_edit_replaces_just_the_edited_profile(
    profiles: Seq<ConnectionProfile>,
    updated: ConnectionProfile,
    at: int,
)
    requires
        0 <= at < profiles.len(),
        profiles[at].id@ == updated.id@,
        forall|i: int| 0 <= i < at ==> (#[trigger] profiles[i]).id@ != updated.id@,
    ensures
        edited(profiles, updated).profiles.len() == profiles.len(),
        edited(profiles, updated).profiles[at] == updated,
        forall|i: int|
            0 <= i < profiles.len() && i != at ==> #[trigger] edited(profiles, updated).profiles[i]
                == profiles[i],
{
    lemma_position_is(profiles, updated.id@, at);
}

/// Law: after an edit the password that the profile had is removed just where no profile of the
/// new list has that host, port and user.
pub proof fn law_edit_removes_the_old_password(
    profiles: Seq<ConnectionProfile>,
    updated: ConnectionProfile,
    at: int,
)
    requires
        0 <= at < profiles.len(),
        profiles[at].id@ == updated.id@,
        forall|i: int| 0 <= i < at ==> (#[trigger] profiles[i]).id@ != updated.id@,
    ensures
        ({
            let (old, change) = (profiles[at], edited(profiles, updated));
            &&& change.orphaned is Some <==> forall|i: int|
                0 <= i < change.profiles.len() ==> !({
                    let p = #[trigger] change.profiles[i];
                    p.normalized_host@ == old.normalized_host@ && p.port == old.port && p.username@
                        == old.username@
                })
            &&& change.orphaned matches Some(key) ==> key.host == old.normalized_host@ && key.port
                == old.port && key.user == old.username@
        }),
{
    lemma_position_is(profiles, updated.id@, at);
    let saved = edited(profiles, updated).profiles;
    lemma_if_unused(saved, profiles[at]);
}

proof fn lemma_if_unused(saved: Seq<ConnectionProfile>, old: ConnectionProfile)
    ensures
        if_unused(saved, credential(old)) is Some <==> forall|i: int|
            0 <= i < saved.len() ==> !({
                let p = #[trigger] saved[i];
                p.normalized_host@ == old.normalized_host@ && p.port == old.port && p.username@
                    == old.username@
            }),
        if_unused(saved, credential(old)) matches Some(key) ==> key == credential(old),
{
    if uses(saved, credential(old)) {
        let i = choose|i: int|
            0 <= i < saved.len() && credential(#[trigger] saved[i]) == credential(old);
        law_credential_is_endpoint_and_user(saved[i], old);
        assert(saved[i].port == old.port);
    } else {
        assert forall|i: int| 0 <= i < saved.len() implies !({
            let p = #[trigger] saved[i];
            p.normalized_host@ == old.normalized_host@ && p.port == old.port && p.username@
                == old.username@
        }) by {
            law_credential_is_endpoint_and_user(saved[i], old);
        }
    }
}

/// Law: a deletion leaves out the profiles with the identity of the deleted one, and keeps every
/// other one as it is and in its order.
pub proof fn law_delete_leaves_out_just_the_deleted(
    before: Seq<ConnectionProfile>,
    profile: ConnectionProfile,
    after: Seq<ConnectionProfile>,
    target: ConnectionProfile,
)
    ensures
        deleted(Seq::empty(), target).profiles.len() == 0,
        profile.id@ == target.id@ ==> deleted(before.push(profile) + after, target).profiles
            == deleted(before, target).profiles + deleted(after, target).profiles,
        profile.id@ != target.id@ ==> deleted(before.push(profile) + after, target).profiles
            == deleted(before, target).profiles.push(profile) + deleted(after, target).profiles,
    decreases after.len(),
{
    reveal(Seq::filter);
    let whole = before.push(profile) + after;
    if after.len() == 0 {
        assert(whole =~= before.push(profile));
        assert(before.push(profile).drop_last() =~= before);
    } else {
        law_delete_leaves_out_just_the_deleted(before, profile, after.drop_last(), target);
        assert(whole.drop_last() =~= before.push(profile) + after.drop_last());
    }
    let (x, y) = (deleted(before, target).profiles, deleted(after, target).profiles);
    if profile.id@ == target.id@ {
        assert(deleted(whole, target).profiles =~= x + y);
    } else {
        assert(deleted(whole, target).profiles =~= x.push(profile) + y);
    }
}

/// Law: after a deletion the password of the deleted profile is removed just where no profile
/// that is left has its host, port and user.
pub proof fn law_delete_removes_the_old_password(
    profiles: Seq<ConnectionProfile>,
    target: ConnectionProfile,
)
    ensures
        ({
            let change = deleted(profiles, target);
            &&& change.orphaned is Some <==> forall|i: int|
                0 <= i < change.profiles.len() ==> !({
                    let p = #[trigger] change.profiles[i];
                    p.normalized_host@ == target.normalized_host@ && p.port == target.port
                        && p.username@ == target.username@
                })
            &&& change.orphaned matches Some(key) ==> key.host == target.normalized_host@
                && key.port == target.port && key.user == target.username@
        }),
{
    lemma_if_unused(deleted(profiles, target).profiles, target);
}

/// Law: one text occurs in another just where the other is the one with something, or nothing,
/// before and after it.
pub proof fn law_occurrence_splits_the_text(needle: Seq<char>, hay: Seq<char>)
    ensures
        occurs_in(needle, hay) <==> exists|a: Seq<char>, b: Seq<char>|
            hay == #[trigger] (a + needle + b),
{
    if occurs_in(needle, hay) {
        let i = choose|i: int|
            0 <= i <= hay.len() - needle.len() && #[trigger] hay.subrange(i, i + needle.len())
                == needle;
        let (a, b) = (hay.take(i), hay.skip(i + needle.len()));
        assert(hay =~= a + hay.subrange(i, i + needle.len()) + b);
        assert(hay == a + needle + b);
    }
    if exists|a: Seq<char>, b: Seq<char>| hay == #[trigger] (a + needle + b) {
        let (a, b) = choose|a: Seq<char>, b: Seq<char>| hay == #[trigger] (a + needle + b);
        let i = a.len() as int;
        assert(hay.subrange(i, i + needle.len()) =~= needle);
    }
}

/// Law: a search shows a profile just where its name or its host, in lowercase, is the search in
/// lowercase with something, or nothing, before and after it.
pub proof fn law_search_looks_at_name_and_host(profile: ConnectionProfile, query: Seq<char>)
    ensures
        found_by(profile, query) <==> (exists|a: Seq<char>, b: Seq<char>|
            lowercase(profile.name@) == #[trigger] (a + lowercase(query) + b)) || (exists|
            a: Seq<char>,
            b: Seq<char>,
        |
            lowercase(profile.host@) == #[trigger] (a + lowercase(query) + b)),
{
    let needle = lowercase(query);
    law_occurrence_splits_the_text(needle, lowercase(profile.name@));
    law_occurrence_splits_the_text(needle, lowercase(profile.host@));
    if needle.len() == 0 {
        let hay = lowercase(profile.name@);
        assert(hay.subrange(0int, 0int + needle.len()) =~= needle);
        assert(occurs_in(needle, hay));
    }
}

} // verus!
