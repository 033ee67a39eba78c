//! The presence directory: one profile per name of the latest `users`
//! envelope, in its order, each with an avatar seeded by the name.
use vstd::prelude::*;
use vstd::string::StringExecFns;
use crate::envelope::texts;

verus! {

/// A user of the directory and the avatar drawn for them.
#[derive(Clone, Debug, PartialEq, Eq)]
pub struct UserProfile {
    pub name: String,
    pub avatar: String,
}

/// The content of a profile.
pub ghost struct Profile {
    pub name: Seq<char>,
    pub avatar: Seq<char>,
}

impl View for UserProfile {
    type V = Profile;

    open spec fn view(&self) -> Profile {
        Profile { name: self.name@, avatar: self.avatar@ }
    }
}

/// The avatar of a name: a seeded-avatar URL that depends on the name alone.
pub open spec fn avatar_url_of(name: Seq<char>) -> Seq<char> {
    "https://api.dicebear.com/8.x/adventurer-neutral/svg?seed="@ + name
}

pub open spec fn profile_of(name: Seq<char>) -> Profile {
    Profile { name, avatar: avatar_url_of(name) }
}

/// The directory that a list of names gives: one profile per name, in order,
/// duplicates kept.
pub open spec fn directory_of(names: Seq<Seq<char>>) -> Seq<Profile> {
    names.map_values(|n: Seq<char>| profile_of(n))
}

pub open spec fn profiles(v: Seq<UserProfile>) -> Seq<Profile> {
    v.map_values(|p: UserProfile| p@)
}

/// The avatar of the first profile from index `i` on whose name is `sender`;
/// empty where there is none.
pub open spec fn avatar_from(dir: Seq<Profile>, sender: Seq<char>, i: int) -> Seq<char>
    decreases dir.len() - i,
{
    if i < 0 || i >= dir.len() {
        Seq::empty()
    } else if dir[i].name == sender {
        dir[i].avatar
    } else {
        avatar_from(dir, sender, i + 1)
    }
}

/// The avatar that the directory shows for a sender, empty for one not in it.
pub open spec fn avatar_lookup(dir: Seq<Profile>, sender: Seq<char>) -> Seq<char> {
    avatar_from(dir, sender, 0)
}

/// The seeded avatar URL of a name.
pub fn avatar_url(name: &str) -> (r: String)
    ensures
        r@ == avatar_url_of(name@),
{
    let mut url = String::from_str("https://api.dicebear.com/8.x/adventurer-neutral/svg?seed=");
    url.append(name);
    url
}

/// Builds the directory from the names of a `users` envelope.
pub fn apply_users_envelope(names: &Vec<String>) -> (r: Vec<UserProfile>)
    ensures
        profiles(r@) == directory_of(texts(names@)),
{
    let mut out: Vec<UserProfile> = Vec::new();
    let mut i: usize = 0;
    while i < names.len()
        invariant
            i <= names@.len(),
            out@.len() == i,
            forall|k: int| 0 <= k < i ==> (#[trigger] out@[k])@ == profile_of(names@[k]@),
        decreases names@.len() - i,
    {
        let name = names[i].clone();
        let avatar = avatar_url(name.as_str());
        out.push(UserProfile { name, avatar });
        i = i + 1;
    }
    assert(profiles(out@) =~= directory_of(texts(names@)));
    out
}

/// The avatar to show beside a sender's messages: that of the first profile
/// with the sender's name, or an empty string.
pub fn avatar_for(users: &Vec<UserProfile>, sender: &String) -> (r: String)
    ensures
        r@ == avatar_lookup(profiles(users@), sender@),
{
    let ghost dir = profiles(users@);
    let mut i: usize = 0;
    while i < users.len()
        invariant
            i <= users@.len(),
            dir == profiles(users@),
            avatar_lookup(dir, sender@) == avatar_from(dir, sender@, i as int),
        decreases users@.len() - i,
    {
        if users[i].name == *sender {
            return users[i].avatar.clone();
        }
        i = i + 1;
    }
    String::new()
}

/// A directory follows from the names alone: one profile per name, in the
/// same order, and equal names get equal avatars.
pub proof fn lemma_directory_follows_names(names: Seq<Seq<char>>)
    ensures
        directory_of(names).len() == names.len(),
        forall|i: int|
            0 <= i < names.len() ==> (#[trigger] directory_of(names)[i]).name == names[i]
                && directory_of(names)[i].avatar == avatar_url_of(names[i]),
        forall|i: int, j: int|
            0 <= i < names.len() && 0 <= j < names.len() && names[i] == names[j]
                ==> #[trigger] directory_of(names)[i].avatar == #[trigger] directory_of(names)[j].avatar,
{
}

} // verus!
