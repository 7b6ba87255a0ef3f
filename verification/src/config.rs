//! Named profiles: a profile is a stored seed transcript, and a
//! configuration maps profile names to profiles. Loading the configuration
//! from disk happens outside the library; it hands the entries in as plain
//! values, and an unknown profile name is a normal outcome (`None`), not a
//! failure.

use vstd::prelude::*;

use crate::gpt::ChatMessage;

verus! {

/// A named seed transcript: the messages a conversation starts from.
#[derive(Clone, Debug)]
pub struct Profile {
    pub messages: Vec<ChatMessage>,
}

impl Profile {
    pub fn new(messages: Vec<ChatMessage>) -> (p: Profile)
        ensures
            p.messages@ == messages@,
    {
        Profile { messages }
    }

    pub fn get_messages(&self) -> (r: &Vec<ChatMessage>)
        ensures
            r@ == self.messages@,
    {
        &self.messages
    }
}

/// The first profile of `entries` stored under `name`, if any.
pub open spec fn lookup_spec(entries: Seq<(String, Profile)>, name: Seq<char>) -> Option<Profile>
    decreases entries.len(),
{
    if entries.len() == 0 {
        None
    } else if entries[0].0@ == name {
        Some(entries[0].1)
    } else {
        lookup_spec(entries.drop_first(), name)
    }
}

/// The loaded configuration: profiles, each stored under its name. Names
/// come from a configuration mapping, so each is expected once; if one
/// repeats, the first entry wins.
pub struct Config {
    profiles: Vec<(String, Profile)>,
}

impl Config {
    /// The stored entries, in order.
    pub closed spec fn profiles_spec(&self) -> Seq<(String, Profile)> {
        self.profiles@
    }

    pub fn new(profiles: Vec<(String, Profile)>) -> (c: Config)
        ensures
            c.profiles_spec() == profiles@,
    {
        Config { profiles }
    }

    /// The profile stored under `name`: `Some` of the first entry whose name
    /// matches, and `None` exactly when no entry carries that name.
    pub fn get_profile(&self, name: String) -> (r: Option<&Profile>)
        ensures
            match r {
                Some(p) => lookup_spec(self.profiles_spec(), name@) == Some(*p),
                None => lookup_spec(self.profiles_spec(), name@) is None,
            },
    {
        let n = self.profiles.len();
        let mut i: usize = 0;
        proof {
            assert(self.profiles_spec().skip(0) =~= self.profiles_spec());
        }
        while i < n
            invariant
                0 <= i <= n == self.profiles_spec().len(),
                forall|j: int| 0 <= j < i ==> self.profiles_spec()[j].0@ != name@,
                lookup_spec(self.profiles_spec(), name@) == lookup_spec(
                    self.profiles_spec().skip(i as int),
                    name@,
                ),
            decreases n - i,
        {
            proof {
                assert(self.profiles_spec().skip(i as int)[0] == self.profiles_spec()[i as int]);
                assert(self.profiles_spec().skip(i as int).drop_first()
                    =~= self.profiles_spec().skip(i as int + 1));
            }
            if self.profiles[i].0 == name {
                return Some(&self.profiles[i].1);
            }
            i = i + 1;
        }
        proof {
            assert(self.profiles_spec().skip(n as int) =~= Seq::<(String, Profile)>::empty());
        }
        None
    }
}

} // verus!
