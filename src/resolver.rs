use vstd::prelude::*;

use crate::dispatch::Destination;

verus! {

/// The position of the first name in `names` equal to `name`, if any.
pub open spec fn name_index(names: Seq<String>, name: Seq<char>) -> Option<int> {
    if exists|i: int| 0 <= i < names.len() && names[i]@ == name {
        Some(
            choose|i: int|
                0 <= i < names.len() && names[i]@ == name && forall|k: int|
                    0 <= k < i ==> names[k]@ != name,
        )
    } else {
        None
    }
}

/// `r` is the position `name_index` gives.
pub open spec fn found_at(r: Option<usize>, names: Seq<String>, name: Seq<char>) -> bool {
    match name_index(names, name) {
        Some(i) => 0 <= i < names.len() && r == Some(i as usize),
        None => r is None,
    }
}

fn first_named(names: &Vec<String>, name: &String) -> (r: Option<usize>)
    ensures
        found_at(r, names@, name@),
{
    let mut i: usize = 0;
    while i < names.len()
        invariant
            i <= names.len(),
            forall|k: int| 0 <= k < i ==> names@[k]@ != name@,
        decreases names.len() - i,
    {
        if names[i] == *name {
            proof {
                let c = name_index(names@, name@)->Some_0;
                assert(names@[i as int]@ == name@);
                assert(c == i);
            }
            return Some(i);
        }
        i += 1;
    }
    None
}

/// Finds a guild by its exact name among the guilds the bot knows, given by
/// their names; the first one wins.
pub fn get_target_guild(guild_names: &Vec<String>, target_guild: &String) -> (r: Option<usize>)
    ensures
        found_at(r, guild_names@, target_guild@),
{
    first_named(guild_names, target_guild)
}

/// Finds a channel by its exact name among a guild's channels, given by
/// their names; the first one wins.
pub fn get_target_channel(channel_names: &Vec<String>, channel_name: &String) -> (r: Option<usize>)
    ensures
        found_at(r, channel_names@, channel_name@),
{
    first_named(channel_names, channel_name)
}

} // verus!

verus! {

proof fn least_name(names: Seq<String>, name: Seq<char>, j: int) -> (i: int)
    requires
        0 <= j < names.len(),
        names[j]@ == name,
    ensures
        0 <= i <= j,
        names[i]@ == name,
        forall|k: int| 0 <= k < i ==> names[k]@ != name,
    decreases j,
{
    if exists|k: int| 0 <= k < j && names[k]@ == name {
        let k = choose|k: int| 0 <= k < j && names[k]@ == name;
        least_name(names, name, k)
    } else {
        j
    }
}

/// The position `name_index` gives holds the name, and no earlier one does; without one, the name is absent.
pub proof fn lemma_name_index(names: Seq<String>, name: Seq<char>)
    ensures
        match name_index(names, name) {
            Some(i) => 0 <= i < names.len() && names[i]@ == name && forall|k: int|
                0 <= k < i ==> names[k]@ != name,
            None => forall|k: int| 0 <= k < names.len() ==> names[k]@ != name,
        },
{
    if exists|j: int| 0 <= j < names.len() && names[j]@ == name {
        let j = choose|j: int| 0 <= j < names.len() && names[j]@ == name;
        least_name(names, name, j);
    }
}

} // verus!

verus! {

/// Where to look for a place's channel.
pub enum ChannelSearch {
    /// The default channel found at start.
    UseDefault,
    /// The named channel in the default guild.
    InDefaultGuild { channel: String },
    /// The named channel in the named guild.
    InGuild { guild: String, channel: String },
}

/// The search a place asks for: a place's own guild wins over the default
/// guild, and a place with no channel is the default channel.
pub open spec fn search_for(place: Destination) -> ChannelSearch {
    match place {
        Destination::Default => ChannelSearch::UseDefault,
        Destination::Named { guild, channel } => match guild {
            Some(g) => ChannelSearch::InGuild { guild: g, channel },
            None => ChannelSearch::InDefaultGuild { channel },
        },
    }
}

/// Decides where to look for the channel of a message or a quiz.
pub fn channel_search(place: &Destination) -> (r: ChannelSearch)
    ensures
        r == search_for(*place),
{
    match place {
        Destination::Default => ChannelSearch::UseDefault,
        Destination::Named { guild, channel } => match guild {
            Some(g) => ChannelSearch::InGuild { guild: g.clone(), channel: channel.clone() },
            None => ChannelSearch::InDefaultGuild { channel: channel.clone() },
        },
    }
}

} // verus!
