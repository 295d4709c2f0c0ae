//! A cache of what dispatch events reveal: the bot's own user, the
//! channels of each guild and the users met as guild members. Keys are
//! the numeric ids that Discord uses.
use vstd::prelude::*;

use std::collections::HashMap;

use twilight_model::channel::GuildChannel;
use twilight_model::guild::Guild;
use twilight_model::user::{CurrentUser, User};

verus! {

broadcast use vstd::std_specs::hash::group_hash_axioms;

#[verifier::external_type_specification]
#[verifier::external_body]
pub struct ExCurrentUser(CurrentUser);

#[verifier::external_type_specification]
#[verifier::external_body]
pub struct ExGuild(Guild);

#[verifier::external_type_specification]
#[verifier::external_body]
pub struct ExGuildChannel(GuildChannel);

#[verifier::external_type_specification]
#[verifier::external_body]
pub struct ExUser(User);

/// The users map after inserting each `(id, user)` pair in turn: for an id
/// given twice, the later user wins.
pub open spec fn insert_all(m: Map<u64, User>, pairs: Seq<(u64, User)>) -> Map<u64, User>
    decreases pairs.len(),
{
    if pairs.len() == 0 {
        m
    } else {
        insert_all(m, pairs.drop_last()).insert(pairs.last().0, pairs.last().1)
    }
}

/// The channels cached for a guild, as a sequence; none when the guild has
/// no entry.
spec fn channels_of(m: Map<u64, Vec<GuildChannel>>, guild_id: u64) -> Seq<GuildChannel> {
    if m.contains_key(guild_id) {
        m[guild_id]@
    } else {
        Seq::empty()
    }
}

/// What the cache holds, with each guild's channels as a sequence.
pub struct CacheModel {
    pub me: Option<CurrentUser>,
    pub guilds: Map<u64, Guild>,
    pub channels: Map<u64, Seq<GuildChannel>>,
    pub users: Map<u64, User>,
}

/// The channels of each guild, as sequences.
pub open spec fn channel_lists(m: Map<u64, Vec<GuildChannel>>) -> Map<u64, Seq<GuildChannel>> {
    Map::new(|k: u64| m.contains_key(k), |k: u64| m[k]@)
}

/// The cache after a guild is recorded: the guild is stored under its id;
/// its channels go after those already cached for it (a guild without
/// channels gets no channel entry); and each member's user is stored under
/// its id, the later of two with one id winning.
pub open spec fn guild_cached(
    m: CacheModel,
    guild_id: u64,
    guild: Guild,
    channels: Seq<GuildChannel>,
    members: Seq<(u64, User)>,
) -> CacheModel {
    CacheModel {
        guilds: m.guilds.insert(guild_id, guild),
        channels: if channels.len() == 0 {
            m.channels
        } else {
            m.channels.insert(
                guild_id,
                (if m.channels.contains_key(guild_id) {
                    m.channels[guild_id]
                } else {
                    Seq::empty()
                }) + channels,
            )
        },
        users: insert_all(m.users, members),
        ..m
    }
}

/// Caches what dispatch events reveal.
pub struct Cache {
    /// The current bot user.
    pub me: Option<CurrentUser>,
    /// Cached guilds by guild id.
    pub guilds: HashMap<u64, Guild>,
    /// The channels of each guild, by guild id.
    pub channels_guild: HashMap<u64, Vec<GuildChannel>>,
    /// Users by user id.
    pub users: HashMap<u64, User>,
}

impl Cache {
    /// What the cache holds.
    pub open spec fn model(&self) -> CacheModel {
        CacheModel {
            me: self.me,
            guilds: self.guilds@,
            channels: channel_lists(self.channels_guild@),
            users: self.users@,
        }
    }

    /// An empty cache.
    pub fn new() -> (c: Cache)
        ensures
            c.model() == (CacheModel { me: None, guilds: Map::empty(), channels: Map::empty(), users: Map::empty() }),
    {
        let c = Cache { me: None, guilds: HashMap::new(), channels_guild: HashMap::new(), users: HashMap::new() };
        assert(channel_lists(c.channels_guild@) =~= Map::<u64, Seq<GuildChannel>>::empty());
        c
    }

    /// Records the current bot user.
    pub fn cache_me(&mut self, me: CurrentUser)
        ensures
            final(self).model() == (CacheModel { me: Some(me), ..old(self).model() }),
    {
        self.me = Some(me);
    }

    /// Records a guild under its id, its channels after those already
    /// cached for it, and the users of its members, each under its id. A
    /// guild without channels gets no channel entry.
    pub fn cache_guild(&mut self, guild_id: u64, guild: Guild, channels: Vec<GuildChannel>, members: Vec<(u64, User)>)
        ensures
            final(self).model() == guild_cached(old(self).model(), guild_id, guild, channels@, members@),
    {
        let n = channels.len();
        let mut pending = channels;
        let ghost given = pending@;
        let mut i: usize = 0;
        while i < n
            invariant
                n == given.len(),
                i <= n,
                pending@ == given.subrange(i as int, n as int),
                self.me == old(self).me,
                self.guilds@ == old(self).guilds@,
                self.users@ == old(self).users@,
                i == 0 ==> self.channels_guild@ == old(self).channels_guild@,
                i > 0 ==> self.channels_guild@.dom() == old(self).channels_guild@.dom().insert(guild_id),
                channels_of(self.channels_guild@, guild_id) == channels_of(old(self).channels_guild@, guild_id) + given.take(i as int),
                self.channels_guild@.remove(guild_id) == old(self).channels_guild@.remove(guild_id),
            decreases n - i,
        {
            let channel = pending.remove(0);
            assert(channel == given[i as int]);
            self.cache_guild_channel(guild_id, channel);
            assert(given.take(i + 1) =~= given.take(i as int).push(given[i as int]));
            i = i + 1;
        }
        assert(given.take(n as int) =~= given);
        let m = members.len();
        let mut members = members;
        let ghost pairs = members@;
        let mut j: usize = 0;
        while j < m
            invariant
                m == pairs.len(),
                j <= m,
                members@ == pairs.subrange(j as int, m as int),
                self.me == old(self).me,
                self.guilds@ == old(self).guilds@,
                self.users@ == insert_all(old(self).users@, pairs.take(j as int)),
                n == given.len(),
                n == 0 ==> self.channels_guild@ == old(self).channels_guild@,
                n > 0 ==> self.channels_guild@.dom() == old(self).channels_guild@.dom().insert(guild_id),
                channels_of(self.channels_guild@, guild_id) == channels_of(old(self).channels_guild@, guild_id) + given,
                self.channels_guild@.remove(guild_id) == old(self).channels_guild@.remove(guild_id),
            decreases m - j,
        {
            let (id, user) = members.remove(0);
            assert((id, user) == pairs[j as int]);
            self.cache_user(id, user);
            assert(pairs.take(j + 1).drop_last() =~= pairs.take(j as int));
            j = j + 1;
        }
        assert(pairs.take(m as int) =~= pairs);
        self.guilds.insert(guild_id, guild);
        proof {
            let after = guild_cached(old(self).model(), guild_id, guild, given, pairs);
            if n > 0 {
                assert(channel_lists(self.channels_guild@) =~= after.channels) by {
                    assert forall|k: u64| #[trigger] channel_lists(self.channels_guild@).contains_key(k) implies channel_lists(self.channels_guild@)[k] == after.channels[k] by {
                        if k != guild_id {
                            assert(self.channels_guild@.remove(guild_id).contains_key(k));
                            assert(self.channels_guild@.remove(guild_id)[k] == old(self).channels_guild@.remove(guild_id)[k]);
                        }
                    }
                    assert forall|k: u64| #[trigger] after.channels.contains_key(k) implies channel_lists(self.channels_guild@).contains_key(k) by {
                        if k != guild_id {
                            assert(old(self).channels_guild@.remove(guild_id).contains_key(k));
                        }
                    }
                }
            } else {
                assert(channel_lists(self.channels_guild@) =~= after.channels);
            }
        }
    }

    /// Stores a user under its id.
    fn cache_user(&mut self, id: u64, user: User)
        ensures
            final(self).me == old(self).me,
            final(self).guilds@ == old(self).guilds@,
            final(self).channels_guild@ == old(self).channels_guild@,
            final(self).users@ == old(self).users@.insert(id, user),
    {
        self.users.insert(id, user);
    }

    /// Appends a channel to those cached for a guild.
    fn cache_guild_channel(&mut self, guild_id: u64, channel: GuildChannel)
        ensures
            final(self).me == old(self).me,
            final(self).guilds@ == old(self).guilds@,
            final(self).users@ == old(self).users@,
            final(self).channels_guild@.dom() == old(self).channels_guild@.dom().insert(guild_id),
            channels_of(final(self).channels_guild@, guild_id) == channels_of(old(self).channels_guild@, guild_id).push(channel),
            final(self).channels_guild@.remove(guild_id) == old(self).channels_guild@.remove(guild_id),
    {
        let mut channels = match self.channels_guild.remove(&guild_id) {
            Some(existing) => existing,
            None => Vec::new(),
        };
        channels.push(channel);
        self.channels_guild.insert(guild_id, channels);
        assert(self.channels_guild@.dom() =~= old(self).channels_guild@.dom().insert(guild_id));
        assert(self.channels_guild@.remove(guild_id) =~= old(self).channels_guild@.remove(guild_id));
    }
}

/// After the members' users are stored, every member's id is cached, with
/// the user of the last member that carries it.
pub proof fn lemma_insert_all_stores_last(m: Map<u64, User>, pairs: Seq<(u64, User)>, i: int)
    requires
        0 <= i < pairs.len(),
        forall|k: int| i < k < pairs.len() ==> pairs[k].0 != pairs[i].0,
    ensures
        insert_all(m, pairs).contains_key(pairs[i].0),
        insert_all(m, pairs)[pairs[i].0] == pairs[i].1,
    decreases pairs.len(),
{
    if i < pairs.len() - 1 {
        lemma_insert_all_stores_last(m, pairs.drop_last(), i);
    }
}

/// Storing members' users keeps every user already cached whose id no
/// member carries.
pub proof fn lemma_insert_all_keeps_others(m: Map<u64, User>, pairs: Seq<(u64, User)>, id: u64)
    requires
        forall|k: int| 0 <= k < pairs.len() ==> pairs[k].0 != id,
    ensures
        insert_all(m, pairs).contains_key(id) == m.contains_key(id),
        m.contains_key(id) ==> insert_all(m, pairs)[id] == m[id],
    decreases pairs.len(),
{
    if pairs.len() > 0 {
        lemma_insert_all_keeps_others(m, pairs.drop_last(), id);
    }
}

/// Storing members' users caches the id of every member.
pub proof fn lemma_insert_all_caches_every_member(m: Map<u64, User>, pairs: Seq<(u64, User)>, i: int)
    requires
        0 <= i < pairs.len(),
    ensures
        insert_all(m, pairs).contains_key(pairs[i].0),
    decreases pairs.len(),
{
    if i < pairs.len() - 1 {
        lemma_insert_all_caches_every_member(m, pairs.drop_last(), i);
    }
}

/// Storing members' users forgets no user already cached.
pub proof fn lemma_insert_all_keeps_keys(m: Map<u64, User>, pairs: Seq<(u64, User)>, id: u64)
    requires
        m.contains_key(id),
    ensures
        insert_all(m, pairs).contains_key(id),
    decreases pairs.len(),
{
    if pairs.len() > 0 {
        lemma_insert_all_keeps_keys(m, pairs.drop_last(), id);
    }
}

/// What recording a guild leaves in the cache: the guild under its id;
/// every member's id among the cached users, with the user of the last
/// member that carries it; every other user and guild as it was; the
/// guild's channels after those already cached for it; and the bot user
/// untouched.
pub proof fn lemma_guild_cached_contents(
    m: CacheModel,
    guild_id: u64,
    guild: Guild,
    channels: Seq<GuildChannel>,
    members: Seq<(u64, User)>,
)
    ensures
        guild_cached(m, guild_id, guild, channels, members).me == m.me,
        guild_cached(m, guild_id, guild, channels, members).guilds.contains_key(guild_id),
        guild_cached(m, guild_id, guild, channels, members).guilds[guild_id] == guild,
        forall|k: u64|
            k != guild_id ==> (#[trigger] guild_cached(m, guild_id, guild, channels, members).guilds.contains_key(k)
                == m.guilds.contains_key(k)) && (m.guilds.contains_key(k) ==> guild_cached(
                m,
                guild_id,
                guild,
                channels,
                members,
            ).guilds[k] == m.guilds[k]),
        forall|i: int|
            0 <= i < members.len() ==> #[trigger] guild_cached(m, guild_id, guild, channels, members).users.contains_key(
                members[i].0,
            ),
        forall|i: int|
            0 <= i < members.len() && (forall|k: int| i < k < members.len() ==> members[k].0 != members[i].0)
                ==> #[trigger] guild_cached(m, guild_id, guild, channels, members).users[members[i].0] == members[i].1,
        forall|id: u64|
            m.users.contains_key(id) ==> #[trigger] guild_cached(m, guild_id, guild, channels, members).users.contains_key(id),
        forall|id: u64|
            (forall|k: int| 0 <= k < members.len() ==> members[k].0 != id) ==> (#[trigger] guild_cached(
                m,
                guild_id,
                guild,
                channels,
                members,
            ).users.contains_key(id) == m.users.contains_key(id)) && (m.users.contains_key(id) ==> guild_cached(
                m,
                guild_id,
                guild,
                channels,
                members,
            ).users[id] == m.users[id]),
        channels.len() > 0 ==> guild_cached(m, guild_id, guild, channels, members).channels.contains_key(guild_id)
            && guild_cached(m, guild_id, guild, channels, members).channels[guild_id] == (if m.channels.contains_key(
            guild_id,
        ) {
            m.channels[guild_id]
        } else {
            Seq::<GuildChannel>::empty()
        }) + channels,
        channels.len() == 0 ==> guild_cached(m, guild_id, guild, channels, members).channels == m.channels,
        forall|k: u64|
            k != guild_id ==> (#[trigger] guild_cached(m, guild_id, guild, channels, members).channels.contains_key(k)
                == m.channels.contains_key(k)) && (m.channels.contains_key(k) ==> guild_cached(
                m,
                guild_id,
                guild,
                channels,
                members,
            ).channels[k] == m.channels[k]),
{
    let r = guild_cached(m, guild_id, guild, channels, members);
    assert forall|i: int| 0 <= i < members.len() implies #[trigger] r.users.contains_key(members[i].0) by {
        lemma_insert_all_caches_every_member(m.users, members, i);
    }
    assert forall|i: int|
        0 <= i < members.len() && (forall|k: int| i < k < members.len() ==> members[k].0 != members[i].0)
            implies #[trigger] r.users[members[i].0] == members[i].1 by {
        lemma_insert_all_stores_last(m.users, members, i);
    }
    assert forall|id: u64| m.users.contains_key(id) implies #[trigger] r.users.contains_key(id) by {
        lemma_insert_all_keeps_keys(m.users, members, id);
    }
    assert forall|id: u64| (forall|k: int| 0 <= k < members.len() ==> members[k].0 != id) implies (
    #[trigger] r.users.contains_key(id) == m.users.contains_key(id)) && (m.users.contains_key(id) ==> r.users[id]
        == m.users[id]) by {
        lemma_insert_all_keeps_others(m.users, members, id);
    }
}

} // verus!
