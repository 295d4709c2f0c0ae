//! The middleware that fills the event cache.
use vstd::prelude::*;

use twilight_model::channel::GuildChannel;
use twilight_model::guild::Guild;
use twilight_model::user::{CurrentUser, User};

use crate::cache::{guild_cached, lemma_guild_cached_contents, Cache as EventCache, CacheModel};

verus! {

/// What the cache reads of a guild: its id, the guild itself, its channels
/// and its members' users with their ids.
pub struct GuildData {
    pub id: u64,
    pub guild: Guild,
    pub channels: Vec<GuildChannel>,
    pub members: Vec<(u64, User)>,
}

/// A guild listed in a ready event, available or not.
pub enum GuildStatusData {
    Online(GuildData),
    Offline,
}

/// What the cache reads of a dispatch event.
pub enum CacheUpdate {
    /// A ready event: the bot user and the guilds it is in.
    Ready { me: CurrentUser, guilds: Vec<GuildStatusData> },
    /// A guild-create event.
    GuildCreate(GuildData),
    /// Any other event.
    Other,
}

/// The cache after each available guild of a list is recorded in turn.
pub open spec fn guilds_cached(m: CacheModel, guilds: Seq<GuildStatusData>) -> CacheModel
    decreases guilds.len(),
{
    if guilds.len() == 0 {
        m
    } else {
        let prev = guilds_cached(m, guilds.drop_last());
        match guilds.last() {
            GuildStatusData::Online(g) => guild_cached(prev, g.id, g.guild, g.channels@, g.members@),
            GuildStatusData::Offline => prev,
        }
    }
}

/// The cache after an event: a ready event records the bot user and then
/// each available guild; a guild-create event records its guild; other
/// events leave the cache as it is.
pub open spec fn update_cached(m: CacheModel, u: CacheUpdate) -> CacheModel {
    match u {
        CacheUpdate::Ready { me, guilds } => guilds_cached(CacheModel { me: Some(me), ..m }, guilds@),
        CacheUpdate::GuildCreate(g) => guild_cached(m, g.id, g.guild, g.channels@, g.members@),
        CacheUpdate::Other => m,
    }
}

/// Middleware that records the bot user and guilds from ready and
/// guild-create events into the gateway's cache, then passes the event on.
pub struct Cache {}

impl Cache {
    pub fn new() -> (c: Cache) {
        Cache {}
    }

    /// Records what an event reveals into the cache.
    pub fn record(&self, cache: &mut EventCache, update: CacheUpdate)
        ensures
            final(cache).model() == update_cached(old(cache).model(), update),
    {
        match update {
            CacheUpdate::Ready { me, guilds } => {
                cache.cache_me(me);
                let ghost start = cache.model();
                assert(start == (CacheModel { me: Some(me), ..old(cache).model() }));
                let n = guilds.len();
                let mut guilds = guilds;
                let ghost given = guilds@;
                let mut i: usize = 0;
                while i < n
                    invariant
                        n == given.len(),
                        i <= n,
                        guilds@ == given.subrange(i as int, n as int),
                        cache.model() == guilds_cached(start, given.take(i as int)),
                    decreases n - i,
                {
                    let status = guilds.remove(0);
                    assert(status == given[i as int]);
                    assert(given.take(i + 1).drop_last() =~= given.take(i as int));
                    match status {
                        GuildStatusData::Online(g) => {
                            cache.cache_guild(g.id, g.guild, g.channels, g.members);
                        },
                        GuildStatusData::Offline => {},
                    }
                    i = i + 1;
                }
                assert(given.take(n as int) =~= given);
            },
            CacheUpdate::GuildCreate(g) => {
                cache.cache_guild(g.id, g.guild, g.channels, g.members);
            },
            CacheUpdate::Other => {},
        }
    }
}

/// A guild-create event caches its guild under its id, every member's
/// user under the member's id (the last member with an id wins), and its
/// channels after those already cached for the guild; the bot user and the
/// users whose id no member carries stay as they were.
pub proof fn lemma_guild_create_caches_guild_and_members(m: CacheModel, g: GuildData)
    ensures
        update_cached(m, CacheUpdate::GuildCreate(g)).me == m.me,
        update_cached(m, CacheUpdate::GuildCreate(g)).guilds.contains_key(g.id),
        update_cached(m, CacheUpdate::GuildCreate(g)).guilds[g.id] == g.guild,
        forall|i: int|
            0 <= i < g.members@.len() ==> #[trigger] update_cached(m, CacheUpdate::GuildCreate(g)).users.contains_key(
                g.members@[i].0,
            ),
        forall|i: int|
            0 <= i < g.members@.len() && (forall|k: int| i < k < g.members@.len() ==> g.members@[k].0 != g.members@[i].0)
                ==> #[trigger] update_cached(m, CacheUpdate::GuildCreate(g)).users[g.members@[i].0] == g.members@[i].1,
        forall|id: u64|
            (forall|k: int| 0 <= k < g.members@.len() ==> g.members@[k].0 != id) ==> (#[trigger] update_cached(
                m,
                CacheUpdate::GuildCreate(g),
            ).users.contains_key(id) == m.users.contains_key(id)) && (m.users.contains_key(id) ==> update_cached(
                m,
                CacheUpdate::GuildCreate(g),
            ).users[id] == m.users[id]),
        g.channels@.len() > 0 ==> update_cached(m, CacheUpdate::GuildCreate(g)).channels.contains_key(g.id)
            && update_cached(m, CacheUpdate::GuildCreate(g)).channels[g.id] == (if m.channels.contains_key(g.id) {
            m.channels[g.id]
        } else {
            Seq::<GuildChannel>::empty()
        }) + g.channels@,
{
    lemma_guild_cached_contents(m, g.id, g.guild, g.channels@, g.members@);
}

/// Recording guilds in turn forgets nothing already cached and leaves the
/// bot user alone; afterwards every available guild of the list is cached,
/// and so is the user of each of its members.
pub proof fn lemma_guilds_cached_covers_list(m: CacheModel, guilds: Seq<GuildStatusData>)
    ensures
        guilds_cached(m, guilds).me == m.me,
        forall|k: u64| m.guilds.contains_key(k) ==> #[trigger] guilds_cached(m, guilds).guilds.contains_key(k),
        forall|k: u64| m.users.contains_key(k) ==> #[trigger] guilds_cached(m, guilds).users.contains_key(k),
        forall|j: int|
            0 <= j < guilds.len() && #[trigger] guilds[j] is Online ==> guilds_cached(m, guilds).guilds.contains_key(
                guilds[j]->Online_0.id,
            ),
        forall|j: int, i: int|
            0 <= j < guilds.len() && guilds[j] is Online && 0 <= i < guilds[j]->Online_0.members@.len()
                ==> guilds_cached(m, guilds).users.contains_key(#[trigger] guilds[j]->Online_0.members@[i].0),
    decreases guilds.len(),
{
    if guilds.len() > 0 {
        let rest = guilds.drop_last();
        let n = guilds.len() - 1;
        lemma_guilds_cached_covers_list(m, rest);
        let prev = guilds_cached(m, rest);
        let r = guilds_cached(m, guilds);
        match guilds.last() {
            GuildStatusData::Online(g) => {
                lemma_guild_cached_contents(prev, g.id, g.guild, g.channels@, g.members@);
                assert forall|j: int|
                    0 <= j < guilds.len() && #[trigger] guilds[j] is Online implies r.guilds.contains_key(
                    guilds[j]->Online_0.id,
                ) by {
                    if j < n {
                        assert(rest[j] == guilds[j]);
                        assert(prev.guilds.contains_key(guilds[j]->Online_0.id));
                    }
                }
                assert forall|j: int, i: int|
                    0 <= j < guilds.len() && guilds[j] is Online && 0 <= i < guilds[j]->Online_0.members@.len()
                        implies r.users.contains_key(#[trigger] guilds[j]->Online_0.members@[i].0) by {
                    if j < n {
                        assert(rest[j] == guilds[j]);
                        assert(prev.users.contains_key(rest[j]->Online_0.members@[i].0));
                    } else {
                        assert(guilds[j] == guilds.last());
                        assert(r.users.contains_key(g.members@[i].0));
                    }
                }
            },
            GuildStatusData::Offline => {
                assert forall|j: int|
                    0 <= j < guilds.len() && #[trigger] guilds[j] is Online implies r.guilds.contains_key(
                    guilds[j]->Online_0.id,
                ) by {
                    assert(rest[j] == guilds[j]);
                }
                assert forall|j: int, i: int|
                    0 <= j < guilds.len() && guilds[j] is Online && 0 <= i < guilds[j]->Online_0.members@.len()
                        implies r.users.contains_key(#[trigger] guilds[j]->Online_0.members@[i].0) by {
                    assert(rest[j] == guilds[j]);
                    assert(prev.users.contains_key(rest[j]->Online_0.members@[i].0));
                }
            },
        }
    }
}

/// A ready event records the bot user, forgets nothing already cached, and
/// caches every available guild it lists together with the users of its
/// members.
pub proof fn lemma_ready_caches_me_and_guilds(m: CacheModel, me: CurrentUser, guilds: Vec<GuildStatusData>)
    ensures
        update_cached(m, CacheUpdate::Ready { me, guilds }).me == Some(me),
        forall|k: u64|
            m.guilds.contains_key(k) ==> #[trigger] update_cached(m, CacheUpdate::Ready { me, guilds }).guilds.contains_key(k),
        forall|k: u64|
            m.users.contains_key(k) ==> #[trigger] update_cached(m, CacheUpdate::Ready { me, guilds }).users.contains_key(k),
        forall|j: int|
            0 <= j < guilds@.len() && #[trigger] guilds@[j] is Online ==> update_cached(
                m,
                CacheUpdate::Ready { me, guilds },
            ).guilds.contains_key(guilds@[j]->Online_0.id),
        forall|j: int, i: int|
            0 <= j < guilds@.len() && guilds@[j] is Online && 0 <= i < guilds@[j]->Online_0.members@.len()
                ==> update_cached(m, CacheUpdate::Ready { me, guilds }).users.contains_key(
                #[trigger] guilds@[j]->Online_0.members@[i].0,
            ),
{
    lemma_guilds_cached_covers_list(CacheModel { me: Some(me), ..m }, guilds@);
}

} // verus!
