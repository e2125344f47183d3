use vstd::prelude::*;
use std::time::Instant;
use crate::clock::{instant_now, nanos_since};
use crate::ids::OWNER_ID;
use crate::mention::{channel_mention, channel_mention_text, push_user_mention, user_mention_text};
use crate::permissions::{from_stored_integer, unstored_integer};
use crate::text::{decimal, push_decimal, push_str};

verus! {

/// How long a user may stay in the pending list before the expiry pass drops
/// it: twenty seconds, in nanoseconds.
pub const CANARY_WINDOW_NANOS: u128 = 20_000_000_000;

/// A user who went offline and may come back after a client update, with the
/// instant at which that was seen.
pub struct CanaryUpdate {
    user_id: u64,
    time: Instant,
}

impl CanaryUpdate {
    /// The user this entry is about.
    pub closed spec fn id(self) -> u64 {
        self.user_id
    }

    /// The instant at which the user was seen going offline.
    pub closed spec fn seen(self) -> Instant {
        self.time
    }

    /// The user this entry is about.
    pub fn user_id(&self) -> (r: u64)
        ensures
            r == self.id(),
    {
        self.user_id
    }
}

/// The list of users who went offline recently and may be updating their
/// client. The list holds each user at most once, in the order they were added.
pub struct CanaryUpdateHandler {
    possible_canary_updates: Vec<CanaryUpdate>,
}

/// The users of a list of entries, in order.
pub open spec fn ids_of(s: Seq<CanaryUpdate>) -> Seq<u64> {
    s.map_values(|u: CanaryUpdate| u.id())
}

/// The entries of a list, each as its user and the instant it was seen, in order.
pub open spec fn stamps_of(s: Seq<CanaryUpdate>) -> Seq<(u64, Instant)> {
    s.map_values(|u: CanaryUpdate| (u.id(), u.seen()))
}

impl View for CanaryUpdateHandler {
    type V = Seq<u64>;

    closed spec fn view(&self) -> Seq<u64> {
        ids_of(self.possible_canary_updates@)
    }
}

/// The list after `u` went offline: `u` is appended unless it is already there.
pub open spec fn added(s: Seq<u64>, u: u64) -> Seq<u64> {
    if s.contains(u) {
        s
    } else {
        s.push(u)
    }
}

/// The list after `u` came back online: its entry, if any, is taken out.
pub open spec fn removed(s: Seq<u64>, u: u64) -> Seq<u64> {
    if s.contains(u) {
        s.remove(s.index_of(u))
    } else {
        s
    }
}

/// The positions whose flag is set, among the first `n`, in increasing order.
pub open spec fn flagged_upto(flags: Seq<bool>, n: int) -> Seq<usize>
    decreases n,
{
    if n <= 0 {
        Seq::empty()
    } else if flags[n - 1] {
        flagged_upto(flags, n - 1).push((n - 1) as usize)
    } else {
        flagged_upto(flags, n - 1)
    }
}

/// The positions whose flag is set, in increasing order.
pub open spec fn flagged_indices(flags: Seq<bool>) -> Seq<usize> {
    flagged_upto(flags, flags.len() as int)
}

/// `s` after removing, one after the other, the element at each position of
/// `drops`; each position is read in the list as it stands after the removals
/// before it.
pub open spec fn remove_in_turn<T>(s: Seq<T>, drops: Seq<usize>) -> Seq<T>
    decreases drops.len(),
{
    if drops.len() == 0 {
        s
    } else {
        remove_in_turn(s, drops.drop_last()).remove(drops.last() as int)
    }
}

/// Each removal of `drops`, applied in turn to a list of `len` elements,
/// names a position that the list still has.
pub open spec fn removals_fit(len: nat, drops: Seq<usize>) -> bool {
    forall|k: int| 0 <= k < drops.len() ==> #[trigger] drops[k] + k < len
}

/// The elements of `s` whose flag is clear.
pub open spec fn unflagged(s: Seq<u64>, flags: Seq<bool>) -> Seq<u64>
    decreases s.len(),
{
    if s.len() == 0 {
        s
    } else if flags[s.len() - 1] {
        unflagged(s.drop_last(), flags)
    } else {
        unflagged(s.drop_last(), flags).push(s.last())
    }
}

impl CanaryUpdateHandler {
    /// The entries, each as its user and the instant it was seen, in order.
    pub closed spec fn stamped(&self) -> Seq<(u64, Instant)> {
        stamps_of(self.possible_canary_updates@)
    }

    /// The list holds each user at most once.
    pub open spec fn wf(&self) -> bool {
        self@.no_duplicates()
    }

    /// An empty list.
    pub fn new() -> (h: Self)
        ensures
            h.wf(),
            h@ == Seq::<u64>::empty(),
            h.stamped() == Seq::<(u64, Instant)>::empty(),
    {
        let h = CanaryUpdateHandler { possible_canary_updates: Vec::new() };
        assert(h@ =~= Seq::<u64>::empty());
        assert(h.stamped() =~= Seq::<(u64, Instant)>::empty());
        h
    }

    /// Number of users in the list.
    pub fn len(&self) -> (n: usize)
        ensures
            n == self@.len(),
    {
        self.possible_canary_updates.len()
    }

    /// Whether `user_id` is in the list.
    pub fn contains(&self, user_id: u64) -> (b: bool)
        ensures
            b == self@.contains(user_id),
    {
        let mut i: usize = 0;
        while i < self.possible_canary_updates.len()
            invariant
                i <= self.possible_canary_updates.len(),
                forall|j: int| 0 <= j < i ==> self@[j] != user_id,
            decreases self.possible_canary_updates.len() - i,
        {
            if self.possible_canary_updates[i].user_id == user_id {
                assert(self@[i as int] == user_id);
                return true;
            }
            i = i + 1;
        }
        false
    }

    /// Puts `user_id` at the end of the list, seen at `time`, unless it is
    /// already in the list, in which case nothing changes.
    pub fn add_canary_update_at(&mut self, user_id: u64, time: Instant)
        requires
            old(self).wf(),
        ensures
            final(self).wf(),
            final(self)@ == added(old(self)@, user_id),
            final(self).stamped() == if old(self)@.contains(user_id) {
                old(self).stamped()
            } else {
                old(self).stamped().push((user_id, time))
            },
    {
        if self.contains(user_id) {
            return;
        }
        let ghost before = self.possible_canary_updates@;
        self.possible_canary_updates.push(CanaryUpdate { user_id, time });
        assert(ids_of(self.possible_canary_updates@) =~= ids_of(before).push(user_id));
        assert(stamps_of(self.possible_canary_updates@) =~= stamps_of(before).push((user_id, time)));
    }

    /// Puts `user_id` at the end of the list, seen now, unless it is already in
    /// the list, in which case nothing changes.
    pub fn add_canary_update(&mut self, user_id: u64)
        requires
            old(self).wf(),
        ensures
            final(self).wf(),
            final(self)@ == added(old(self)@, user_id),
            old(self)@.contains(user_id) ==> final(self).stamped() == old(self).stamped(),
            !old(self)@.contains(user_id) ==> exists|now: Instant|
                final(self).stamped() == old(self).stamped().push((user_id, now)),
    {
        let now = instant_now();
        self.add_canary_update_at(user_id, now);
    }

    /// Takes `user_id` out of the list. Returns whether it was there.
    pub fn remove_canary_update(&mut self, user_id: u64) -> (was_there: bool)
        requires
            old(self).wf(),
        ensures
            final(self).wf(),
            was_there == old(self)@.contains(user_id),
            final(self)@ == removed(old(self)@, user_id),
            final(self).stamped() == if old(self)@.contains(user_id) {
                old(self).stamped().remove(old(self)@.index_of(user_id))
            } else {
                old(self).stamped()
            },
    {
        let ghost before = self@;
        let ghost before_stamps = self.stamped();
        let mut i: usize = 0;
        while i < self.possible_canary_updates.len()
            invariant
                self@ == before,
                before == old(self)@,
                self.stamped() == before_stamps,
                before_stamps == old(self).stamped(),
                before.no_duplicates(),
                i <= self.possible_canary_updates.len(),
                forall|j: int| 0 <= j < i ==> before[j] != user_id,
            decreases self.possible_canary_updates.len() - i,
        {
            if self.possible_canary_updates[i].user_id == user_id {
                let ghost old_entries = self.possible_canary_updates@;
                assert(before[i as int] == user_id);
                assert(before.contains(user_id));
                assert(before.index_of(user_id) == i);
                self.possible_canary_updates.remove(i);
                assert(ids_of(self.possible_canary_updates@) =~= before.remove(i as int));
                assert(stamps_of(self.possible_canary_updates@) =~= before_stamps.remove(i as int));
                proof {
                    lemma_remove_keeps_no_duplicates(before, i as int);
                }
                return true;
            }
            i = i + 1;
        }
        assert(!before.contains(user_id));
        false
    }
}

/// Whether an entry seen `elapsed_nanos` nanoseconds ago has expired: more
/// than twenty seconds have passed.
pub fn is_expired(elapsed_nanos: u128) -> (b: bool)
    ensures
        b == (elapsed_nanos > CANARY_WINDOW_NANOS),
{
    elapsed_nanos > CANARY_WINDOW_NANOS
}

/// The positions whose flag is set, in increasing order: the removals that
/// the expiry pass performs, one after the other.
pub fn removal_plan(flags: &Vec<bool>) -> (drops: Vec<usize>)
    ensures
        drops@ == flagged_indices(flags@),
{
    let mut drops: Vec<usize> = Vec::new();
    let mut i: usize = 0;
    while i < flags.len()
        invariant
            i <= flags.len(),
            drops@ == flagged_upto(flags@, i as int),
        decreases flags.len() - i,
    {
        if flags[i] {
            drops.push(i);
        }
        i = i + 1;
    }
    drops
}

/// Whether each removal of `drops`, applied in turn to a list of `len`
/// elements, names a position that the list still has.
pub fn removals_fit_exec(len: usize, drops: &Vec<usize>) -> (b: bool)
    ensures
        b == removals_fit(len as nat, drops@),
{
    let mut k: usize = 0;
    while k < drops.len()
        invariant
            k <= drops.len(),
            forall|j: int| 0 <= j < k ==> #[trigger] drops@[j] + j < len,
        decreases drops.len() - k,
    {
        if k >= len || drops[k] >= len - k {
            assert(!(drops@[k as int] + k < len));
            return false;
        }
        k = k + 1;
    }
    true
}

impl CanaryUpdateHandler {
    /// Removes, one after the other, the entry at each flagged position, each
    /// position read in the list as it stands after the removals before it.
    pub fn prune_flagged(&mut self, expired: &Vec<bool>)
        requires
            old(self).wf(),
            expired.len() == old(self)@.len(),
            removals_fit(old(self)@.len(), flagged_indices(expired@)),
        ensures
            final(self).wf(),
            final(self)@ == remove_in_turn(old(self)@, flagged_indices(expired@)),
            final(self).stamped() == remove_in_turn(old(self).stamped(), flagged_indices(expired@)),
    {
        let drops = removal_plan(expired);
        let ghost before = self@;
        let ghost before_stamps = self.stamped();
        let mut k: usize = 0;
        while k < drops.len()
            invariant
                k <= drops.len(),
                before == old(self)@,
                drops@ == flagged_indices(expired@),
                removals_fit(before.len(), drops@),
                self@.len() + k == before.len(),
                self@ == remove_in_turn(before, drops@.take(k as int)),
                before_stamps == old(self).stamped(),
                self.stamped().len() == self@.len(),
                self.stamped() == remove_in_turn(before_stamps, drops@.take(k as int)),
                self@.no_duplicates(),
            decreases drops.len() - k,
        {
            let d = drops[k];
            assert(drops@[k as int] + k < before.len());
            let ghost mid = self@;
            let ghost mid_stamps = self.stamped();
            self.possible_canary_updates.remove(d);
            assert(self@ =~= mid.remove(d as int));
            assert(self.stamped() =~= mid_stamps.remove(d as int));
            assert(drops@.take(k + 1).drop_last() =~= drops@.take(k as int));
            proof {
                lemma_remove_keeps_no_duplicates(mid, d as int);
            }
            k = k + 1;
        }
        assert(drops@.take(drops.len() as int) =~= drops@);
    }

    /// The age of each entry in nanoseconds, by the clock as it reads during the
    /// call, and whether it has expired: more than twenty seconds old.
    pub fn expiry_flags(&self) -> (r: (Vec<u128>, Vec<bool>))
        ensures
            r.0.len() == self@.len(),
            r.1.len() == self@.len(),
            forall|i: int| 0 <= i < r.1.len() ==> #[trigger] r.1@[i] == (r.0@[i] > 20_000_000_000),
    {
        let mut ages: Vec<u128> = Vec::new();
        let mut flags: Vec<bool> = Vec::new();
        let mut i: usize = 0;
        while i < self.possible_canary_updates.len()
            invariant
                i <= self.possible_canary_updates.len(),
                ages.len() == i,
                flags.len() == i,
                forall|j: int| 0 <= j < i ==> #[trigger] flags@[j] == (ages@[j] > 20_000_000_000),
            decreases self.possible_canary_updates.len() - i,
        {
            let elapsed = nanos_since(&self.possible_canary_updates[i].time);
            ages.push(elapsed);
            flags.push(is_expired(elapsed));
            i = i + 1;
        }
        (ages, flags)
    }

    /// One expiry pass: reads the clock for each entry and removes the expired
    /// ones as `prune_flagged` does. Where those removals would name a position
    /// that the list no longer has, nothing is removed and the result is `false`.
    pub fn prune_expired(&mut self) -> (pruned: bool)
        requires
            old(self).wf(),
        ensures
            final(self).wf(),
            exists|ages: Seq<u128>, flags: Seq<bool>|
                #![trigger flagged_indices(flags), ages.len()]
                {
                    &&& ages.len() == old(self)@.len()
                    &&& flags.len() == old(self)@.len()
                    &&& forall|i: int| 0 <= i < flags.len() ==> #[trigger] flags[i] == (ages[i] > 20_000_000_000)
                    &&& pruned == removals_fit(old(self)@.len(), flagged_indices(flags))
                    &&& final(self)@ == if pruned {
                        remove_in_turn(old(self)@, flagged_indices(flags))
                    } else {
                        old(self)@
                    }
                    &&& final(self).stamped() == if pruned {
                        remove_in_turn(old(self).stamped(), flagged_indices(flags))
                    } else {
                        old(self).stamped()
                    }
                },
    {
        let (ages, flags) = self.expiry_flags();
        let drops = removal_plan(&flags);
        if removals_fit_exec(self.possible_canary_updates.len(), &drops) {
            self.prune_flagged(&flags);
            true
        } else {
            false
        }
    }
}

/// The users of the list are the users of its entries, in order.
pub proof fn lemma_users_of_stamps(h: &CanaryUpdateHandler)
    ensures
        h@ == h.stamped().map_values(|p: (u64, Instant)| p.0),
{
    assert(h@ =~= h.stamped().map_values(|p: (u64, Instant)| p.0));
}

/// Removing one element keeps a list free of duplicates.
pub proof fn lemma_remove_keeps_no_duplicates<T>(s: Seq<T>, i: int)
    requires
        s.no_duplicates(),
        0 <= i < s.len(),
    ensures
        s.remove(i).no_duplicates(),
{
    let r = s.remove(i);
    assert forall|a: int, b: int| 0 <= a < r.len() && 0 <= b < r.len() && a != b implies r[a]
        != r[b] by {
        let x = if a < i { a } else { a + 1 };
        let y = if b < i { b } else { b + 1 };
        assert(r[a] == s[x]);
        assert(r[b] == s[y]);
    }
}

/// Statement that makes `channel_id` the update channel of guild `guild_id`.
pub open spec fn set_update_channel_sql(guild_id: u64, channel_id: u64) -> Seq<char> {
    "REPLACE INTO canary VALUES ("@ + decimal(guild_id as nat) + ", "@ + decimal(channel_id as nat)
        + ")"@
}

/// Statement that reads the update channel of guild `guild_id`.
pub open spec fn get_update_channel_sql(guild_id: u64) -> Seq<char> {
    "SELECT channel_id FROM canary WHERE guild_id = "@ + decimal(guild_id as nat)
}

/// Statement that forgets the update channel of guild `guild_id`.
pub open spec fn unset_update_channel_sql(guild_id: u64) -> Seq<char> {
    "DELETE FROM canary WHERE guild_id = "@ + decimal(guild_id as nat)
}

/// Statement that makes `channel_id` the update channel of guild `guild_id`.
pub fn set_update_channel_statement(guild_id: u64, channel_id: u64) -> (sql: String)
    ensures
        sql@ == set_update_channel_sql(guild_id, channel_id),
{
    let mut s = String::new();
    push_str(&mut s, "REPLACE INTO canary VALUES (");
    push_decimal(&mut s, guild_id);
    push_str(&mut s, ", ");
    push_decimal(&mut s, channel_id);
    push_str(&mut s, ")");
    assert(s@ =~= set_update_channel_sql(guild_id, channel_id));
    s
}

/// Statement that reads the update channel of guild `guild_id`.
pub fn get_update_channel_statement(guild_id: u64) -> (sql: String)
    ensures
        sql@ == get_update_channel_sql(guild_id),
{
    let mut s = String::new();
    push_str(&mut s, "SELECT channel_id FROM canary WHERE guild_id = ");
    push_decimal(&mut s, guild_id);
    assert(s@ =~= get_update_channel_sql(guild_id));
    s
}

/// Statement that forgets the update channel of guild `guild_id`.
pub fn unset_update_channel_statement(guild_id: u64) -> (sql: String)
    ensures
        sql@ == unset_update_channel_sql(guild_id),
{
    let mut s = String::new();
    push_str(&mut s, "DELETE FROM canary WHERE guild_id = ");
    push_decimal(&mut s, guild_id);
    assert(s@ =~= unset_update_channel_sql(guild_id));
    s
}

/// The channel that a stored `channel_id` column holds.
pub fn update_channel_from_column(value: i64) -> (channel_id: u64)
    ensures
        channel_id == unstored_integer(value),
{
    from_stored_integer(value)
}

/// The message sent when `user_id` comes back online while in the list: the
/// owner's returns are reported as crashes, everyone else's as updates.
pub open spec fn canary_notice_text(user_id: u64) -> Seq<char> {
    if user_id == OWNER_ID {
        "Possible segmentation fault detected for "@ + user_mention_text(user_id)
    } else {
        "Possible canary update detected for "@ + user_mention_text(user_id)
    }
}

/// The message sent when `user_id` comes back online while in the list.
pub fn canary_notice(user_id: u64) -> (text: String)
    ensures
        text@ == canary_notice_text(user_id),
{
    let mut s = String::new();
    if user_id == OWNER_ID {
        push_str(&mut s, "Possible segmentation fault detected for ");
    } else {
        push_str(&mut s, "Possible canary update detected for ");
    }
    push_user_mention(&mut s, user_id);
    assert(s@ =~= canary_notice_text(user_id));
    s
}

/// Whether `u` is among `members`.
pub fn is_member(members: &Vec<u64>, u: u64) -> (b: bool)
    ensures
        b == members@.contains(u),
{
    let mut i: usize = 0;
    while i < members.len()
        invariant
            i <= members.len(),
            forall|j: int| 0 <= j < i ==> members@[j] != u,
        decreases members.len() - i,
    {
        if members[i] == u {
            assert(members@[i as int] == u);
            return true;
        }
        i = i + 1;
    }
    false
}

/// Where and what to post about `user_id` coming back online, given the
/// guild's members and its update channel: nothing unless the user is a
/// member and the guild has an update channel.
pub fn update_notice(user_id: u64, members: &Vec<u64>, update_channel: Option<u64>) -> (notice:
    Option<(u64, String)>)
    ensures
        notice is Some <==> members@.contains(user_id) && update_channel is Some,
        notice matches Some(n) ==> n.0 == update_channel.unwrap() && n.1@ == canary_notice_text(
            user_id,
        ),
{
    if !is_member(members, user_id) {
        return None;
    }
    match update_channel {
        Some(c) => Some((c, canary_notice(user_id))),
        None => None,
    }
}

/// The notices for `user_id` coming back online, given for each of the first
/// `n` guilds its members and its update channel: one for each guild that has
/// the user as a member and an update channel, in order, posted to that channel.
pub open spec fn notices_upto(user_id: u64, guilds: Seq<(Vec<u64>, Option<u64>)>, n: int) -> Seq<(u64, Seq<char>)>
    decreases n,
{
    if n <= 0 {
        Seq::empty()
    } else {
        let prev = notices_upto(user_id, guilds, n - 1);
        let g = guilds[n - 1];
        if g.0@.contains(user_id) && g.1 is Some {
            prev.push((g.1.unwrap(), canary_notice_text(user_id)))
        } else {
            prev
        }
    }
}

/// A notice as its channel and the view of its text.
pub open spec fn notice_view(p: (u64, String)) -> (u64, Seq<char>) {
    (p.0, p.1@)
}

/// The notices for `user_id` coming back online, one for each guild, given as
/// its members and its update channel, that has the user as a member and an
/// update channel, in order.
pub fn update_notices(user_id: u64, guilds: &Vec<(Vec<u64>, Option<u64>)>) -> (notices: Vec<(u64, String)>)
    ensures
        notices@.map_values(|p: (u64, String)| notice_view(p)) == notices_upto(user_id, guilds@, guilds@.len() as int),
{
    let mut notices: Vec<(u64, String)> = Vec::new();
    let mut i: usize = 0;
    while i < guilds.len()
        invariant
            i <= guilds.len(),
            notices@.map_values(|p: (u64, String)| notice_view(p)) == notices_upto(user_id, guilds@, i as int),
        decreases guilds.len() - i,
    {
        let ghost before = notices@;
        match update_notice(user_id, &guilds[i].0, guilds[i].1) {
            Some(n) => {
                notices.push(n);
                assert(notices@.map_values(|p: (u64, String)| notice_view(p)) =~= before.map_values(
                    |p: (u64, String)| notice_view(p),
                ).push((guilds@[i as int].1.unwrap(), canary_notice_text(user_id))));
            },
            None => {},
        }
        i = i + 1;
    }
    notices
}

/// Reply of the channel commands outside a guild.
pub const NOT_IN_GUILD_REPLY: &'static str = "Well how tf did this happen";

/// Reply when the database refused a channel command.
pub const DATABASE_ERROR_REPLY: &'static str = "Sql bad";

/// Reply when the update channel was set.
pub const CHANNEL_SET_REPLY: &'static str = "Successfully set this channel to the canary update notification channel";

/// Reply when the update channel was unset.
pub const CHANNEL_UNSET_REPLY: &'static str = "Unset canary update channel";

/// Reply of the get command when the guild has no update channel.
pub const NO_CHANNEL_REPLY: &'static str = "None";

/// Reply of the set command: outside a guild a complaint, otherwise whether
/// the database took the change.
pub fn set_channel_reply(in_guild: bool, stored: bool) -> (s: &'static str)
    ensures
        s == if !in_guild {
            NOT_IN_GUILD_REPLY
        } else if stored {
            CHANNEL_SET_REPLY
        } else {
            DATABASE_ERROR_REPLY
        },
{
    if !in_guild {
        NOT_IN_GUILD_REPLY
    } else if stored {
        CHANNEL_SET_REPLY
    } else {
        DATABASE_ERROR_REPLY
    }
}

/// Reply of the unset command: outside a guild a complaint, otherwise whether
/// the database took the change.
pub fn unset_channel_reply(in_guild: bool, stored: bool) -> (s: &'static str)
    ensures
        s == if !in_guild {
            NOT_IN_GUILD_REPLY
        } else if stored {
            CHANNEL_UNSET_REPLY
        } else {
            DATABASE_ERROR_REPLY
        },
{
    if !in_guild {
        NOT_IN_GUILD_REPLY
    } else if stored {
        CHANNEL_UNSET_REPLY
    } else {
        DATABASE_ERROR_REPLY
    }
}

/// Reply of the get command: outside a guild a complaint, otherwise a mention
/// of the guild's update channel or "None".
pub fn get_channel_reply(in_guild: bool, channel_id: Option<u64>) -> (s: String)
    ensures
        s@ == if !in_guild {
            NOT_IN_GUILD_REPLY@
        } else {
            match channel_id {
                Some(c) => channel_mention_text(c),
                None => NO_CHANNEL_REPLY@,
            }
        },
{
    if !in_guild {
        return NOT_IN_GUILD_REPLY.to_owned();
    }
    match channel_id {
        Some(c) => channel_mention(c),
        None => NO_CHANNEL_REPLY.to_owned(),
    }
}

/// A user who goes offline is in the list afterwards.
pub proof fn lemma_added_contains(s: Seq<u64>, u: u64)
    ensures
        added(s, u).contains(u),
{
    if !s.contains(u) {
        assert(s.push(u)[s.len() as int] == u);
    }
}

/// Going offline twice leaves the list as going offline once does.
pub proof fn lemma_add_idempotent(s: Seq<u64>, u: u64)
    ensures
        added(added(s, u), u) == added(s, u),
{
    lemma_added_contains(s, u);
}

/// Adding a user keeps the list free of duplicates.
pub proof fn lemma_added_keeps_no_duplicates(s: Seq<u64>, u: u64)
    requires
        s.no_duplicates(),
    ensures
        added(s, u).no_duplicates(),
{
    if !s.contains(u) {
        let t = s.push(u);
        assert forall|a: int, b: int| 0 <= a < t.len() && 0 <= b < t.len() && a != b implies t[a]
            != t[b] by {
            if a == s.len() {
                assert(t[b] == s[b]);
            } else if b == s.len() {
                assert(t[a] == s[a]);
            }
        }
    }
}

/// Coming back online right after going offline gives back the list as it
/// was, when the user was not in it before.
pub proof fn lemma_remove_undoes_add(s: Seq<u64>, u: u64)
    requires
        s.no_duplicates(),
        !s.contains(u),
    ensures
        removed(added(s, u), u) == s,
{
    let t = s.push(u);
    assert(t[s.len() as int] == u);
    let i = t.index_of(u);
    assert(0 <= i < t.len() && t[i] == u);
    if i < s.len() {
        assert(s[i] == u);
    }
    assert(t.remove(i) =~= s);
}

/// Coming back online takes the user out of the list and leaves every other
/// user as it was.
pub proof fn lemma_removed_excludes(s: Seq<u64>, u: u64)
    requires
        s.no_duplicates(),
    ensures
        !removed(s, u).contains(u),
        forall|v: u64| v != u ==> (removed(s, u).contains(v) <==> s.contains(v)),
        removed(s, u).no_duplicates(),
{
    if s.contains(u) {
        let i = s.index_of(u);
        let r = s.remove(i);
        lemma_remove_keeps_no_duplicates(s, i);
        assert forall|j: int| 0 <= j < r.len() implies r[j] != u by {
            let x = if j < i { j } else { j + 1 };
            assert(r[j] == s[x]);
        }
        assert forall|v: u64| v != u implies (r.contains(v) <==> s.contains(v)) by {
            if s.contains(v) {
                let k = choose|k: int| 0 <= k < s.len() && s[k] == v;
                let y = if k < i { k } else { k - 1 };
                assert(r[y] == v);
            }
            if r.contains(v) {
                let k = choose|k: int| 0 <= k < r.len() && r[k] == v;
                let x = if k < i { k } else { k + 1 };
                assert(s[x] == v);
            }
        }
    }
}

proof fn lemma_flagged_upto(flags: Seq<bool>, n: int)
    requires
        0 <= n <= flags.len(),
        n <= usize::MAX,
    ensures
        forall|k: int| 0 <= k < flagged_upto(flags, n).len() ==> {
            let p = #[trigger] flagged_upto(flags, n)[k];
            &&& p < n
            &&& flags[p as int]
        },
        forall|a: int, b: int|
            0 <= a < b < flagged_upto(flags, n).len() ==> #[trigger] flagged_upto(flags, n)[a]
                < #[trigger] flagged_upto(flags, n)[b],
        forall|i: int| 0 <= i < n && flags[i] ==> #[trigger] flagged_upto(flags, n).contains(i as usize),
    decreases n,
{
    if n > 0 {
        lemma_flagged_upto(flags, n - 1);
        let p = flagged_upto(flags, n - 1);
        if flags[n - 1] {
            let q = p.push((n - 1) as usize);
            assert(q[p.len() as int] == (n - 1) as usize);
            assert forall|i: int| 0 <= i < n && flags[i] implies q.contains(i as usize) by {
                if i < n - 1 {
                    assert(p.contains(i as usize));
                    let k = choose|k: int| 0 <= k < p.len() && p[k] == i as usize;
                    assert(q[k] == i as usize);
                }
            }
        }
    }
}

/// The expiry pass plans its removals at exactly the flagged positions, in
/// increasing order.
pub proof fn lemma_flagged_indices(flags: Seq<bool>)
    requires
        flags.len() <= usize::MAX,
    ensures
        forall|k: int| 0 <= k < flagged_indices(flags).len() ==> {
            let p = #[trigger] flagged_indices(flags)[k];
            &&& p < flags.len()
            &&& flags[p as int]
        },
        forall|a: int, b: int|
            0 <= a < b < flagged_indices(flags).len() ==> #[trigger] flagged_indices(flags)[a]
                < #[trigger] flagged_indices(flags)[b],
        forall|i: int|
            0 <= i < flags.len() ==> (flags[i] <==> #[trigger] flagged_indices(flags).contains(
                i as usize,
            )),
{
    lemma_flagged_upto(flags, flags.len() as int);
    let d = flagged_indices(flags);
    assert forall|i: int| 0 <= i < flags.len() && #[trigger] d.contains(i as usize) implies flags[i] by {
        let k = choose|k: int| 0 <= k < d.len() && d[k] == i as usize;
        assert(d[k] < flags.len());
    }
}

proof fn lemma_unflagged_none(s: Seq<u64>, flags: Seq<bool>)
    requires
        s.len() <= flags.len(),
        forall|j: int| 0 <= j < s.len() ==> !flags[j],
    ensures
        unflagged(s, flags) == s,
    decreases s.len(),
{
    if s.len() > 0 {
        lemma_unflagged_none(s.drop_last(), flags);
        assert(s.drop_last().push(s.last()) =~= s);
    }
}

proof fn lemma_unflagged_one(s: Seq<u64>, flags: Seq<bool>, i: int)
    requires
        s.len() <= flags.len(),
        0 <= i < s.len(),
        flags[i],
        forall|j: int| 0 <= j < s.len() && j != i ==> !flags[j],
    ensures
        unflagged(s, flags) == s.remove(i),
    decreases s.len(),
{
    if i == s.len() - 1 {
        lemma_unflagged_none(s.drop_last(), flags);
        assert(s.drop_last() =~= s.remove(i));
    } else {
        lemma_unflagged_one(s.drop_last(), flags, i);
        assert(s.drop_last().remove(i).push(s.last()) =~= s.remove(i));
    }
}

/// When at most one entry has expired, the expiry pass can perform its removal
/// and keeps exactly the entries that have not expired.
pub proof fn lemma_single_expiry_prune(s: Seq<u64>, flags: Seq<bool>)
    requires
        flags.len() == s.len(),
        s.len() <= usize::MAX,
        flagged_indices(flags).len() <= 1,
    ensures
        removals_fit(s.len(), flagged_indices(flags)),
        remove_in_turn(s, flagged_indices(flags)) == unflagged(s, flags),
{
    lemma_flagged_indices(flags);
    let d = flagged_indices(flags);
    if d.len() == 0 {
        assert forall|j: int| 0 <= j < s.len() implies !flags[j] by {
            if flags[j] {
                assert(d.contains(j as usize));
            }
        }
        lemma_unflagged_none(s, flags);
        assert(remove_in_turn(s, d) == s);
    } else {
        let i = d[0] as int;
        assert forall|j: int| 0 <= j < s.len() && j != i implies !flags[j] by {
            if flags[j] {
                assert(d.contains(j as usize));
            }
        }
        lemma_unflagged_one(s, flags, i);
        assert(d.drop_last() =~= Seq::<usize>::empty());
        assert(remove_in_turn(s, d.drop_last()) == s);
        assert(d.last() == d[0]);
        assert(remove_in_turn(s, d) == s.remove(i));
    }
}

} // verus!
