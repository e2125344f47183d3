use vstd::prelude::*;
use crate::ids::DOGEBOT_MAINTAINER_ID;
use crate::mention::{user_mention, user_mention_text};
use crate::presence::OnlineStatus;
use crate::text::{contains_text, str_contains, str_equal};

verus! {

/// Reply to the rival bot announcing that it went offline.
pub const OFFLINE_REPLY: &'static str = "rip";

/// Reply to the rival bot's `^`.
pub const CARET_REPLY: &'static str = "^";

/// Reply to the rival bot's "its treason then".
pub const TREASON_REPLY: &'static str = "Mace went out of the windu";

/// Reply to the rival bot posting `trollface.jpg`.
pub const TROLLFACE_REPLY: &'static str = "I see no problems here <@612070962913083405>";

/// Reply to the rival bot posting `creeper.jpg`.
pub const CREEPER_REPLY: &'static str = "its fine its fine, it doesnt bother me, it doesnt bother me, IT BOTHERS ME, IT BOTHERS ME A LOT\n||THAT THAT ONES NOT GREEN||";

/// Posted when the rival bot has stayed offline for a while.
pub const OFFLINE_ANNOUNCEMENT: &'static str = "dogebot is offline. Everyone press F to pay respects, and press <:thisisfine:667895278535311381> for another ~~bug~~ feature!";

/// The reply to the first attachment, in order, named `trollface.jpg` or
/// `creeper.jpg`, if any.
pub open spec fn attachment_reply(names: Seq<Seq<char>>) -> Option<Seq<char>>
    decreases names.len(),
{
    if names.len() == 0 {
        None
    } else if names[0] == "trollface.jpg"@ {
        Some(TROLLFACE_REPLY@)
    } else if names[0] == "creeper.jpg"@ {
        Some(CREEPER_REPLY@)
    } else {
        attachment_reply(names.drop_first())
    }
}

/// The reply to a message of the rival bot with text `content` and
/// attachments named `names`: a message that mentions "(offline)" gets "rip";
/// otherwise the exact texts `^` and "its treason then" get their answers;
/// otherwise the first known attachment does; otherwise there is none.
pub open spec fn dogebot_reply_text(content: Seq<char>, names: Seq<Seq<char>>) -> Option<Seq<char>> {
    if contains_text(content, "(offline)"@) {
        Some(OFFLINE_REPLY@)
    } else if content == "^"@ {
        Some(CARET_REPLY@)
    } else if content == "its treason then"@ {
        Some(TREASON_REPLY@)
    } else {
        attachment_reply(names)
    }
}

/// The views of a list of strings.
pub open spec fn views_of(v: Seq<String>) -> Seq<Seq<char>> {
    v.map_values(|s: String| s@)
}

/// The reply to a message of the rival bot, if any.
pub fn dogebot_reply(content: &str, attachment_names: &Vec<String>) -> (r: Option<String>)
    ensures
        r matches Some(s) ==> dogebot_reply_text(content@, views_of(attachment_names@)) == Some(s@),
        r is None ==> dogebot_reply_text(content@, views_of(attachment_names@)) is None,
{
    if str_contains(content, "(offline)") {
        return Some(OFFLINE_REPLY.to_owned());
    }
    if str_equal(content, "^") {
        return Some(CARET_REPLY.to_owned());
    }
    if str_equal(content, "its treason then") {
        return Some(TREASON_REPLY.to_owned());
    }
    let ghost names = views_of(attachment_names@);
    assert(names.subrange(0, names.len() as int) =~= names);
    let mut i: usize = 0;
    while i < attachment_names.len()
        invariant
            i <= attachment_names.len(),
            !contains_text(content@, "(offline)"@),
            content@ != "^"@,
            content@ != "its treason then"@,
            names == views_of(attachment_names@),
            attachment_reply(names) == attachment_reply(names.subrange(i as int, names.len() as int)),
        decreases attachment_names.len() - i,
    {
        let ghost rest = names.subrange(i as int, names.len() as int);
        assert(rest[0] == attachment_names@[i as int]@);
        assert(rest.drop_first() =~= names.subrange(i + 1, names.len() as int));
        let name = attachment_names[i].as_str();
        if str_equal(name, "trollface.jpg") {
            return Some(TROLLFACE_REPLY.to_owned());
        }
        if str_equal(name, "creeper.jpg") {
            return Some(CREEPER_REPLY.to_owned());
        }
        i = i + 1;
    }
    assert(names.subrange(i as int, names.len() as int) =~= Seq::<Seq<char>>::empty());
    None
}

/// Every reply to attachments is the one to `trollface.jpg` or the one to
/// `creeper.jpg`.
pub proof fn lemma_attachment_reply_values(names: Seq<Seq<char>>)
    ensures
        attachment_reply(names) is None || attachment_reply(names) == Some(TROLLFACE_REPLY@)
            || attachment_reply(names) == Some(CREEPER_REPLY@),
        attachment_reply(names) is Some ==> exists|i: int| 0 <= i < names.len() && (names[i] == "trollface.jpg"@ || names[i] == "creeper.jpg"@),
    decreases names.len(),
{
    if names.len() > 0 && names[0] != "trollface.jpg"@ && names[0] != "creeper.jpg"@ {
        lemma_attachment_reply_values(names.drop_first());
        if attachment_reply(names) is Some {
            let i = choose|i: int| 0 <= i < names.drop_first().len() && (names.drop_first()[i] == "trollface.jpg"@ || names.drop_first()[i] == "creeper.jpg"@);
            assert(names[i + 1] == names.drop_first()[i]);
        }
    }
}

/// Which text of the rival bot gets which reply: "rip" exactly when the text
/// mentions "(offline)"; "^" exactly when the whole text is "^"; the treason
/// answer exactly when the whole text is "its treason then" (and neither
/// mentions "(offline)"); and an attachment reply only when some attachment
/// is named `trollface.jpg` or `creeper.jpg` and the text is none of these.
pub proof fn lemma_dogebot_replies(content: Seq<char>, names: Seq<Seq<char>>)
    ensures
        dogebot_reply_text(content, names) == Some("rip"@) <==> contains_text(content, "(offline)"@),
        dogebot_reply_text(content, names) == Some("^"@) <==> !contains_text(content, "(offline)"@) && content == "^"@,
        dogebot_reply_text(content, names) == Some("Mace went out of the windu"@) <==> !contains_text(
            content,
            "(offline)"@,
        ) && content == "its treason then"@,
        dogebot_reply_text(content, names) == Some("I see no problems here <@612070962913083405>"@)
            ==> !contains_text(content, "(offline)"@) && content != "^"@ && content != "its treason then"@
            && exists|i: int| 0 <= i < names.len() && names[i] == "trollface.jpg"@,
        dogebot_reply_text(content, names) is None ==> !contains_text(content, "(offline)"@) && content != "^"@
            && content != "its treason then"@,
{
    reveal_strlit("rip");
    reveal_strlit("^");
    reveal_strlit("Mace went out of the windu");
    reveal_strlit("I see no problems here <@612070962913083405>");
    reveal_strlit("its fine its fine, it doesnt bother me, it doesnt bother me, IT BOTHERS ME, IT BOTHERS ME A LOT\n||THAT THAT ONES NOT GREEN||");
    reveal_strlit("its treason then");
    reveal_strlit("trollface.jpg");
    reveal_strlit("creeper.jpg");
    lemma_attachment_reply_values(names);
    lemma_trollface_reply(names);
    assert(OFFLINE_REPLY@.len() == 3);
    assert(CARET_REPLY@.len() == 1);
    assert(TREASON_REPLY@.len() == 26);
    assert(TROLLFACE_REPLY@.len() == 44);
    assert(CREEPER_REPLY@.len() == 124);
    assert("its treason then"@.len() == 16);
}

proof fn lemma_trollface_reply(names: Seq<Seq<char>>)
    ensures
        attachment_reply(names) == Some(TROLLFACE_REPLY@) ==> exists|i: int| 0 <= i < names.len() && names[i] == "trollface.jpg"@,
    decreases names.len(),
{
    reveal_strlit("I see no problems here <@612070962913083405>");
    reveal_strlit("its fine its fine, it doesnt bother me, it doesnt bother me, IT BOTHERS ME, IT BOTHERS ME A LOT\n||THAT THAT ONES NOT GREEN||");
    assert(TROLLFACE_REPLY@.len() == 44);
    assert(CREEPER_REPLY@.len() == 124);
    if names.len() > 0 && names[0] != "trollface.jpg"@ && names[0] != "creeper.jpg"@ {
        lemma_trollface_reply(names.drop_first());
        if attachment_reply(names) == Some(TROLLFACE_REPLY@) {
            let i = choose|i: int| 0 <= i < names.drop_first().len() && names.drop_first()[i] == "trollface.jpg"@;
            assert(names[i + 1] == names.drop_first()[i]);
        }
    }
}

/// What to do when the rival bot's status changes in its home guild.
#[derive(Clone, Copy, Debug, PartialEq, Eq, Structural)]
pub enum DogebotPresenceAction {
    /// It went offline: watch it, and report to this channel.
    StartWatch(u64),
    /// It went offline, but there is no channel to report to: only warn.
    WarnNoChannel,
    /// It came back: cancel a watch that is running.
    CancelWatch,
    /// Nothing to do.
    Ignore,
}

/// What to do when the rival bot's status becomes `status`, given the update
/// channel of its home guild.
pub open spec fn dogebot_presence_spec(status: OnlineStatus, update_channel: Option<u64>) -> DogebotPresenceAction {
    if status == OnlineStatus::Offline {
        match update_channel {
            Some(c) => DogebotPresenceAction::StartWatch(c),
            None => DogebotPresenceAction::WarnNoChannel,
        }
    } else if status == OnlineStatus::Online {
        DogebotPresenceAction::CancelWatch
    } else {
        DogebotPresenceAction::Ignore
    }
}

/// What to do when the rival bot's status becomes `status`.
pub fn dogebot_presence(status: OnlineStatus, update_channel: Option<u64>) -> (a: DogebotPresenceAction)
    ensures
        a == dogebot_presence_spec(status, update_channel),
{
    if status == OnlineStatus::Offline {
        match update_channel {
            Some(c) => DogebotPresenceAction::StartWatch(c),
            None => DogebotPresenceAction::WarnNoChannel,
        }
    } else if status == OnlineStatus::Online {
        DogebotPresenceAction::CancelWatch
    } else {
        DogebotPresenceAction::Ignore
    }
}

/// Checks after the announcement before the maintainer is pinged.
pub const WATCH_CHECKS: u32 = 58;

/// Where a watch of the offline rival bot stands. The watch wakes up every
/// five seconds and looks whether the bot came back.
#[derive(Clone, Copy, Debug, PartialEq, Eq, Structural)]
pub enum WatchState {
    /// Waiting for the first wake-up.
    Starting,
    /// The offline announcement was posted and this many later checks passed.
    Waiting(u32),
    /// The watch is over.
    Finished,
}

/// What the watch does after a wake-up.
#[derive(Clone, Copy, Debug, PartialEq, Eq, Structural)]
pub enum WatchAction {
    /// Nothing; sleep again.
    Continue,
    /// Post the offline announcement.
    Announce,
    /// The bot came back: clear the cancel flag and stop.
    ClearAndStop,
    /// Clear the cancel flag and ping the maintainer; the watch is over.
    ClearAndPing,
}

/// One wake-up of the watch in state `s`, where `cancelled` says whether the
/// bot came back since the watch started.
pub open spec fn watch_step_spec(s: WatchState, cancelled: bool) -> (WatchState, WatchAction) {
    match s {
        WatchState::Starting => if cancelled {
            (WatchState::Finished, WatchAction::ClearAndStop)
        } else {
            (WatchState::Waiting(0), WatchAction::Announce)
        },
        WatchState::Waiting(k) => if cancelled {
            (WatchState::Finished, WatchAction::ClearAndStop)
        } else if k + 1 < WATCH_CHECKS {
            (WatchState::Waiting((k + 1) as u32), WatchAction::Continue)
        } else {
            (WatchState::Finished, WatchAction::ClearAndPing)
        },
        WatchState::Finished => (WatchState::Finished, WatchAction::Continue),
    }
}

/// One wake-up of the watch.
pub fn watch_step(s: WatchState, cancelled: bool) -> (r: (WatchState, WatchAction))
    requires
        s matches WatchState::Waiting(k) ==> k < WATCH_CHECKS,
    ensures
        r == watch_step_spec(s, cancelled),
        r.0 matches WatchState::Waiting(k) ==> k < WATCH_CHECKS,
{
    match s {
        WatchState::Starting => if cancelled {
            (WatchState::Finished, WatchAction::ClearAndStop)
        } else {
            (WatchState::Waiting(0), WatchAction::Announce)
        },
        WatchState::Waiting(k) => if cancelled {
            (WatchState::Finished, WatchAction::ClearAndStop)
        } else if k + 1 < WATCH_CHECKS {
            (WatchState::Waiting(k + 1), WatchAction::Continue)
        } else {
            (WatchState::Finished, WatchAction::ClearAndPing)
        },
        WatchState::Finished => (WatchState::Finished, WatchAction::Continue),
    }
}

/// The state and the actions of a watch after the wake-ups whose cancel
/// readings are `events`.
pub open spec fn watch_run(events: Seq<bool>) -> (WatchState, Seq<WatchAction>)
    decreases events.len(),
{
    if events.len() == 0 {
        (WatchState::Starting, Seq::empty())
    } else {
        let prev = watch_run(events.drop_last());
        let next = watch_step_spec(prev.0, events.last());
        (next.0, prev.1.push(next.1))
    }
}

/// No cancellation among the first `n` readings.
pub open spec fn uncancelled(events: Seq<bool>, n: int) -> bool {
    forall|i: int| 0 <= i < n ==> !events[i]
}

/// The message that pings the maintainer.
pub open spec fn maintainer_ping_text() -> Seq<char> {
    user_mention_text(DOGEBOT_MAINTAINER_ID)
}

/// The message that pings the maintainer.
pub fn maintainer_ping() -> (s: String)
    ensures
        s@ == maintainer_ping_text(),
{
    user_mention(DOGEBOT_MAINTAINER_ID)
}

proof fn lemma_watch_state(events: Seq<bool>)
    ensures
        watch_run(events).1.len() == events.len(),
        watch_run(events).0 == if events.len() == 0 {
            WatchState::Starting
        } else if !uncancelled(events, if events.len() < 59 { events.len() as int } else { 59 }) {
            WatchState::Finished
        } else if events.len() < 59 {
            WatchState::Waiting((events.len() - 1) as u32)
        } else {
            WatchState::Finished
        },
    decreases events.len(),
{
    if events.len() > 0 {
        let e = events.drop_last();
        lemma_watch_state(e);
        assert forall|i: int| 0 <= i < e.len() implies e[i] == events[i] by {}
    }
}

/// The watch of the offline rival bot: it ends after at most 59 wake-ups;
/// without a cancellation it posts the announcement at the first wake-up and
/// pings the maintainer at the 59th; a cancellation ends it at once with the
/// flag cleared; and the maintainer is never pinged after a cancellation.
pub proof fn lemma_watch_timeline(events: Seq<bool>)
    ensures
        events.len() >= 59 ==> watch_run(events).0 == WatchState::Finished,
        uncancelled(events, events.len() as int) && 0 < events.len() < 59 ==> watch_run(
            events,
        ).0 == WatchState::Waiting((events.len() - 1) as u32),
        uncancelled(events, events.len() as int) && events.len() >= 1 ==> watch_run(events).1[0]
            == WatchAction::Announce,
        uncancelled(events, 59) && events.len() >= 59 ==> watch_run(events).1[58]
            == WatchAction::ClearAndPing,
        forall|j: int|
            0 <= j < events.len() && #[trigger] watch_run(events).1[j] == WatchAction::ClearAndPing
                ==> j == 58 && uncancelled(events, 59),
        forall|j: int|
            0 <= j < events.len() && events[j] && uncancelled(events, j) && j < 59 ==> #[trigger] watch_run(
                events,
            ).1[j] == WatchAction::ClearAndStop,
{
    lemma_watch_state(events);
    assert forall|j: int| 0 <= j < events.len() implies #[trigger] watch_run(events).1[j] == watch_step_spec(
        watch_run(events.take(j)).0,
        events[j],
    ).1 && (watch_run(events).1[j] == WatchAction::ClearAndPing ==> j == 58 && uncancelled(events, 59))
        && (events[j] && uncancelled(events, j) && j < 59 ==> watch_run(events).1[j] == WatchAction::ClearAndStop)
    by {
        lemma_watch_prefix(events, j);
        let p = events.take(j);
        lemma_watch_state(p);
        assert forall|i: int| 0 <= i < p.len() implies p[i] == events[i] by {}
    }
    if events.len() >= 1 {
        lemma_watch_prefix(events, 0);
        assert(events.take(0) =~= Seq::<bool>::empty());
    }
    if events.len() >= 59 {
        lemma_watch_prefix(events, 58);
        let p = events.take(58);
        lemma_watch_state(p);
        assert forall|i: int| 0 <= i < p.len() implies p[i] == events[i] by {}
    }
}

/// The action at wake-up `j` is the step from the state after the first `j`.
proof fn lemma_watch_prefix(events: Seq<bool>, j: int)
    requires
        0 <= j < events.len(),
    ensures
        watch_run(events).1[j] == watch_step_spec(watch_run(events.take(j)).0, events[j]).1,
    decreases events.len(),
{
    lemma_watch_state(events);
    let e = events.drop_last();
    if j == events.len() - 1 {
        assert(e =~= events.take(j));
    } else {
        lemma_watch_state(e);
        lemma_watch_prefix(e, j);
        assert(e.take(j) =~= events.take(j));
    }
}

} // verus!
