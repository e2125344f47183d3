use vstd::prelude::*;
use crate::clock::utc_now_micros;
use crate::mention::{push_user_mention, user_mention_text};
use crate::pattern::{regex_accepts, regex_finds, PatternMatcher};
use crate::text::{chars_of, push_str};

verus! {

/// The most messages a clean-up command scans.
pub const SNAP_LIMIT: u64 = 500;

/// Messages older than this cannot be bulk-deleted: two weeks, in microseconds.
pub const BULK_DELETE_WINDOW_MICROS: i128 = 1_209_600_000_000;

/// Matches a user mention, with or without the nickname marker.
pub const PING_PATTERN: &'static str = "<@!?\\d*>";

/// The message clean-up commands.
#[derive(Clone, Copy, Debug, PartialEq, Eq, Structural)]
pub enum SnapKind {
    /// Messages written by bots, among the last few.
    BotMessages,
    /// Messages that mention someone, among the last few.
    Pings,
    /// Messages that start with `/`, among the last few.
    BotCommands,
    /// All of the last few messages.
    Spam,
    /// All messages after a given one.
    After,
}

/// A message as the clean-up commands see it.
pub struct MessageInfo {
    pub id: u64,
    pub author_is_bot: bool,
    pub content: String,
    /// When it was sent, in microseconds since the Unix epoch.
    pub sent_micros: i64,
}

/// The usage note of a clean-up command whose count is missing or too large;
/// the command that deletes after a given message has none (a missing id is an
/// error of the command itself).
pub open spec fn snap_usage_text(kind: SnapKind) -> Option<Seq<char>> {
    match kind {
        SnapKind::BotMessages => Some("Usage: /snapbm <number>"@),
        SnapKind::Pings => Some("Usage: /lazysnapping <number>"@),
        SnapKind::BotCommands => Some("Usage: /snapbotcommands <number>"@),
        SnapKind::Spam => Some("Usage: /snapspam <number>"@),
        SnapKind::After => None,
    }
}

/// The usage note of a clean-up command, if it has one.
pub fn snap_usage(kind: SnapKind) -> (s: Option<&'static str>)
    ensures
        s is Some == snap_usage_text(kind) is Some,
        s matches Some(t) ==> snap_usage_text(kind) == Some(t@),
{
    match kind {
        SnapKind::BotMessages => Some("Usage: /snapbm <number>"),
        SnapKind::Pings => Some("Usage: /lazysnapping <number>"),
        SnapKind::BotCommands => Some("Usage: /snapbotcommands <number>"),
        SnapKind::Spam => Some("Usage: /snapspam <number>"),
        SnapKind::After => None,
    }
}

/// The number of messages to scan, given the number read from the command
/// (`None` where none could be read): at most `SNAP_LIMIT`; anything else is
/// refused with the usage note.
pub fn snap_count(parsed: Option<u64>) -> (r: Option<u64>)
    ensures
        r == (if parsed matches Some(x) && x <= SNAP_LIMIT {
            parsed
        } else {
            None
        }),
{
    match parsed {
        Some(x) => if x <= SNAP_LIMIT {
            Some(x)
        } else {
            None
        },
        None => None,
    }
}

/// Whether a message sent at `sent` may still be bulk-deleted when the clock
/// reads `now` (both in microseconds): less than two weeks have passed.
pub open spec fn deletable(now: i64, sent: i64) -> bool {
    now - sent < BULK_DELETE_WINDOW_MICROS
}

/// Whether a message sent at `sent` may still be bulk-deleted at `now`.
pub fn is_deletable(now: i64, sent: i64) -> (b: bool)
    ensures
        b == deletable(now, sent),
{
    (now as i128) - (sent as i128) < BULK_DELETE_WINDOW_MICROS
}

/// Whether message `m` is of the kind that command `kind` deletes; `pings`
/// says whether it mentions someone.
pub open spec fn snap_wants(kind: SnapKind, m: MessageInfo, pings: bool) -> bool {
    match kind {
        SnapKind::BotMessages => m.author_is_bot,
        SnapKind::Pings => pings,
        SnapKind::BotCommands => m.content@.len() > 0 && m.content@[0] == '/',
        SnapKind::Spam => true,
        SnapKind::After => true,
    }
}

/// Whether command `kind` also deletes the command message itself, after the others.
pub open spec fn deletes_command_last(kind: SnapKind) -> bool {
    kind == SnapKind::BotMessages || kind == SnapKind::Pings || kind == SnapKind::BotCommands
}

/// The messages a command considers: the scanned ones, and for the spam
/// command the command message at the end.
pub open spec fn snap_candidates(kind: SnapKind, messages: Seq<MessageInfo>, command: MessageInfo) -> Seq<MessageInfo> {
    if kind == SnapKind::Spam {
        messages.push(command)
    } else {
        messages
    }
}

/// The ids, in order, of the first `n` candidates that the command deletes,
/// where `pings[i]` says whether candidate `i` mentions someone and `nows[i]`
/// is the clock reading taken for it.
pub open spec fn selected_upto(
    kind: SnapKind,
    cands: Seq<MessageInfo>,
    pings: Seq<bool>,
    nows: Seq<i64>,
    n: int,
) -> Seq<u64>
    decreases n,
{
    if n <= 0 {
        Seq::empty()
    } else {
        let prev = selected_upto(kind, cands, pings, nows, n - 1);
        let m = cands[n - 1];
        if snap_wants(kind, m, pings[n - 1]) && deletable(nows[n - 1], m.sent_micros) {
            prev.push(m.id)
        } else {
            prev
        }
    }
}

/// The ids, in order, of the messages that clean-up command `kind` deletes.
pub open spec fn snap_plan(
    kind: SnapKind,
    messages: Seq<MessageInfo>,
    command: MessageInfo,
    pings: Seq<bool>,
    nows: Seq<i64>,
) -> Seq<u64> {
    let cands = snap_candidates(kind, messages, command);
    let chosen = selected_upto(kind, cands, pings, nows, cands.len() as int);
    if deletes_command_last(kind) {
        chosen.push(command.id)
    } else {
        chosen
    }
}

fn starts_with_slash(content: &str) -> (b: bool)
    ensures
        b == (content@.len() > 0 && content@[0] == '/'),
{
    let cs = chars_of(content);
    cs.len() > 0 && cs[0] == '/'
}

/// The ids, in order, of the messages that clean-up command `kind` deletes
/// among `messages` (scanned before `command`, the command message), where
/// `pings` and `nows` give, per candidate, whether it mentions someone and the
/// clock reading taken for it.
pub fn snap_targets(
    kind: SnapKind,
    messages: &Vec<MessageInfo>,
    command: &MessageInfo,
    pings: &Vec<bool>,
    nows: &Vec<i64>,
) -> (ids: Vec<u64>)
    requires
        messages.len() < usize::MAX,
        pings.len() == snap_candidates(kind, messages@, *command).len(),
        nows.len() == snap_candidates(kind, messages@, *command).len(),
    ensures
        ids@ == snap_plan(kind, messages@, *command, pings@, nows@),
{
    let ghost cands = snap_candidates(kind, messages@, *command);
    let total = if kind == SnapKind::Spam {
        messages.len() + 1
    } else {
        messages.len()
    };
    let mut ids: Vec<u64> = Vec::new();
    let mut i: usize = 0;
    while i < total
        invariant
            total == cands.len(),
            cands == snap_candidates(kind, messages@, *command),
            pings.len() == cands.len(),
            nows.len() == cands.len(),
            i <= total,
            ids@ == selected_upto(kind, cands, pings@, nows@, i as int),
        decreases total - i,
    {
        let m: &MessageInfo = if i < messages.len() {
            &messages[i]
        } else {
            command
        };
        assert(*m == cands[i as int]);
        let wanted = match kind {
            SnapKind::BotMessages => m.author_is_bot,
            SnapKind::Pings => pings[i],
            SnapKind::BotCommands => starts_with_slash(m.content.as_str()),
            SnapKind::Spam => true,
            SnapKind::After => true,
        };
        if wanted && is_deletable(nows[i], m.sent_micros) {
            ids.push(m.id);
        }
        i = i + 1;
    }
    if kind == SnapKind::BotMessages || kind == SnapKind::Pings || kind == SnapKind::BotCommands {
        ids.push(command.id);
    }
    ids
}

/// Runs clean-up command `kind` on `messages`: reads the clock for each
/// candidate and, for the ping command, matches each message against
/// `PING_PATTERN`. Returns the ids to delete, or `None` where the regex engine
/// refuses `PING_PATTERN` (only the ping command compiles it).
pub fn select_snap_targets(kind: SnapKind, messages: &Vec<MessageInfo>, command: &MessageInfo) -> (ids: Option<Vec<u64>>)
    requires
        messages.len() < usize::MAX,
    ensures
        ids is None <==> kind == SnapKind::Pings && !regex_accepts(PING_PATTERN@),
        ids matches Some(v) ==> exists|nows: Seq<i64>, pings: Seq<bool>|
            {
                &&& nows.len() == snap_candidates(kind, messages@, *command).len()
                &&& pings.len() == nows.len()
                &&& (kind == SnapKind::Pings ==> forall|i: int| 0 <= i < pings.len() ==>
                    #[trigger] pings[i] == regex_finds(PING_PATTERN@, snap_candidates(kind, messages@, *command)[i].content@))
                &&& v@ == snap_plan(kind, messages@, *command, pings, nows)
            },
{
    let ghost cands = snap_candidates(kind, messages@, *command);
    let total = if kind == SnapKind::Spam {
        messages.len() + 1
    } else {
        messages.len()
    };
    let mut pings: Vec<bool> = Vec::new();
    if kind == SnapKind::Pings {
        let matcher = match PatternMatcher::new(PING_PATTERN) {
            Some(m) => m,
            None => return None,
        };
        let mut i: usize = 0;
        while i < total
            invariant
                kind == SnapKind::Pings,
                total == cands.len(),
                cands == snap_candidates(kind, messages@, *command),
                matcher@ == PING_PATTERN@,
                i <= total,
                pings.len() == i,
                forall|j: int| 0 <= j < i ==> #[trigger] pings@[j] == regex_finds(PING_PATTERN@, cands[j].content@),
            decreases total - i,
        {
            pings.push(matcher.is_match(messages[i].content.as_str()));
            i = i + 1;
        }
    } else {
        let mut i: usize = 0;
        while i < total
            invariant
                i <= total,
                pings.len() == i,
            decreases total - i,
        {
            pings.push(false);
            i = i + 1;
        }
    }
    let mut nows: Vec<i64> = Vec::new();
    let mut i: usize = 0;
    while i < total
        invariant
            i <= total,
            nows.len() == i,
        decreases total - i,
    {
        nows.push(utc_now_micros());
        i = i + 1;
    }
    let ids = snap_targets(kind, messages, command, &pings, &nows);
    Some(ids)
}

/// The candidate that entry `k` of `selected_upto(kind, cands, pings, nows, n)` comes from.
spec fn selected_origin(kind: SnapKind, cands: Seq<MessageInfo>, pings: Seq<bool>, nows: Seq<i64>, n: int, k: int) -> int
    decreases n,
{
    if n <= 0 {
        0
    } else if k == selected_upto(kind, cands, pings, nows, n - 1).len() {
        n - 1
    } else {
        selected_origin(kind, cands, pings, nows, n - 1, k)
    }
}

proof fn lemma_selected_upto(kind: SnapKind, cands: Seq<MessageInfo>, pings: Seq<bool>, nows: Seq<i64>, n: int)
    requires
        0 <= n <= cands.len(),
        pings.len() == cands.len(),
        nows.len() == cands.len(),
    ensures
        forall|k: int| 0 <= k < selected_upto(kind, cands, pings, nows, n).len() ==> {
            let j = #[trigger] selected_origin(kind, cands, pings, nows, n, k);
            &&& 0 <= j < n
            &&& cands[j].id == selected_upto(kind, cands, pings, nows, n)[k]
            &&& snap_wants(kind, cands[j], pings[j])
            &&& deletable(nows[j], cands[j].sent_micros)
        },
        forall|j: int| #![trigger cands[j]]
            0 <= j < n && snap_wants(kind, cands[j], pings[j]) && deletable(nows[j], cands[j].sent_micros)
            ==> selected_upto(kind, cands, pings, nows, n).contains(cands[j].id),
    decreases n,
{
    if n > 0 {
        lemma_selected_upto(kind, cands, pings, nows, n - 1);
        let prev = selected_upto(kind, cands, pings, nows, n - 1);
        let cur = selected_upto(kind, cands, pings, nows, n);
        let m = cands[n - 1];
        assert forall|k: int| 0 <= k < cur.len() implies {
            let j = #[trigger] selected_origin(kind, cands, pings, nows, n, k);
            &&& 0 <= j < n
            &&& cands[j].id == cur[k]
            &&& snap_wants(kind, cands[j], pings[j])
            &&& deletable(nows[j], cands[j].sent_micros)
        } by {
            if k < prev.len() {
                assert(selected_origin(kind, cands, pings, nows, n, k) == selected_origin(kind, cands, pings, nows, n - 1, k));
                assert(cur[k] == prev[k]);
            } else {
                assert(selected_origin(kind, cands, pings, nows, n, k) == n - 1);
            }
        }
        if snap_wants(kind, m, pings[n - 1]) && deletable(nows[n - 1], m.sent_micros) {
            assert forall|j: int| 0 <= j < n && snap_wants(kind, cands[j], pings[j]) && deletable(nows[j], cands[j].sent_micros)
                implies cur.contains(#[trigger] cands[j].id) by {
                if j < n - 1 {
                    let k = choose|k: int| 0 <= k < prev.len() && prev[k] == cands[j].id;
                    assert(cur[k] == cands[j].id);
                } else {
                    assert(cur[prev.len() as int] == cands[j].id);
                }
            }
        }
    }
}

/// Candidate `j` of a clean-up: scanned message `j`, or past them the command message.
pub open spec fn candidate_at(messages: Seq<MessageInfo>, command: MessageInfo, j: int) -> MessageInfo {
    if j < messages.len() {
        messages[j]
    } else {
        command
    }
}

/// What the clean-up commands delete. Given the scanned messages, the command
/// message, for each candidate (the scanned messages, and for the spam command
/// also the command message, in that order) whether it mentions someone and the
/// clock reading taken for it: the result, apart from the command message that
/// the bot, ping and bot-command clean-ups put last, holds only ids of candidates
/// younger than two weeks at their reading and of the kind the command deletes
/// (written by a bot, mentioning someone, or starting with `/`); and every such
/// candidate's id is in it.
pub proof fn lemma_snap_selection(
    kind: SnapKind,
    messages: Seq<MessageInfo>,
    command: MessageInfo,
    pings: Seq<bool>,
    nows: Seq<i64>,
)
    requires
        pings.len() == nows.len(),
        nows.len() == if kind == SnapKind::Spam {
            messages.len() + 1
        } else {
            messages.len()
        },
    ensures
        kind == SnapKind::BotMessages || kind == SnapKind::Pings || kind == SnapKind::BotCommands ==> snap_plan(
            kind,
            messages,
            command,
            pings,
            nows,
        ).len() > 0 && snap_plan(kind, messages, command, pings, nows).last() == command.id,
        forall|k: int| #![trigger snap_plan(kind, messages, command, pings, nows)[k]]
            0 <= k < snap_plan(kind, messages, command, pings, nows).len() - (if kind == SnapKind::BotMessages
                || kind == SnapKind::Pings || kind == SnapKind::BotCommands { 1int } else { 0int }) ==> exists|j: int|
                #![trigger candidate_at(messages, command, j)]
                0 <= j < nows.len() && candidate_at(messages, command, j).id == snap_plan(kind, messages, command, pings, nows)[k]
                    && nows[j] - candidate_at(messages, command, j).sent_micros < 1_209_600_000_000
                    && (kind == SnapKind::BotMessages ==> candidate_at(messages, command, j).author_is_bot)
                    && (kind == SnapKind::Pings ==> pings[j])
                    && (kind == SnapKind::BotCommands ==> candidate_at(messages, command, j).content@.len() > 0
                        && candidate_at(messages, command, j).content@[0] == '/'),
        forall|j: int| #![trigger candidate_at(messages, command, j)]
            0 <= j < nows.len()
                && nows[j] - candidate_at(messages, command, j).sent_micros < 1_209_600_000_000
                && (kind == SnapKind::BotMessages ==> candidate_at(messages, command, j).author_is_bot)
                && (kind == SnapKind::Pings ==> pings[j])
                && (kind == SnapKind::BotCommands ==> candidate_at(messages, command, j).content@.len() > 0
                    && candidate_at(messages, command, j).content@[0] == '/')
                ==> exists|k: int| 0 <= k < snap_plan(kind, messages, command, pings, nows).len() - (if kind
                    == SnapKind::BotMessages || kind == SnapKind::Pings || kind == SnapKind::BotCommands { 1int } else { 0int })
                    && #[trigger] snap_plan(kind, messages, command, pings, nows)[k] == candidate_at(messages, command, j).id,
{
    let cands = snap_candidates(kind, messages, command);
    assert(cands.len() == nows.len());
    assert forall|j: int| 0 <= j < nows.len() implies #[trigger] cands[j] == candidate_at(messages, command, j) by {}
    lemma_selected_upto(kind, cands, pings, nows, cands.len() as int);
    let sel = selected_upto(kind, cands, pings, nows, cands.len() as int);
    let plan = snap_plan(kind, messages, command, pings, nows);
    let appended = kind == SnapKind::BotMessages || kind == SnapKind::Pings || kind == SnapKind::BotCommands;
    let cut: int = if appended { 1 } else { 0 };
    assert(plan.len() - cut == sel.len());
    assert forall|k: int| 0 <= k < sel.len() implies #[trigger] plan[k] == sel[k] by {}
    assert forall|k: int| #![trigger plan[k]] 0 <= k < plan.len() - cut implies exists|j: int|
        #![trigger candidate_at(messages, command, j)]
        0 <= j < nows.len() && candidate_at(messages, command, j).id == plan[k]
            && nows[j] - candidate_at(messages, command, j).sent_micros < 1_209_600_000_000
            && (kind == SnapKind::BotMessages ==> candidate_at(messages, command, j).author_is_bot)
            && (kind == SnapKind::Pings ==> pings[j])
            && (kind == SnapKind::BotCommands ==> candidate_at(messages, command, j).content@.len() > 0
                && candidate_at(messages, command, j).content@[0] == '/') by {
        let j = selected_origin(kind, cands, pings, nows, cands.len() as int, k);
        assert(plan[k] == sel[k]);
        assert(cands[j] == candidate_at(messages, command, j));
    }
    assert forall|j: int| #![trigger candidate_at(messages, command, j)]
        0 <= j < nows.len()
        && nows[j] - candidate_at(messages, command, j).sent_micros < 1_209_600_000_000
        && (kind == SnapKind::BotMessages ==> candidate_at(messages, command, j).author_is_bot)
        && (kind == SnapKind::Pings ==> pings[j])
        && (kind == SnapKind::BotCommands ==> candidate_at(messages, command, j).content@.len() > 0
            && candidate_at(messages, command, j).content@[0] == '/')
        implies exists|k: int| 0 <= k < plan.len() - cut && #[trigger] plan[k] == candidate_at(messages, command, j).id by {
        assert(cands[j] == candidate_at(messages, command, j));
        assert(snap_wants(kind, cands[j], pings[j]));
        assert(sel.contains(cands[j].id));
        let k = choose|k: int| 0 <= k < sel.len() && sel[k] == cands[j].id;
        assert(plan[k] == sel[k]);
    }
}

/// Answer of the game server status command to `author_id`, given whether
/// the server's port was found open.
pub open spec fn dvs_status_text(author_id: u64, port_open: bool) -> Seq<char> {
    if port_open {
        user_mention_text(author_id) + " Server port appears to be open, so it should be up."@
    } else {
        "Server down indeed, <@324381278600298509> your server is on crack"@
    }
}

/// Answer of the game server status command.
pub fn dvs_status_reply(author_id: u64, port_open: bool) -> (s: String)
    ensures
        s@ == dvs_status_text(author_id, port_open),
{
    let mut s = String::new();
    if port_open {
        push_user_mention(&mut s, author_id);
        push_str(&mut s, " Server port appears to be open, so it should be up.");
    } else {
        push_str(&mut s, "Server down indeed, <@324381278600298509> your server is on crack");
    }
    assert(s@ =~= dvs_status_text(author_id, port_open));
    s
}

} // verus!
