use vstd::prelude::*;
use crate::dogebot::{
    dogebot_reply, dogebot_reply_text, lemma_attachment_reply_values, views_of, CARET_REPLY, CREEPER_REPLY,
    OFFLINE_REPLY, TREASON_REPLY, TROLLFACE_REPLY,
};
use crate::ids::{DOGEBOT_ID, DVS_GUILD_ID, OOFBOT_ID, OWNER_ID, STREAMER_ID};
use crate::pattern::{regex_finds, PatternMatcher};
use crate::someone::SOMEONE;
use crate::text::{contains_text, str_contains};

verus! {

/// Matches a mention of this bot, with or without the nickname marker.
pub const MENTION_PATTERN: &'static str = "<@!?468928390917783553>";

/// Reply to a mention of this bot.
pub const SLUMBER_REPLY: &'static str = "For thousands of years I lay dormant, who has disturbed my slumber";

/// Reply to a mass ping.
pub const MASS_PING_REPLY: &'static str = "https://yeet.kikoho.xyz/files/ping.gif";

/// The stream link that gets a complaint.
pub const STREAM_LINK: &'static str = "https://www.twitch.tv/corporal_q";

/// The complaint about the stream link.
pub const STREAM_REPLY: &'static str = "sotp spamming";

/// A message as the handler sees it.
pub struct IncomingMessage {
    pub content: String,
    pub author_id: u64,
    pub author_is_bot: bool,
    pub attachment_names: Vec<String>,
}

/// Something the handler does in answer to a message.
#[derive(Clone, Debug, PartialEq, Eq)]
pub enum MessageAction {
    /// Post this text in the message's channel.
    Say(String),
    /// Answer the message's `@someone`s.
    SomeonePing,
}

/// A message action with its text as a sequence: `None` for the `@someone`
/// answer, `Some(text)` for posting `text`.
pub open spec fn action_view(a: MessageAction) -> Option<Seq<char>> {
    match a {
        MessageAction::Say(s) => Some(s@),
        MessageAction::SomeonePing => None,
    }
}

/// `entry` if `cond`, else nothing.
pub open spec fn answer_if(cond: bool, entry: Option<Seq<char>>) -> Seq<Option<Seq<char>>> {
    if cond {
        seq![entry]
    } else {
        Seq::empty()
    }
}

/// The handler's answers, in order, to a message with text `content` from
/// `author_id`, where `mention_found` says whether the text mentions this bot.
/// The rival bot only gets its own reply, if any; everyone else may get, in
/// this order: the answer to a mention, the `@someone` answer (not for bots),
/// the answer to `@everyone` or `@here` (not for this bot itself), and the
/// complaint about the stream link (for its one poster).
pub open spec fn message_plan(
    content: Seq<char>,
    author_id: u64,
    author_is_bot: bool,
    attachment_names: Seq<Seq<char>>,
    mention_found: bool,
) -> Seq<Option<Seq<char>>> {
    if author_id == DOGEBOT_ID {
        match dogebot_reply_text(content, attachment_names) {
            Some(t) => seq![Some(t)],
            None => Seq::empty(),
        }
    } else {
        answer_if(mention_found, Some(SLUMBER_REPLY@)) + answer_if(
            contains_text(content, SOMEONE@) && !author_is_bot,
            None,
        ) + answer_if(
            (contains_text(content, "@everyone"@) || contains_text(content, "@here"@)) && author_id
                != OOFBOT_ID,
            Some(MASS_PING_REPLY@),
        ) + answer_if(
            author_id == STREAMER_ID && contains_text(content, STREAM_LINK@),
            Some(STREAM_REPLY@),
        )
    }
}

/// The handler's answers to `msg`, given whether its text mentions this bot.
pub fn message_actions(msg: &IncomingMessage, mention_found: bool) -> (actions: Vec<MessageAction>)
    ensures
        actions@.map_values(|a: MessageAction| action_view(a)) == message_plan(
            msg.content@,
            msg.author_id,
            msg.author_is_bot,
            views_of(msg.attachment_names@),
            mention_found,
        ),
{
    let ghost plan = message_plan(
        msg.content@,
        msg.author_id,
        msg.author_is_bot,
        views_of(msg.attachment_names@),
        mention_found,
    );
    let mut actions: Vec<MessageAction> = Vec::new();
    let content = msg.content.as_str();
    if msg.author_id == DOGEBOT_ID {
        match dogebot_reply(content, &msg.attachment_names) {
            Some(t) => actions.push(MessageAction::Say(t)),
            None => {},
        }
        assert(actions@.map_values(|a: MessageAction| action_view(a)) =~= plan);
        return actions;
    }
    let ghost mut expect: Seq<Option<Seq<char>>> = Seq::empty();
    if mention_found {
        actions.push(MessageAction::Say(SLUMBER_REPLY.to_owned()));
    }
    proof {
        expect = answer_if(mention_found, Some(SLUMBER_REPLY@));
    }
    assert(actions@.map_values(|a: MessageAction| action_view(a)) =~= expect);
    let someone = str_contains(content, SOMEONE);
    if someone && !msg.author_is_bot {
        actions.push(MessageAction::SomeonePing);
    }
    proof {
        expect = expect + answer_if(contains_text(msg.content@, SOMEONE@) && !msg.author_is_bot, None);
    }
    assert(actions@.map_values(|a: MessageAction| action_view(a)) =~= expect);
    let everyone = str_contains(content, "@everyone");
    let here = str_contains(content, "@here");
    if (everyone || here) && msg.author_id != OOFBOT_ID {
        actions.push(MessageAction::Say(MASS_PING_REPLY.to_owned()));
    }
    proof {
        expect = expect + answer_if(
            (contains_text(msg.content@, "@everyone"@) || contains_text(msg.content@, "@here"@))
                && msg.author_id != OOFBOT_ID,
            Some(MASS_PING_REPLY@),
        );
    }
    assert(actions@.map_values(|a: MessageAction| action_view(a)) =~= expect);
    if msg.author_id == STREAMER_ID && str_contains(content, STREAM_LINK) {
        actions.push(MessageAction::Say(STREAM_REPLY.to_owned()));
    }
    proof {
        expect = expect + answer_if(
            msg.author_id == STREAMER_ID && contains_text(msg.content@, STREAM_LINK@),
            Some(STREAM_REPLY@),
        );
    }
    assert(actions@.map_values(|a: MessageAction| action_view(a)) =~= expect);
    actions
}

/// Guards of the message routing: a bot's message never triggers the
/// `@someone` answer; the rival bot gets at most one answer; this bot's own
/// messages never get more than the mention answer, the `@someone` answer and
/// the stream complaint, in that order; and there are never more than four answers.
pub proof fn lemma_message_plan_guards(
    content: Seq<char>,
    author_id: u64,
    author_is_bot: bool,
    attachment_names: Seq<Seq<char>>,
    mention_found: bool,
)
    ensures
        author_is_bot ==> !message_plan(content, author_id, author_is_bot, attachment_names, mention_found).contains(None),
        author_id == DOGEBOT_ID ==> message_plan(content, author_id, author_is_bot, attachment_names, mention_found).len() <= 1,
        author_id == OOFBOT_ID ==> message_plan(content, author_id, author_is_bot, attachment_names, mention_found)
            == answer_if(mention_found, Some(SLUMBER_REPLY@)) + answer_if(contains_text(content, SOMEONE@) && !author_is_bot, None),
        message_plan(content, author_id, author_is_bot, attachment_names, mention_found).len() <= 4,
{
    let plan = message_plan(content, author_id, author_is_bot, attachment_names, mention_found);
    if author_id != DOGEBOT_ID {
        let a = answer_if(mention_found, Some(SLUMBER_REPLY@));
        let b = answer_if(contains_text(content, SOMEONE@) && !author_is_bot, None);
        let c = answer_if(
            (contains_text(content, "@everyone"@) || contains_text(content, "@here"@)) && author_id != OOFBOT_ID,
            Some(MASS_PING_REPLY@),
        );
        let d = answer_if(author_id == STREAMER_ID && contains_text(content, STREAM_LINK@), Some(STREAM_REPLY@));
        assert(plan == a + b + c + d);
        if author_is_bot {
            assert forall|i: int| 0 <= i < plan.len() implies plan[i] != None::<Seq<char>> by {
                if i < a.len() {
                    assert(plan[i] == a[i]);
                } else if i < a.len() + b.len() {
                    assert(b.len() == 0);
                } else if i < a.len() + b.len() + c.len() {
                    assert(plan[i] == c[i - a.len() - b.len()]);
                } else {
                    assert(plan[i] == d[i - a.len() - b.len() - c.len()]);
                }
            }
        }
        if author_id == OOFBOT_ID {
            assert(c.len() == 0);
            assert(d.len() == 0);
            assert(plan =~= a + b);
        }
    } else {
        assert(plan.len() <= 1);
    }
}

proof fn lemma_concat_contains<A>(a: Seq<A>, b: Seq<A>, x: A)
    ensures
        (a + b).contains(x) <==> a.contains(x) || b.contains(x),
{
    if (a + b).contains(x) {
        let i = choose|i: int| 0 <= i < (a + b).len() && (a + b)[i] == x;
        if i >= a.len() {
            assert(b[i - a.len()] == x);
        }
    }
    if a.contains(x) {
        let i = choose|i: int| 0 <= i < a.len() && a[i] == x;
        assert((a + b)[i] == x);
    }
    if b.contains(x) {
        let i = choose|i: int| 0 <= i < b.len() && b[i] == x;
        assert((a + b)[i + a.len()] == x);
    }
}

proof fn lemma_answer_if_contains(cond: bool, entry: Option<Seq<char>>, x: Option<Seq<char>>)
    ensures
        answer_if(cond, entry).contains(x) <==> cond && entry == x,
{
    if cond {
        assert(answer_if(cond, entry)[0] == entry);
    }
}

/// What each answer is for. The stream complaint comes exactly for a message
/// of its one poster that holds the stream link; the mass-ping gif exactly for
/// a message holding "@everyone" or "@here" from anyone but this bot and the
/// rival bot; the mention answer exactly when this bot is mentioned, except
/// to the rival bot; and the `@someone` answer exactly for a message holding
/// "@someone" from a human.
pub proof fn lemma_message_answers(
    content: Seq<char>,
    author_id: u64,
    author_is_bot: bool,
    attachment_names: Seq<Seq<char>>,
    mention_found: bool,
)
    ensures
        message_plan(content, author_id, author_is_bot, attachment_names, mention_found).contains(Some("sotp spamming"@))
            <==> author_id == 266345279513427971 && contains_text(content, "https://www.twitch.tv/corporal_q"@),
        message_plan(content, author_id, author_is_bot, attachment_names, mention_found).contains(
            Some("https://yeet.kikoho.xyz/files/ping.gif"@),
        ) <==> author_id != 612070962913083405 && author_id != 468928390917783553 && (contains_text(
            content,
            "@everyone"@,
        ) || contains_text(content, "@here"@)),
        message_plan(content, author_id, author_is_bot, attachment_names, mention_found).contains(
            Some("For thousands of years I lay dormant, who has disturbed my slumber"@),
        ) <==> author_id != 612070962913083405 && mention_found,
        message_plan(content, author_id, author_is_bot, attachment_names, mention_found).contains(None)
            <==> author_id != 612070962913083405 && !author_is_bot && contains_text(content, "@someone"@),
{
    let plan = message_plan(content, author_id, author_is_bot, attachment_names, mention_found);
    reveal_strlit("sotp spamming");
    reveal_strlit("https://yeet.kikoho.xyz/files/ping.gif");
    reveal_strlit("For thousands of years I lay dormant, who has disturbed my slumber");
    reveal_strlit("rip");
    reveal_strlit("^");
    reveal_strlit("Mace went out of the windu");
    reveal_strlit("I see no problems here <@612070962913083405>");
    reveal_strlit("its fine its fine, it doesnt bother me, it doesnt bother me, IT BOTHERS ME, IT BOTHERS ME A LOT\n||THAT THAT ONES NOT GREEN||");
    assert(STREAM_REPLY@.len() == 13);
    assert(MASS_PING_REPLY@.len() == 38);
    assert(SLUMBER_REPLY@.len() == 66);
    assert(OFFLINE_REPLY@.len() == 3);
    assert(CARET_REPLY@.len() == 1);
    assert(TREASON_REPLY@.len() == 26);
    assert(TROLLFACE_REPLY@.len() == 44);
    assert(CREEPER_REPLY@.len() == 124);
    if author_id == DOGEBOT_ID {
        lemma_attachment_reply_values(attachment_names);
        match dogebot_reply_text(content, attachment_names) {
            Some(t) => {
                assert(t.len() == 3 || t.len() == 1 || t.len() == 26 || t.len() == 44 || t.len() == 124);
                assert(plan =~= seq![Some(t)]);
                assert(plan[0] == Some(t));
            },
            None => {
                assert(plan =~= Seq::<Option<Seq<char>>>::empty());
            },
        }
        assert forall|x: Option<Seq<char>>| plan.contains(x) implies x is Some && (x.unwrap().len() == 3 || x.unwrap().len() == 1
            || x.unwrap().len() == 26 || x.unwrap().len() == 44 || x.unwrap().len() == 124) by {
            let i = choose|i: int| 0 <= i < plan.len() && plan[i] == x;
            assert(plan.len() == 1);
        }
        assert(!plan.contains(Some("sotp spamming"@)));
        assert(!plan.contains(Some("https://yeet.kikoho.xyz/files/ping.gif"@)));
        assert(!plan.contains(Some("For thousands of years I lay dormant, who has disturbed my slumber"@)));
        assert(!plan.contains(None));
    } else {
        let a = answer_if(mention_found, Some(SLUMBER_REPLY@));
        let b = answer_if(contains_text(content, SOMEONE@) && !author_is_bot, None);
        let c = answer_if(
            (contains_text(content, "@everyone"@) || contains_text(content, "@here"@)) && author_id != OOFBOT_ID,
            Some(MASS_PING_REPLY@),
        );
        let d = answer_if(author_id == STREAMER_ID && contains_text(content, STREAM_LINK@), Some(STREAM_REPLY@));
        assert(plan == a + b + c + d);
        assert forall|x: Option<Seq<char>>| plan.contains(x) <==> (a.contains(x) || b.contains(x) || c.contains(x) || d.contains(x)) by {
            lemma_concat_contains(a + b + c, d, x);
            lemma_concat_contains(a + b, c, x);
            lemma_concat_contains(a, b, x);
        }
        assert forall|x: Option<Seq<char>>| true implies {
            &&& a.contains(x) <==> mention_found && Some(SLUMBER_REPLY@) == x
            &&& b.contains(x) <==> contains_text(content, SOMEONE@) && !author_is_bot && None::<Seq<char>> == x
            &&& c.contains(x) <==> (contains_text(content, "@everyone"@) || contains_text(content, "@here"@)) && author_id != OOFBOT_ID && Some(MASS_PING_REPLY@) == x
            &&& d.contains(x) <==> author_id == STREAMER_ID && contains_text(content, STREAM_LINK@) && Some(STREAM_REPLY@) == x
        } by {
            lemma_answer_if_contains(mention_found, Some(SLUMBER_REPLY@), x);
            lemma_answer_if_contains(contains_text(content, SOMEONE@) && !author_is_bot, None, x);
            lemma_answer_if_contains(
                (contains_text(content, "@everyone"@) || contains_text(content, "@here"@)) && author_id != OOFBOT_ID,
                Some(MASS_PING_REPLY@),
                x,
            );
            lemma_answer_if_contains(author_id == STREAMER_ID && contains_text(content, STREAM_LINK@), Some(STREAM_REPLY@), x);
        }
        assert(plan.contains(Some("sotp spamming"@)) == d.contains(Some("sotp spamming"@)));
        assert(plan.contains(Some("https://yeet.kikoho.xyz/files/ping.gif"@)) == c.contains(Some("https://yeet.kikoho.xyz/files/ping.gif"@)));
        assert(plan.contains(Some("For thousands of years I lay dormant, who has disturbed my slumber"@)) == a.contains(
            Some("For thousands of years I lay dormant, who has disturbed my slumber"@),
        ));
        assert(plan.contains(None) == b.contains(None));
    }
}

/// The bot's event handler: it holds the compiled mention pattern.
pub struct Handler {
    mention_regex: PatternMatcher,
}

impl Handler {
    /// The pattern the handler's mention matcher was compiled from.
    pub closed spec fn mention_pattern(&self) -> Seq<char> {
        self.mention_regex@
    }

    /// A handler whose mention matcher is compiled from `MENTION_PATTERN`, or
    /// `None` where the regex engine refuses that pattern.
    pub fn new() -> (h: Option<Handler>)
        ensures
            h is Some <==> crate::pattern::regex_accepts(MENTION_PATTERN@),
            h matches Some(h) ==> h.mention_pattern() == MENTION_PATTERN@,
    {
        match PatternMatcher::new(MENTION_PATTERN) {
            Some(m) => Some(Handler { mention_regex: m }),
            None => None,
        }
    }

    /// The answers to `msg`; whether it mentions this bot is decided by the
    /// handler's mention matcher.
    pub fn message(&self, msg: &IncomingMessage) -> (actions: Vec<MessageAction>)
        ensures
            actions@.map_values(|a: MessageAction| action_view(a)) == message_plan(
                msg.content@,
                msg.author_id,
                msg.author_is_bot,
                views_of(msg.attachment_names@),
                regex_finds(self.mention_pattern(), msg.content@),
            ),
    {
        let found = self.mention_regex.is_match(msg.content.as_str());
        message_actions(msg, found)
    }
}

/// The administrator permission bit.
pub const ADMINISTRATOR_BITS: u64 = 0x8;

/// The "manage guild" permission bit.
pub const MANAGE_GUILD_BITS: u64 = 0x20;

/// The "manage messages" permission bit.
pub const MANAGE_MESSAGES_BITS: u64 = 0x2000;

/// Whether the permission bits `bits` include all of `flag`.
pub open spec fn has_flag(bits: u64, flag: u64) -> bool {
    bits & flag == flag
}

/// Whether `author_id` may run the message clean-up commands: the owner always
/// may; anyone else when their guild permissions, if they could be read,
/// include administrator or "manage messages".
pub fn may_manage_messages(author_id: u64, permissions: Option<u64>) -> (b: bool)
    ensures
        b == (author_id == OWNER_ID || (permissions matches Some(p) && (has_flag(p, ADMINISTRATOR_BITS)
            || has_flag(p, MANAGE_MESSAGES_BITS)))),
{
    if author_id == OWNER_ID {
        return true;
    }
    match permissions {
        Some(p) => (p & ADMINISTRATOR_BITS) == ADMINISTRATOR_BITS || (p & MANAGE_MESSAGES_BITS)
            == MANAGE_MESSAGES_BITS,
        None => false,
    }
}

/// Whether `author_id` may set the canary update channel: the owner always
/// may; anyone else when their guild permissions, if they could be read,
/// include administrator or "manage guild".
pub fn may_manage_guild(author_id: u64, permissions: Option<u64>) -> (b: bool)
    ensures
        b == (author_id == OWNER_ID || (permissions matches Some(p) && (has_flag(p, ADMINISTRATOR_BITS)
            || has_flag(p, MANAGE_GUILD_BITS)))),
{
    if author_id == OWNER_ID {
        return true;
    }
    match permissions {
        Some(p) => (p & ADMINISTRATOR_BITS) == ADMINISTRATOR_BITS || (p & MANAGE_GUILD_BITS)
            == MANAGE_GUILD_BITS,
        None => false,
    }
}

/// Whether the game server status command may run in guild `guild_id`:
/// only in its one guild, never outside guilds.
pub fn dvs_check(guild_id: Option<u64>) -> (b: bool)
    ensures
        b == (guild_id == Some(DVS_GUILD_ID)),
{
    match guild_id {
        Some(g) => g == DVS_GUILD_ID,
        None => false,
    }
}

/// Answer of the test command to anyone but the owner.
pub const TEST_REFUSAL: &'static str = "No";

/// Answer of the test command to the owner.
pub const TEST_REPLY: &'static str = "@admin";

/// Answer of the test command to `author_id`.
pub fn test_reply(author_id: u64) -> (s: String)
    ensures
        s@ == if author_id == OWNER_ID {
            TEST_REPLY@
        } else {
            TEST_REFUSAL@
        },
{
    if author_id != OWNER_ID {
        TEST_REFUSAL.to_owned()
    } else {
        TEST_REPLY.to_owned()
    }
}

/// Answer of the command that is not ready yet.
pub const EXECUTE_ORDER_REPLY: &'static str = "not yet";

} // verus!
