use vstd::prelude::*;
use rand::Rng;
use crate::mention::{push_user_mention, user_mention_text};
use crate::text::{chars_of, count_occurrences, occurrences, push_str};

verus! {

/// Lets `rand::rngs::ThreadRng` stand in signatures; its value is opaque.
#[verifier::external_type_specification]
#[verifier::external_body]
pub struct ExThreadRng(rand::rngs::ThreadRng);

/// The thread's random number generator.
///
/// Trusted: calls `rand::thread_rng`. Nothing is claimed of the result.
#[verifier::external_body]
fn thread_rng() -> rand::rngs::ThreadRng {
    rand::thread_rng()
}

/// A random index below `bound`.
///
/// Trusted: calls `Rng::gen_range(0, bound)`, which rand documents as returning
/// a value in `[0, bound)` and which panics when `bound` is zero; the contract
/// claims only the range and excludes a zero bound.
#[verifier::external_body]
fn random_index(rng: &mut rand::rngs::ThreadRng, bound: usize) -> (i: usize)
    requires
        bound > 0,
    ensures
        i < bound,
{
    rng.gen_range(0, bound)
}

/// The word that pings a random member.
pub const SOMEONE: &'static str = "@someone";

/// Reply to `@someone` outside a guild.
pub const SOMEONE_IN_DM_REPLY: &'static str = "Cannot @someone in dms";

/// Reply to `@someone` when the guild's members cannot be found.
pub const SOMEONE_FAILED_REPLY: &'static str = "Internal Error";

/// Mentions of `picks`, separated by ", ".
pub open spec fn pinged_list(picks: Seq<u64>) -> Seq<char>
    decreases picks.len(),
{
    if picks.len() == 0 {
        Seq::empty()
    } else if picks.len() == 1 {
        user_mention_text(picks[0])
    } else {
        pinged_list(picks.drop_last()) + ", "@ + user_mention_text(picks.last())
    }
}

/// The answer to `@someone` from `author_id` when `picks` were drawn.
pub open spec fn someone_ping_text(author_id: u64, picks: Seq<u64>) -> Seq<char> {
    user_mention_text(author_id) + " has pinged: "@ + pinged_list(picks)
}

/// The answer to `@someone` from `author_id` when `picks` were drawn.
pub fn someone_ping_message(author_id: u64, picks: &Vec<u64>) -> (s: String)
    ensures
        s@ == someone_ping_text(author_id, picks@),
{
    let mut s = String::new();
    push_user_mention(&mut s, author_id);
    push_str(&mut s, " has pinged: ");
    let ghost head = s@;
    let mut i: usize = 0;
    while i < picks.len()
        invariant
            i <= picks.len(),
            head == user_mention_text(author_id) + " has pinged: "@,
            s@ == head + pinged_list(picks@.take(i as int)),
        decreases picks.len() - i,
    {
        if i > 0 {
            push_str(&mut s, ", ");
        }
        push_user_mention(&mut s, picks[i]);
        proof {
            let t = picks@.take(i + 1);
            assert(t.drop_last() =~= picks@.take(i as int));
            if i == 0 {
                assert(picks@.take(0) =~= Seq::<u64>::empty());
            }
        }
        assert(s@ =~= head + pinged_list(picks@.take(i + 1)));
        i = i + 1;
    }
    assert(picks@.take(picks.len() as int) =~= picks@);
    s
}

/// How many members `content` pings at random: its occurrences of `@someone`.
pub fn someone_count(content: &str) -> (n: usize)
    ensures
        n == occurrences(content@, SOMEONE@),
{
    let hay = chars_of(content);
    let needle = chars_of(SOMEONE);
    proof {
        reveal_strlit("@someone");
    }
    count_occurrences(&hay, &needle)
}

/// Draws `count` members at random, each independently.
pub fn choose_someones(members: &Vec<u64>, count: usize) -> (picks: Vec<u64>)
    requires
        count > 0 ==> members.len() > 0,
    ensures
        picks.len() == count,
        forall|i: int| 0 <= i < count ==> members@.contains(#[trigger] picks@[i]),
{
    let mut picks: Vec<u64> = Vec::new();
    if count == 0 {
        return picks;
    }
    let mut rng = thread_rng();
    while picks.len() < count
        invariant
            picks.len() <= count,
            members.len() > 0,
            forall|i: int| 0 <= i < picks.len() ==> members@.contains(#[trigger] picks@[i]),
        decreases count - picks.len(),
    {
        let r = random_index(&mut rng, members.len());
        assert(members@[r as int] == members[r as int]);
        picks.push(members[r]);
    }
    picks
}

/// The answer to `@someone` from `author_id` in a message with text
/// `content`: outside a guild a refusal; when the guild's members could not be
/// found an error; otherwise the author's mention and one randomly drawn
/// member for each occurrence of `@someone`.
pub fn someone_ping(author_id: u64, content: &str, in_guild: bool, members: Option<&Vec<u64>>) -> (s: String)
    requires
        in_guild && occurrences(content@, SOMEONE@) > 0 ==> (members matches Some(m) ==> m.len() > 0),
    ensures
        !in_guild ==> s@ == SOMEONE_IN_DM_REPLY@,
        in_guild && members is None ==> s@ == SOMEONE_FAILED_REPLY@,
        in_guild && members is Some ==> exists|picks: Seq<u64>|
            {
                &&& picks.len() == occurrences(content@, SOMEONE@)
                &&& forall|i: int| 0 <= i < picks.len() ==> members.unwrap()@.contains(#[trigger] picks[i])
                &&& s@ == someone_ping_text(author_id, picks)
            },
{
    if !in_guild {
        return SOMEONE_IN_DM_REPLY.to_owned();
    }
    match members {
        None => SOMEONE_FAILED_REPLY.to_owned(),
        Some(m) => {
            let count = someone_count(content);
            let picks = choose_someones(m, count);
            someone_ping_message(author_id, &picks)
        },
    }
}

} // verus!
