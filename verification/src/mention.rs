use vstd::prelude::*;
use crate::text::{decimal, push_decimal, push_str};

verus! {

/// How a user is mentioned in a message: `<@id>`.
pub open spec fn user_mention_text(id: u64) -> Seq<char> {
    "<@"@ + decimal(id as nat) + ">"@
}

/// How a channel is mentioned in a message: `<#id>`.
pub open spec fn channel_mention_text(id: u64) -> Seq<char> {
    "<#"@ + decimal(id as nat) + ">"@
}

/// Appends a mention of user `id` to `s`.
pub fn push_user_mention(s: &mut String, id: u64)
    ensures
        final(s)@ == old(s)@ + user_mention_text(id),
{
    push_str(s, "<@");
    push_decimal(s, id);
    push_str(s, ">");
    assert(final(s)@ =~= old(s)@ + user_mention_text(id));
}

/// A mention of user `id`.
pub fn user_mention(id: u64) -> (s: String)
    ensures
        s@ == user_mention_text(id),
{
    let mut s = String::new();
    push_user_mention(&mut s, id);
    assert(s@ =~= user_mention_text(id));
    s
}

/// A mention of channel `id`.
pub fn channel_mention(id: u64) -> (s: String)
    ensures
        s@ == channel_mention_text(id),
{
    let mut s = String::new();
    push_str(&mut s, "<#");
    push_decimal(&mut s, id);
    push_str(&mut s, ">");
    assert(s@ =~= channel_mention_text(id));
    s
}

} // verus!
