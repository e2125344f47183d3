use oofbot::dogebot::{dogebot_presence, dogebot_reply, maintainer_ping, watch_step, DogebotPresenceAction, WatchAction, WatchState};
use oofbot::handler::{
    dvs_check, may_manage_guild, may_manage_messages, message_actions, test_reply, Handler,
    IncomingMessage, MessageAction,
};
use oofbot::presence::{presence_route, OnlineStatus, PresenceRoute};

fn msg(content: &str, author_id: u64, bot: bool) -> IncomingMessage {
    IncomingMessage {
        content: content.to_string(),
        author_id,
        author_is_bot: bot,
        attachment_names: Vec::new(),
    }
}

#[test]
fn mention_of_the_bot_is_answered() {
    let h = Handler::new().unwrap();
    let said = h.message(&msg("hey <@!468928390917783553>", 1, false));
    assert_eq!(said, vec![MessageAction::Say("For thousands of years I lay dormant, who has disturbed my slumber".to_string())]);
    let said = h.message(&msg("<@468928390917783553>", 1, false));
    assert_eq!(said.len(), 1);
    assert!(h.message(&msg("<@468928390917783554>", 1, false)).is_empty());
}

#[test]
fn someone_ping_only_for_humans() {
    assert_eq!(message_actions(&msg("hi @someone", 1, false), false), vec![MessageAction::SomeonePing]);
    assert!(message_actions(&msg("hi @someone", 1, true), false).is_empty());
}

#[test]
fn mass_pings_get_the_gif_but_not_from_the_bot_itself() {
    let gif = MessageAction::Say("https://yeet.kikoho.xyz/files/ping.gif".to_string());
    assert_eq!(message_actions(&msg("@everyone", 1, false), false), vec![gif.clone()]);
    assert_eq!(message_actions(&msg("@here", 1, true), false), vec![gif.clone()]);
    assert!(message_actions(&msg("@here", 468928390917783553, true), false).is_empty());
}

#[test]
fn answers_come_in_order() {
    let actions = message_actions(&msg("@someone @everyone https://www.twitch.tv/corporal_q", 266345279513427971, false), true);
    assert_eq!(actions.len(), 4);
    assert!(matches!(actions[0], MessageAction::Say(_)));
    assert_eq!(actions[1], MessageAction::SomeonePing);
    assert_eq!(actions[3], MessageAction::Say("sotp spamming".to_string()));
    let actions = message_actions(&msg("https://www.twitch.tv/corporal_q", 5, false), false);
    assert!(actions.is_empty());
}

#[test]
fn the_rival_bot_gets_its_own_replies() {
    assert_eq!(message_actions(&msg("^", 612070962913083405, true), true), vec![MessageAction::Say("^".to_string())]);
    assert!(message_actions(&msg("@everyone", 612070962913083405, true), true).is_empty());
    assert_eq!(dogebot_reply("dogebot (offline)", &vec![]), Some("rip".to_string()));
    assert_eq!(dogebot_reply("^", &vec!["creeper.jpg".to_string()]), Some("^".to_string()));
    assert_eq!(dogebot_reply("its treason then", &vec![]), Some("Mace went out of the windu".to_string()));
    assert_eq!(dogebot_reply("^ ", &vec![]), None);
    assert_eq!(
        dogebot_reply("look", &vec!["a.png".to_string(), "trollface.jpg".to_string(), "creeper.jpg".to_string()]),
        Some("I see no problems here <@612070962913083405>".to_string())
    );
    let creeper = dogebot_reply("", &vec!["creeper.jpg".to_string()]).unwrap();
    assert!(creeper.starts_with("its fine its fine"));
    assert!(creeper.ends_with("||THAT THAT ONES NOT GREEN||"));
}

#[test]
fn presence_routes() {
    assert_eq!(presence_route(None, 1, OnlineStatus::Offline), PresenceRoute::Ignore);
    assert_eq!(presence_route(Some(561874457283657728), 612070962913083405, OnlineStatus::Idle), PresenceRoute::WatchDogebot);
    assert_eq!(presence_route(Some(1), 612070962913083405, OnlineStatus::Offline), PresenceRoute::Ignore);
    assert_eq!(presence_route(Some(1), 5, OnlineStatus::Offline), PresenceRoute::RecordOffline);
    assert_eq!(presence_route(Some(1), 5, OnlineStatus::Online), PresenceRoute::AnnounceReturn);
    assert_eq!(presence_route(Some(1), 5, OnlineStatus::Idle), PresenceRoute::Ignore);
}

#[test]
fn dogebot_presence_actions() {
    assert_eq!(dogebot_presence(OnlineStatus::Offline, Some(9)), DogebotPresenceAction::StartWatch(9));
    assert_eq!(dogebot_presence(OnlineStatus::Offline, None), DogebotPresenceAction::WarnNoChannel);
    assert_eq!(dogebot_presence(OnlineStatus::Online, Some(9)), DogebotPresenceAction::CancelWatch);
    assert_eq!(dogebot_presence(OnlineStatus::DoNotDisturb, Some(9)), DogebotPresenceAction::Ignore);
}

#[test]
fn watch_pings_after_fifty_nine_quiet_wakeups() {
    let mut s = WatchState::Starting;
    let mut actions = Vec::new();
    while s != WatchState::Finished {
        let (next, a) = watch_step(s, false);
        actions.push(a);
        s = next;
    }
    assert_eq!(actions.len(), 59);
    assert_eq!(actions[0], WatchAction::Announce);
    assert!(actions[1..58].iter().all(|a| *a == WatchAction::Continue));
    assert_eq!(actions[58], WatchAction::ClearAndPing);
    assert_eq!(maintainer_ping(), "<@355803584228622346>");
}

#[test]
fn watch_stops_when_cancelled() {
    assert_eq!(watch_step(WatchState::Starting, true), (WatchState::Finished, WatchAction::ClearAndStop));
    assert_eq!(watch_step(WatchState::Waiting(10), true), (WatchState::Finished, WatchAction::ClearAndStop));
    assert_eq!(watch_step(WatchState::Waiting(10), false), (WatchState::Waiting(11), WatchAction::Continue));
}

#[test]
fn permission_checks() {
    assert!(may_manage_messages(453344368913547265, None));
    assert!(!may_manage_messages(1, None));
    assert!(may_manage_messages(1, Some(0x8)));
    assert!(may_manage_messages(1, Some(0x2000)));
    assert!(!may_manage_messages(1, Some(0x20)));
    assert!(may_manage_guild(1, Some(0x20)));
    assert!(!may_manage_guild(1, Some(0x2000)));
    assert!(dvs_check(Some(693213312099287153)));
    assert!(!dvs_check(None));
    assert!(!dvs_check(Some(1)));
    assert_eq!(test_reply(1), "No");
    assert_eq!(test_reply(453344368913547265), "@admin");
}
