use daphuulbot::feed::begin_relay;
use daphuulbot::feed::kickstarter::APP_USER_AGENT;
use daphuulbot::feed::normal_message_hook;
use daphuulbot::feed::scrape_message;
use daphuulbot::feed::select_target;
use daphuulbot::feed::PostableChannels;
use daphuulbot::feed::RelayAction;
use daphuulbot::feed::RelayEvent;
use daphuulbot::feed::RelayState;
use daphuulbot::feed::MENTION_DIGITS;
use daphuulbot::feed::MENTION_PATTERN;
use std::collections::HashSet;

fn postable(ids: &[u64]) -> PostableChannels {
    let mut set = HashSet::new();
    for id in ids {
        set.insert(*id);
    }
    PostableChannels { ids: set }
}

fn transport_failure() -> reqwest::Error {
    reqwest::Client::new().get("no url at all").build().unwrap_err()
}

const CAMPAIGN: &str = "https://www.kickstarter.com/projects/paulmalchow/union-city-alliance-heroes-unite-deckbuilding-board-game-new";

fn campaign_page() -> Vec<u8> {
    let html = "<html><head>\
        <meta property=\"og:title\" content=\"Union City Alliance\"/>\
        <meta property=\"og:description\" content=\"A deckbuilding game\"/>\
        <meta property=\"og:url\" content=\"https://www.kickstarter.com/projects/x/y\"/>\
        <meta property=\"og:image\" content=\"https://example.org/image.jpg\"/>\
        </head><body>Hello</body></html>";
    html.as_bytes().to_vec()
}

#[test]
fn it_grabs_channel_link() {
    let result = scrape_message("Check out this new game! https://kickstarter.com/ <#123456789>");

    assert!(result.is_some());
    if let Some((channel_id, link)) = result {
        assert_eq!(123456789, channel_id);
        assert_eq!("https://kickstarter.com/", link);
    }
}

#[test]
fn it_returns_none_if_no_link() {
    let result = scrape_message("Check out this new game! <#123456789>");
    assert!(result.is_none());
}

#[test]
fn it_returns_none_if_no_channel() {
    let result = scrape_message("Check out this new game! https://kickstarter.com/");
    assert!(result.is_none());
}

#[test]
fn mention_pattern_is_the_channel_mention() {
    assert_eq!(MENTION_PATTERN, r"<#(\d+)>");
    assert_eq!(MENTION_DIGITS, 1);
}

#[test]
fn mention_may_stand_before_the_link() {
    let result = scrape_message("<#42> look at https://example.org/a?b=c, please");
    assert_eq!(result, Some((42, "https://example.org/a?b=c")));
}

#[test]
fn first_link_is_taken() {
    let result = scrape_message("http://first.example/ then http://second.example/ <#7>");
    assert_eq!(result, Some((7, "http://first.example/")));
}

#[test]
fn first_mention_is_taken() {
    let result = scrape_message("<#1> <#2> http://a.example/");
    assert_eq!(result, Some((1, "http://a.example/")));
}

#[test]
fn link_needs_a_scheme() {
    assert_eq!(scrape_message("see example.org <#7>"), None);
}

#[test]
fn email_is_no_link() {
    assert_eq!(scrape_message("write to someone@example.org <#7>"), None);
}

#[test]
fn mention_needs_digits() {
    assert_eq!(scrape_message("http://a.example/ <#>"), None);
    assert_eq!(scrape_message("http://a.example/ <#abc>"), None);
    assert_eq!(scrape_message("http://a.example/ <@123>"), None);
    assert_eq!(scrape_message("http://a.example/ #123"), None);
}

#[test]
fn largest_channel_id_is_read() {
    let result = scrape_message("http://a.example/ <#18446744073709551615>");
    assert_eq!(result, Some((u64::MAX, "http://a.example/")));
}

#[test]
fn mention_that_overflows_gives_nothing() {
    assert_eq!(scrape_message("http://a.example/ <#18446744073709551616>"), None);
    // The first mention decides, also where a later one would do.
    assert_eq!(scrape_message("http://a.example/ <#18446744073709551616> <#5>"), None);
}

#[test]
fn mention_in_digits_of_another_script_gives_nothing() {
    assert_eq!(scrape_message("http://a.example/ <#\u{661}\u{662}\u{663}>"), None);
    assert_eq!(scrape_message("http://a.example/ <#\u{661}\u{662}\u{663}> <#5>"), None);
}

#[test]
fn link_is_part_of_the_text() {
    let text = "caf\u{e9} http://a.example/\u{fc}ber <#9> tail";
    let (id, link) = scrape_message(text).unwrap();
    assert_eq!(id, 9);
    assert_eq!(link, "http://a.example/\u{fc}ber");
    assert!(text.contains(link));
}

#[test]
fn empty_text_gives_nothing() {
    assert_eq!(scrape_message(""), None);
}

#[test]
fn target_is_selected_from_what_was_found() {
    let links = vec!["http://one.example/", "http://two.example/"];
    assert_eq!(select_target(&links, Some("15")), Some((15, "http://one.example/")));
    assert_eq!(select_target(&links, Some("015")), Some((15, "http://one.example/")));
    assert_eq!(select_target(&links, None), None);
    assert_eq!(select_target(&links, Some("")), None);
    assert_eq!(select_target(&links, Some("+15")), None);
    assert_eq!(select_target(&links, Some("1 5")), None);
    assert_eq!(select_target(&Vec::new(), Some("15")), None);
}

#[test]
fn postable_channels_are_a_set() {
    let channels = postable(&[1, 2, 3]);
    assert!(channels.contains(1));
    assert!(channels.contains(3));
    assert!(!channels.contains(4));
    assert!(!postable(&[]).contains(0));
}

#[test]
fn message_without_target_leads_to_nothing() {
    let channels = postable(&[123456789]);
    let (state, action) = normal_message_hook(
        &channels,
        RelayState::Idle,
        RelayEvent::Message("Check out this new game! <#123456789>".to_string()),
    );
    assert!(matches!(state, RelayState::Idle));
    assert!(matches!(action, RelayAction::Nothing));
}

#[test]
fn message_for_a_closed_channel_leads_to_nothing() {
    let channels = postable(&[1, 2]);
    let (state, action) = normal_message_hook(
        &channels,
        RelayState::Idle,
        RelayEvent::Message("https://kickstarter.com/ <#123456789>".to_string()),
    );
    assert!(matches!(state, RelayState::Idle));
    assert!(matches!(action, RelayAction::Nothing));
}

#[test]
fn other_link_is_sent_plain_at_once() {
    let channels = postable(&[123456789]);
    let (state, action) = normal_message_hook(
        &channels,
        RelayState::Idle,
        RelayEvent::Message(
            "Check out this new game! https://kickstarter.com/ <#123456789>".to_string(),
        ),
    );
    assert!(matches!(state, RelayState::Idle));
    match action {
        RelayAction::Send(message) => {
            assert_eq!(message.channel_id, 123456789);
            assert_eq!(message.content, "https://kickstarter.com/");
            assert!(message.embed.is_none());
        }
        other => panic!("expected a message, got {:?}", other),
    }
}

#[test]
fn campaign_link_is_fetched_and_sent_with_its_preview() {
    let channels = postable(&[55]);
    let text = format!("new one: {} <#55>", CAMPAIGN);
    let (state, action) =
        normal_message_hook(&channels, RelayState::Idle, RelayEvent::Message(text));
    match &state {
        RelayState::Fetching { channel_id, link } => {
            assert_eq!(*channel_id, 55);
            assert_eq!(link, CAMPAIGN);
        }
        other => panic!("expected a fetch, got {:?}", other),
    }
    match action {
        RelayAction::Get(request) => {
            assert_eq!(request.url, CAMPAIGN);
            assert_eq!(request.user_agent, APP_USER_AGENT);
        }
        other => panic!("expected a request, got {:?}", other),
    }

    let (state, action) =
        normal_message_hook(&channels, state, RelayEvent::Page(Ok(campaign_page())));
    assert!(matches!(state, RelayState::Idle));
    match action {
        RelayAction::Send(message) => {
            assert_eq!(message.channel_id, 55);
            assert_eq!(message.content, CAMPAIGN);
            let embed = message.embed.expect("a preview");
            assert_eq!(embed.title, "Union City Alliance");
            assert_eq!(embed.description, "A deckbuilding game");
            assert_eq!(embed.url, "https://www.kickstarter.com/projects/x/y");
            assert_eq!(embed.image, "https://example.org/image.jpg");
        }
        other => panic!("expected a message, got {:?}", other),
    }
}

#[test]
fn failed_fetch_sends_the_link_plain() {
    let channels = postable(&[55]);
    let state = RelayState::Fetching { channel_id: 55, link: CAMPAIGN.to_string() };
    let (state, action) =
        normal_message_hook(&channels, state, RelayEvent::Page(Err(transport_failure())));
    assert!(matches!(state, RelayState::Idle));
    match action {
        RelayAction::Send(message) => {
            assert_eq!(message.channel_id, 55);
            assert_eq!(message.content, CAMPAIGN);
            assert!(message.embed.is_none());
        }
        other => panic!("expected a message, got {:?}", other),
    }
}

#[test]
fn page_without_preview_sends_the_link_plain() {
    let channels = postable(&[55]);
    for page in [b"<html><body>nothing here</body></html>".to_vec(), vec![0xff, 0xfe]] {
        let state = RelayState::Fetching { channel_id: 55, link: CAMPAIGN.to_string() };
        let (state, action) = normal_message_hook(&channels, state, RelayEvent::Page(Ok(page)));
        assert!(matches!(state, RelayState::Idle));
        match action {
            RelayAction::Send(message) => {
                assert_eq!(message.content, CAMPAIGN);
                assert!(message.embed.is_none());
            }
            other => panic!("expected a message, got {:?}", other),
        }
    }
}

#[test]
fn page_for_another_link_gives_no_preview() {
    let channels = postable(&[55]);
    let state = RelayState::Fetching { channel_id: 55, link: "https://example.org/".to_string() };
    let (_, action) =
        normal_message_hook(&channels, state, RelayEvent::Page(Ok(campaign_page())));
    match action {
        RelayAction::Send(message) => {
            assert_eq!(message.content, "https://example.org/");
            assert!(message.embed.is_none());
        }
        other => panic!("expected a message, got {:?}", other),
    }
}

#[test]
fn events_out_of_turn_are_passed_over() {
    let channels = postable(&[55]);
    let (state, action) =
        normal_message_hook(&channels, RelayState::Idle, RelayEvent::Page(Ok(campaign_page())));
    assert!(matches!(state, RelayState::Idle));
    assert!(matches!(action, RelayAction::Nothing));

    let waiting = RelayState::Fetching { channel_id: 55, link: CAMPAIGN.to_string() };
    let (state, action) = normal_message_hook(
        &channels,
        waiting,
        RelayEvent::Message("http://a.example/ <#55>".to_string()),
    );
    match state {
        RelayState::Fetching { channel_id, link } => {
            assert_eq!(channel_id, 55);
            assert_eq!(link, CAMPAIGN);
        }
        other => panic!("expected to go on waiting, got {:?}", other),
    }
    assert!(matches!(action, RelayAction::Nothing));
}

#[test]
fn relay_begins_from_a_given_target() {
    let channels = postable(&[8]);
    let (state, action) = begin_relay(&channels, None);
    assert!(matches!(state, RelayState::Idle));
    assert!(matches!(action, RelayAction::Nothing));

    let (state, action) = begin_relay(&channels, Some((9, CAMPAIGN)));
    assert!(matches!(state, RelayState::Idle));
    assert!(matches!(action, RelayAction::Nothing));

    let (state, action) = begin_relay(&channels, Some((8, CAMPAIGN)));
    assert!(matches!(state, RelayState::Fetching { channel_id: 8, .. }));
    assert!(matches!(action, RelayAction::Get(_)));

    let (state, action) = begin_relay(&channels, Some((8, "ftp://files.example/")));
    assert!(matches!(state, RelayState::Idle));
    match action {
        RelayAction::Send(message) => {
            assert_eq!(message.channel_id, 8);
            assert_eq!(message.content, "ftp://files.example/");
            assert!(message.embed.is_none());
        }
        other => panic!("expected a message, got {:?}", other),
    }
}
