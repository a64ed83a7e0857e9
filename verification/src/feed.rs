//! Relaying of links found in chat messages.
//!
//! A message asks for a relay when it holds a URL and mentions a channel.
//! URLs are found by `linkify` and mentions by `regex`; what is done with
//! their findings is decided here.

pub mod decimal;
pub mod kickstarter;

use crate::feed::decimal::parse_decimal_u64;
use crate::feed::decimal::parse_u64;
use crate::feed::kickstarter::fetched_preview;
use crate::feed::kickstarter::is_kickstarter_link;
use crate::feed::kickstarter::EmbedInfo;
use crate::feed::kickstarter::EmbedInfoView;
use crate::feed::kickstarter::Fetch;
use crate::feed::kickstarter::FetchStep;
use crate::feed::kickstarter::PageRequest;
use crate::feed::kickstarter::PageRequestView;
use crate::feed::kickstarter::APP_USER_AGENT;
use crate::feed::kickstarter::MAX_PAGE_BYTES;
use std::collections::HashSet;
use vstd::prelude::*;
use vstd::std_specs::hash::group_hash_axioms;

verus! {

/// The regular expression of a channel mention: an opening angle bracket,
/// a hash sign, one or more digits, a closing angle bracket.
pub const MENTION_PATTERN: &'static str = "<#(\\d+)>";

/// The capture group of [`MENTION_PATTERN`] that holds the digits.
pub const MENTION_DIGITS: usize = 1;

/// The URLs that `linkify` finds in `text`, in the order in which it yields
/// them, which is from left to right. Only links of the kind URL are
/// listed, and a URL needs a scheme to be found.
pub uninterp spec fn url_links(text: Seq<char>) -> Seq<Seq<char>>;

/// What the capture group with the number `group` holds in the first match
/// of the regular expression `pattern` in `text`, as `regex` finds it.
/// `None` where `pattern` is not a regular expression that `regex` accepts,
/// where nothing in `text` matches, where the expression has no such group,
/// and where the group took no part in the match.
pub uninterp spec fn regex_capture(pattern: Seq<char>, text: Seq<char>, group: usize) -> Option<
    Seq<char>,
>;

/// `part` stands in `whole` as a run of consecutive characters.
pub open spec fn occurs_in(part: Seq<char>, whole: Seq<char>) -> bool {
    exists|start: int|
        0 <= start && start + part.len() <= whole.len() && #[trigger] whole.subrange(
            start,
            start + part.len(),
        ) == part
}

/// The target of a relay, given the URLs of a message and the digits of its
/// first channel mention.
///
/// Without a URL there is no target, whatever was mentioned. With one, the
/// target is the mentioned channel together with the first URL, provided
/// the digits are a numeral that fits in 64 bits.
pub open spec fn scrape(links: Seq<Seq<char>>, mention: Option<Seq<char>>) -> Option<
    (u64, Seq<char>),
> {
    if links.len() == 0 {
        None
    } else {
        match mention {
            Some(digits) => match parse_decimal_u64(digits) {
                Some(id) => Some((id, links[0])),
                None => None,
            },
            None => None,
        }
    }
}

/// Calls `linkify::LinkFinder::links` on `text`, with a finder restricted to
/// `LinkKind::Url`, and collects the text of each link.
///
/// Claimed, not proved: the result is what `url_links` names, and every
/// link is a slice of `text`.
#[verifier::external_body]
fn find_urls<'a>(text: &'a str) -> (links: Vec<&'a str>)
    ensures
        links.deep_view() == url_links(text@),
        forall|i: int| 0 <= i < links@.len() ==> occurs_in((#[trigger] links@[i])@, text@),
{
    let mut finder = linkify::LinkFinder::new();
    finder.kinds(&[linkify::LinkKind::Url]);
    finder.links(text).map(|link| link.as_str()).collect()
}

/// Compiles `pattern` with `regex::Regex::new`, searches `text` with
/// `Regex::captures` and takes the text of the group with `Captures::get`.
///
/// Claimed, not proved: the result is what `regex_capture` names.
#[verifier::external_body]
fn capture_group<'a>(pattern: &str, text: &'a str, group: usize) -> (found: Option<&'a str>)
    ensures
        found.deep_view() == regex_capture(pattern@, text@, group),
{
    let re = regex::Regex::new(pattern).ok()?;
    re.captures(text).and_then(|captures| captures.get(group)).map(|m| m.as_str())
}

/// Decides the target of a relay from what was found in a message: `links`
/// are its URLs from left to right, `mention` the digits of its first
/// channel mention.
pub fn select_target<'a>(links: &Vec<&'a str>, mention: Option<&str>) -> (r: Option<
    (u64, &'a str),
>)
    ensures
        r.deep_view() == scrape(links.deep_view(), mention.deep_view()),
        r matches Some((_, link)) ==> links@.len() > 0 && link == links@[0],
{
    if links.len() == 0 {
        return None;
    }
    let digits = match mention {
        Some(digits) => digits,
        None => {
            return None;
        },
    };
    match parse_u64(digits) {
        Some(id) => Some((id, links[0])),
        None => None,
    }
}

/// The target of the relay that the message `text` asks for, if it asks for
/// one.
pub open spec fn message_target(text: Seq<char>) -> Option<(u64, Seq<char>)> {
    scrape(url_links(text), regex_capture(MENTION_PATTERN@, text, MENTION_DIGITS))
}

/// The channel that the message `text` mentions: the number that the digits
/// of its first mention denote. There is none where nothing is mentioned,
/// and none where those digits are no numeral that fits in 64 bits.
pub open spec fn mentioned_channel(text: Seq<char>) -> Option<u64> {
    match regex_capture(MENTION_PATTERN@, text, MENTION_DIGITS) {
        Some(digits) => parse_decimal_u64(digits),
        None => None,
    }
}

/// A message without a URL has no target, whatever it mentions.
pub proof fn lemma_no_url_no_target(text: Seq<char>)
    requires
        url_links(text).len() == 0,
    ensures
        message_target(text) is None,
{
}

/// A message that mentions no channel has no target, whatever URLs it
/// holds.
pub proof fn lemma_no_mention_no_target(text: Seq<char>)
    requires
        mentioned_channel(text) is None,
    ensures
        message_target(text) is None,
{
}

/// A message with a URL and a mentioned channel has that channel and its
/// first URL as its target. Where in the text the two stand plays no part.
pub proof fn lemma_url_and_mention_give_target(text: Seq<char>)
    requires
        url_links(text).len() > 0,
        mentioned_channel(text) is Some,
    ensures
        message_target(text) == Some((mentioned_channel(text)->0, url_links(text)[0])),
{
}

/// Scrape the channel id and the link from a message.
///
/// The URLs are looked for first; the mention is only searched where there
/// is one. The result pairs the first URL with the mentioned channel,
/// whichever of the two stands first in the text.
pub fn scrape_message<'a>(text: &'a str) -> (r: Option<(u64, &'a str)>)
    ensures
        r.deep_view() == message_target(text@),
        r matches Some((_, link)) ==> occurs_in(link@, text@),
{
    let links = find_urls(text);
    if links.len() == 0 {
        return None;
    }
    let mention = capture_group(MENTION_PATTERN, text, MENTION_DIGITS);
    select_target(&links, mention)
}

/// The channels that links may be relayed into.
#[derive(Debug)]
pub struct PostableChannels {
    pub ids: HashSet<u64>,
}

impl View for PostableChannels {
    type V = Set<u64>;

    open spec fn view(&self) -> Set<u64> {
        self.ids@
    }
}

impl PostableChannels {
    /// Whether links may be relayed into the channel.
    pub fn contains(&self, channel_id: u64) -> (r: bool)
        ensures
            r == self@.contains(channel_id),
    {
        broadcast use group_hash_axioms;

        self.ids.contains(&channel_id)
    }
}

/// A message to send into a channel: the link as its text and, where the
/// link has one, the preview beside it.
#[derive(Debug)]
pub struct OutboundMessage {
    pub channel_id: u64,
    pub content: String,
    pub embed: Option<EmbedInfo>,
}

/// The mathematical value of an [`OutboundMessage`].
pub struct OutboundMessageView {
    pub channel_id: u64,
    pub content: Seq<char>,
    pub embed: Option<EmbedInfoView>,
}

impl View for OutboundMessage {
    type V = OutboundMessageView;

    open spec fn view(&self) -> OutboundMessageView {
        OutboundMessageView {
            channel_id: self.channel_id,
            content: self.content@,
            embed: match self.embed {
                Some(info) => Some(info@),
                None => None,
            },
        }
    }
}

/// How far the handling of one message has come.
#[derive(Debug)]
pub enum RelayState {
    /// Nothing is outstanding: the message is yet to come, or was dealt
    /// with.
    Idle,
    /// The page behind `link` was asked for, to be relayed into the channel
    /// `channel_id`.
    Fetching { channel_id: u64, link: String },
}

/// The mathematical value of a [`RelayState`].
pub enum RelayStateView {
    Idle,
    Fetching { channel_id: u64, link: Seq<char> },
}

impl View for RelayState {
    type V = RelayStateView;

    open spec fn view(&self) -> RelayStateView {
        match self {
            RelayState::Idle => RelayStateView::Idle,
            RelayState::Fetching { channel_id, link } => RelayStateView::Fetching {
                channel_id: *channel_id,
                link: link@,
            },
        }
    }
}

/// What happened.
#[derive(Debug)]
pub enum RelayEvent {
    /// A message came in: its text.
    Message(String),
    /// The request for a page has ended: with the bytes of the page, or
    /// with a failure.
    Page(Result<Vec<u8>, reqwest::Error>),
}

/// The mathematical value of a [`RelayEvent`]; of a page, its bytes, or
/// `None` for a request that failed.
pub enum RelayEventView {
    Message(Seq<char>),
    Page(Option<Seq<u8>>),
}

impl View for RelayEvent {
    type V = RelayEventView;

    open spec fn view(&self) -> RelayEventView {
        match self {
            RelayEvent::Message(text) => RelayEventView::Message(text@),
            RelayEvent::Page(Ok(html)) => RelayEventView::Page(Some(html@)),
            RelayEvent::Page(Err(_)) => RelayEventView::Page(None),
        }
    }
}

/// What the caller is to do next.
#[derive(Debug)]
pub enum RelayAction {
    /// Nothing: the message asks for no relay, or none is outstanding.
    Nothing,
    /// Request the page, and come back with `RelayEvent::Page`.
    Get(PageRequest),
    /// Send the message.
    Send(OutboundMessage),
}

/// The mathematical value of a [`RelayAction`].
pub enum RelayActionView {
    Nothing,
    Get(PageRequestView),
    Send(OutboundMessageView),
}

impl View for RelayAction {
    type V = RelayActionView;

    open spec fn view(&self) -> RelayActionView {
        match self {
            RelayAction::Nothing => RelayActionView::Nothing,
            RelayAction::Get(request) => RelayActionView::Get(request@),
            RelayAction::Send(message) => RelayActionView::Send(message@),
        }
    }
}

/// What a message with the target `target` leads to.
///
/// Without a target, or with one that is not among the channels `postable`,
/// nothing is done. Else a link of the platform has its page requested, and
/// any other link is sent on as it is.
pub open spec fn relay_start(postable: Set<u64>, target: Option<(u64, Seq<char>)>) -> (
    RelayStateView,
    RelayActionView,
) {
    match target {
        Some((channel_id, link)) => if !postable.contains(channel_id) {
            (RelayStateView::Idle, RelayActionView::Nothing)
        } else if is_kickstarter_link(link) {
            (
                RelayStateView::Fetching { channel_id, link },
                RelayActionView::Get(PageRequestView { url: link, user_agent: APP_USER_AGENT@ }),
            )
        } else {
            (
                RelayStateView::Idle,
                RelayActionView::Send(OutboundMessageView { channel_id, content: link, embed: None }),
            )
        },
        None => (RelayStateView::Idle, RelayActionView::Nothing),
    }
}

/// The state and the action that follow on an event.
///
/// A message is looked at only where nothing is outstanding, and a page
/// only where one was asked for. When the page has come, or has failed to,
/// the link is sent: with its preview where the page gave one, else alone.
pub open spec fn relay_step(postable: Set<u64>, state: RelayStateView, event: RelayEventView) -> (
    RelayStateView,
    RelayActionView,
) {
    match state {
        RelayStateView::Idle => match event {
            RelayEventView::Message(text) => relay_start(postable, message_target(text)),
            RelayEventView::Page(_) => (RelayStateView::Idle, RelayActionView::Nothing),
        },
        RelayStateView::Fetching { channel_id, link } => match event {
            RelayEventView::Message(_) => (state, RelayActionView::Nothing),
            RelayEventView::Page(page) => (
                RelayStateView::Idle,
                RelayActionView::Send(
                    OutboundMessageView {
                        channel_id,
                        content: link,
                        embed: fetched_preview(link, page),
                    },
                ),
            ),
        },
    }
}

/// A message whose target is among the channels `postable` has exactly one
/// message sent for it, into that channel and with the link as its text:
/// at once, or else after the page was asked for, whatever came of that.
pub proof fn lemma_one_message_per_relay(
    postable: Set<u64>,
    text: Seq<char>,
    page: Option<Seq<u8>>,
)
    requires
        message_target(text) matches Some((channel_id, _)) && postable.contains(channel_id),
    ensures
        ({
            let (channel_id, link) = message_target(text)->0;
            let first = relay_step(postable, RelayStateView::Idle, RelayEventView::Message(text));
            let second = relay_step(postable, first.0, RelayEventView::Page(page));
            match first.1 {
                RelayActionView::Send(message) => {
                    &&& first.0 is Idle
                    &&& message.channel_id == channel_id
                    &&& message.content == link
                    &&& second.1 is Nothing
                },
                RelayActionView::Get(request) => {
                    &&& request.url == link
                    &&& second.0 is Idle
                    &&& second.1 matches RelayActionView::Send(message)
                    &&& message.channel_id == channel_id
                    &&& message.content == link
                },
                RelayActionView::Nothing => false,
            }
        }),
{
}

/// A message without a target, or with one outside the channels `postable`,
/// leads to nothing: no request and no message.
pub proof fn lemma_no_relay_where_not_postable(postable: Set<u64>, text: Seq<char>)
    requires
        message_target(text) matches Some((channel_id, _)) ==> !postable.contains(channel_id),
    ensures
        relay_step(postable, RelayStateView::Idle, RelayEventView::Message(text)) == (
            RelayStateView::Idle,
            RelayActionView::Nothing,
        ),
{
}

/// Decides what a message leads to, given the target that was scraped from
/// it.
pub fn begin_relay(postable: &PostableChannels, target: Option<(u64, &str)>) -> (r: (
    RelayState,
    RelayAction,
))
    ensures
        (r.0@, r.1@) == relay_start(postable@, target.deep_view()),
{
    let (channel_id, link) = match target {
        Some(found) => found,
        None => {
            return (RelayState::Idle, RelayAction::Nothing);
        },
    };
    if !postable.contains(channel_id) {
        return (RelayState::Idle, RelayAction::Nothing);
    }
    match EmbedInfo::from_url(link, Fetch::NotStarted) {
        Ok(FetchStep::Get(request)) => (
            RelayState::Fetching { channel_id, link: link.to_owned() },
            RelayAction::Get(request),
        ),
        Ok(FetchStep::Done(info)) => (
            RelayState::Idle,
            RelayAction::Send(
                OutboundMessage { channel_id, content: link.to_owned(), embed: Some(info) },
            ),
        ),
        Err(_) => (
            RelayState::Idle,
            RelayAction::Send(OutboundMessage { channel_id, content: link.to_owned(), embed: None }),
        ),
    }
}

/// Handles one event in the life of a message that is not a command.
///
/// Each message starts in `RelayState::Idle` with `RelayEvent::Message`.
/// The caller does what the action says and, after `RelayAction::Get`,
/// comes back with the outcome of the request.
pub fn normal_message_hook(postable: &PostableChannels, state: RelayState, event: RelayEvent) -> (r:
    (RelayState, RelayAction))
    requires
        event matches RelayEvent::Page(Ok(html)) ==> html@.len() <= MAX_PAGE_BYTES,
    ensures
        (r.0@, r.1@) == relay_step(postable@, state@, event@),
{
    match state {
        RelayState::Idle => match event {
            RelayEvent::Message(text) => begin_relay(postable, scrape_message(text.as_str())),
            RelayEvent::Page(_) => (RelayState::Idle, RelayAction::Nothing),
        },
        RelayState::Fetching { channel_id, link } => match event {
            RelayEvent::Message(_) => (
                RelayState::Fetching { channel_id, link },
                RelayAction::Nothing,
            ),
            RelayEvent::Page(page) => {
                let fetch = match page {
                    Ok(html) => Fetch::Body(html),
                    Err(error) => Fetch::Failed(error),
                };
                match EmbedInfo::from_url(link.as_str(), fetch) {
                    Ok(FetchStep::Done(info)) => (
                        RelayState::Idle,
                        RelayAction::Send(
                            OutboundMessage { channel_id, content: link, embed: Some(info) },
                        ),
                    ),
                    Ok(FetchStep::Get(request)) => (
                        RelayState::Fetching { channel_id, link },
                        RelayAction::Get(request),
                    ),
                    Err(_) => (
                        RelayState::Idle,
                        RelayAction::Send(OutboundMessage { channel_id, content: link, embed: None }),
                    ),
                }
            },
        },
    }
}

} // verus!
