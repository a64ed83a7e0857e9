//! Preview data of a Kickstarter campaign page.
//!
//! A link is first tested against the origin of the platform. For a link
//! that passes, the caller requests the page and hands back what came of
//! it; the page is read by `select`, and the preview is put together from
//! its `<meta>` elements.

use crate::text::same_text;
use crate::text::starts_with;
use vstd::prelude::*;
use vstd::utf8::valid_utf8;

verus! {

/// What a link must begin with to count as a campaign link.
pub const KICKSTARTER_ORIGIN: &'static str = "https://www.kickstarter.com";

/// The user agent to request a page with: that of a browser, so that the
/// platform does not take the request for an automation tool.
pub const APP_USER_AGENT: &'static str =
    "Mozilla/5.0 (Windows NT 6.3; WOW64) AppleWebKit/537.36 (KHTML, like Gecko) Chrome/59.0.3071.115 Safari/537.36";

/// The name of the elements that carry preview data.
pub const META_ELEMENT: &'static str = "meta";

/// The attribute that says which datum a `<meta>` element carries.
pub const PROPERTY_ATTRIBUTE: &'static str = "property";

/// The attribute that holds the datum.
pub const CONTENT_ATTRIBUTE: &'static str = "content";

/// The property that carries the title of a campaign.
pub const OG_TITLE: &'static str = "og:title";

/// The property that carries its description.
pub const OG_DESCRIPTION: &'static str = "og:description";

/// The property that carries its canonical URL.
pub const OG_URL: &'static str = "og:url";

/// The property that carries the URL of its image.
pub const OG_IMAGE: &'static str = "og:image";

/// The longest page, in bytes, that is handed to the HTML reader, whose
/// buffers count their length in 32 bits.
pub const MAX_PAGE_BYTES: usize = 0x4000_0000;

/// `std::io::Error`, as the HTML reader returns it. Nothing is known of
/// what is inside; it is handed on as it came.
#[verifier::external_type_specification]
#[verifier::external_body]
pub struct ExIoError(std::io::Error);

/// `reqwest::Error`, as the caller's request for a page ends with it.
/// Nothing is known of what is inside; it is handed on as it came.
#[verifier::external_type_specification]
#[verifier::external_body]
pub struct ExReqwestError(reqwest::Error);

/// Why a link gave no preview.
#[derive(Debug)]
pub enum EmbedInfoError {
    /// The link does not begin with [`KICKSTARTER_ORIGIN`].
    NotKickstarter,
    /// The page was read and none of the four fields was found in it.
    EmptyDoc,
    /// The request for the page failed.
    Reqwest(reqwest::Error),
    /// The page could not be read as a document.
    Io(std::io::Error),
}

impl EmbedInfoError {
    /// The text that describes the error.
    pub open spec fn message_text(self) -> Seq<char> {
        match self {
            EmbedInfoError::NotKickstarter => "Is not a Kickstarter link"@,
            EmbedInfoError::EmptyDoc => "Problem scraping HTML"@,
            EmbedInfoError::Reqwest(_) => "Reqwest Error"@,
            EmbedInfoError::Io(_) => "I/O Error"@,
        }
    }

    /// Describes the error in a few words.
    pub fn message(&self) -> (r: String)
        ensures
            r@ == self.message_text(),
    {
        match self {
            EmbedInfoError::NotKickstarter => "Is not a Kickstarter link".to_owned(),
            EmbedInfoError::EmptyDoc => "Problem scraping HTML".to_owned(),
            EmbedInfoError::Reqwest(_) => "Reqwest Error".to_owned(),
            EmbedInfoError::Io(_) => "I/O Error".to_owned(),
        }
    }
}

/// The four preview fields of a campaign page. A field that the page does
/// not give is the empty string.
#[derive(Debug)]
pub struct EmbedInfo {
    pub title: String,
    pub description: String,
    pub url: String,
    pub image: String,
}

/// The mathematical value of an [`EmbedInfo`].
pub struct EmbedInfoView {
    pub title: Seq<char>,
    pub description: Seq<char>,
    pub url: Seq<char>,
    pub image: Seq<char>,
}

impl EmbedInfoView {
    /// All four fields are the empty string.
    pub open spec fn is_empty(self) -> bool {
        &&& self.title.len() == 0
        &&& self.description.len() == 0
        &&& self.url.len() == 0
        &&& self.image.len() == 0
    }
}

impl View for EmbedInfo {
    type V = EmbedInfoView;

    open spec fn view(&self) -> EmbedInfoView {
        EmbedInfoView {
            title: self.title@,
            description: self.description@,
            url: self.url@,
            image: self.image@,
        }
    }
}

/// A `<meta>` element of a page, as far as the preview needs it: the values
/// of its attributes `property` and `content`, each `None` where the
/// element has no such attribute.
#[derive(Debug)]
pub struct MetaTag {
    pub property: Option<String>,
    pub content: Option<String>,
}

/// The mathematical value of a [`MetaTag`].
pub struct MetaTagView {
    pub property: Option<Seq<char>>,
    pub content: Option<Seq<char>>,
}

impl MetaTagView {
    /// The element carries the datum called `name`: it has a `content`, and
    /// its `property` is `name`.
    pub open spec fn gives(self, name: Seq<char>) -> bool {
        self.content is Some && self.property == Some(name)
    }
}

impl DeepView for MetaTag {
    type V = MetaTagView;

    open spec fn deep_view(&self) -> MetaTagView {
        MetaTagView { property: self.property.deep_view(), content: self.content.deep_view() }
    }
}

impl View for MetaTag {
    type V = MetaTagView;

    open spec fn view(&self) -> MetaTagView {
        self.deep_view()
    }
}

/// The content of the first element of `tags` that gives `name`; the empty
/// string where none does.
pub open spec fn property_content(tags: Seq<MetaTagView>, name: Seq<char>) -> Seq<char>
    decreases tags.len(),
{
    if tags.len() == 0 {
        Seq::empty()
    } else if tags[0].gives(name) {
        tags[0].content->0
    } else {
        property_content(tags.drop_first(), name)
    }
}

/// The preview that a page with the elements `tags` gives.
pub open spec fn page_info(tags: Seq<MetaTagView>) -> EmbedInfoView {
    EmbedInfoView {
        title: property_content(tags, OG_TITLE@),
        description: property_content(tags, OG_DESCRIPTION@),
        url: property_content(tags, OG_URL@),
        image: property_content(tags, OG_IMAGE@),
    }
}

/// Where an element gives `name` and none before it does, its content is
/// the one found.
pub proof fn lemma_first_giving_tag_is_found(tags: Seq<MetaTagView>, name: Seq<char>, i: int)
    requires
        0 <= i < tags.len(),
        tags[i].gives(name),
        forall|j: int| 0 <= j < i ==> !(#[trigger] tags[j]).gives(name),
    ensures
        property_content(tags, name) == tags[i].content->0,
    decreases i,
{
    if i > 0 {
        let rest = tags.drop_first();
        assert(!tags[0].gives(name));
        assert forall|j: int| 0 <= j < i - 1 implies !(#[trigger] rest[j]).gives(name) by {
            assert(rest[j] == tags[j + 1]);
        }
        lemma_first_giving_tag_is_found(rest, name, i - 1);
    }
}

/// Where no element gives `name`, the empty string is found.
pub proof fn lemma_missing_property_is_empty(tags: Seq<MetaTagView>, name: Seq<char>)
    requires
        forall|j: int| 0 <= j < tags.len() ==> !(#[trigger] tags[j]).gives(name),
    ensures
        property_content(tags, name).len() == 0,
    decreases tags.len(),
{
    if tags.len() > 0 {
        let rest = tags.drop_first();
        assert(!tags[0].gives(name));
        assert forall|j: int| 0 <= j < rest.len() implies !(#[trigger] rest[j]).gives(name) by {
            assert(rest[j] == tags[j + 1]);
        }
        lemma_missing_property_is_empty(rest, name);
    }
}

/// Looks for the datum called `name` among the `<meta>` elements of a page.
pub fn find_property(tags: &Vec<MetaTag>, name: &str) -> (r: String)
    ensures
        r@ == property_content(tags.deep_view(), name@),
{
    let mut i: usize = 0;
    assert(tags.deep_view().skip(0) =~= tags.deep_view());
    while i < tags.len()
        invariant
            i <= tags.len(),
            property_content(tags.deep_view(), name@) == property_content(
                tags.deep_view().skip(i as int),
                name@,
            ),
        decreases tags.len() - i,
    {
        let tag = &tags[i];
        proof {
            let rest = tags.deep_view().skip(i as int);
            assert(rest[0] == tag.deep_view());
            assert(rest.drop_first() =~= tags.deep_view().skip(i + 1));
        }
        match &tag.content {
            Some(content) => match &tag.property {
                Some(property) => {
                    if same_text(property.as_str(), name) {
                        return content.clone();
                    }
                },
                None => {},
            },
            None => {},
        }
        i = i + 1;
    }
    String::new()
}

/// Puts the preview together from the `<meta>` elements of a page.
pub fn embed_info(tags: &Vec<MetaTag>) -> (r: EmbedInfo)
    ensures
        r@ == page_info(tags.deep_view()),
{
    EmbedInfo {
        title: find_property(tags, OG_TITLE),
        description: find_property(tags, OG_DESCRIPTION),
        url: find_property(tags, OG_URL),
        image: find_property(tags, OG_IMAGE),
    }
}

/// The elements called `element` of the document that `select` reads from
/// the bytes `html`, in the order of the document; of each, the values of
/// its attributes `key` and `value`. It says nothing where `select` reads
/// no document from `html`.
pub uninterp spec fn html_elements(
    html: Seq<u8>,
    element: Seq<char>,
    key: Seq<char>,
    value: Seq<char>,
) -> Seq<MetaTagView>;

/// Reads `html` with `select::document::Document::from_read`, lists the
/// elements called `element` with `Document::find`, and takes the two
/// attributes of each with `Node::attr`.
///
/// Claimed, not proved: a document is read exactly from valid UTF-8, and
/// what is listed is what `html_elements` names. Longer input than
/// [`MAX_PAGE_BYTES`] is kept out, as the reader's buffers cannot hold more
/// than 32 bits count. The reader walks the document by recursion: like
/// memory, the stack that a deeply nested page takes is not accounted for.
#[verifier::external_body]
fn read_elements(html: &[u8], element: &str, key: &str, value: &str) -> (r: Result<
    Vec<MetaTag>,
    std::io::Error,
>)
    requires
        html@.len() <= MAX_PAGE_BYTES,
    ensures
        r is Ok <==> valid_utf8(html@),
        r matches Ok(tags) ==> tags.deep_view() == html_elements(html@, element@, key@, value@),
{
    let document = select::document::Document::from_read(html)?;
    let found = document.find(select::predicate::Name(element));
    Ok(
        found.map(
            |node|
                MetaTag {
                    property: node.attr(key).map(String::from),
                    content: node.attr(value).map(String::from),
                },
        ).collect(),
    )
}

/// The `<meta>` elements of a page.
pub open spec fn page_tags(html: Seq<u8>) -> Seq<MetaTagView> {
    html_elements(html, META_ELEMENT@, PROPERTY_ATTRIBUTE@, CONTENT_ATTRIBUTE@)
}

/// Whether `r` is what the page `html` comes to: an error where it is not
/// valid UTF-8 or gives none of the four fields, else its preview.
pub open spec fn is_page_result(html: Seq<u8>, r: Result<EmbedInfo, EmbedInfoError>) -> bool {
    if !valid_utf8(html) {
        r matches Err(EmbedInfoError::Io(_))
    } else if page_info(page_tags(html)).is_empty() {
        r matches Err(EmbedInfoError::EmptyDoc)
    } else {
        r matches Ok(info) && info@ == page_info(page_tags(html))
    }
}

/// Lists the `<meta>` elements of a page.
pub fn meta_tags(html: &[u8]) -> (r: Result<Vec<MetaTag>, EmbedInfoError>)
    requires
        html@.len() <= MAX_PAGE_BYTES,
    ensures
        valid_utf8(html@) ==> (r matches Ok(tags) && tags.deep_view() == page_tags(html@)),
        !valid_utf8(html@) ==> r matches Err(EmbedInfoError::Io(_)),
{
    match read_elements(html, META_ELEMENT, PROPERTY_ATTRIBUTE, CONTENT_ATTRIBUTE) {
        Ok(tags) => Ok(tags),
        Err(e) => Err(EmbedInfoError::Io(e)),
    }
}

/// Whether a link begins with the origin of the platform.
pub open spec fn is_kickstarter_link(link: Seq<char>) -> bool {
    KICKSTARTER_ORIGIN@.is_prefix_of(link)
}

/// Whether a link begins with the origin of the platform.
pub fn is_kickstarter(link: &str) -> (r: bool)
    ensures
        r == is_kickstarter_link(link@),
{
    starts_with(link, KICKSTARTER_ORIGIN)
}

/// The preview that the page `html` gives: none where it is not valid UTF-8
/// or gives none of the four fields.
pub open spec fn page_preview(html: Seq<u8>) -> Option<EmbedInfoView> {
    if valid_utf8(html) && !page_info(page_tags(html)).is_empty() {
        Some(page_info(page_tags(html)))
    } else {
        None
    }
}

/// The preview that a link is sent with after its page came, or failed to
/// come (`None`): that of the page, where the link is one of the platform.
pub open spec fn fetched_preview(link: Seq<char>, page: Option<Seq<u8>>) -> Option<EmbedInfoView> {
    match page {
        Some(html) => if is_kickstarter_link(link) {
            page_preview(html)
        } else {
            None
        },
        None => None,
    }
}

/// A request for a page.
#[derive(Debug)]
pub struct PageRequest {
    pub url: String,
    pub user_agent: String,
}

/// The mathematical value of a [`PageRequest`].
pub struct PageRequestView {
    pub url: Seq<char>,
    pub user_agent: Seq<char>,
}

impl View for PageRequest {
    type V = PageRequestView;

    open spec fn view(&self) -> PageRequestView {
        PageRequestView { url: self.url@, user_agent: self.user_agent@ }
    }
}

/// What has come of the request for a page so far.
#[derive(Debug)]
pub enum Fetch {
    /// Nothing has been requested.
    NotStarted,
    /// The page was received: its bytes.
    Body(Vec<u8>),
    /// The request failed.
    Failed(reqwest::Error),
}

/// What is next on the way from a link to its preview.
#[derive(Debug)]
pub enum FetchStep {
    /// The page is to be requested, once, and `from_url` called again with
    /// the outcome.
    Get(PageRequest),
    /// The preview.
    Done(EmbedInfo),
}

/// Whether `r` is the answer to the link and to what came of its request.
///
/// A link that does not begin with the origin of the platform is an error
/// whatever else is known, so that no request goes out for it. For a link
/// that does: before the request, the request is the answer; after a
/// failed one, its error; after a page, what the page comes to.
pub open spec fn is_fetch_result(
    link: Seq<char>,
    fetch: Fetch,
    r: Result<FetchStep, EmbedInfoError>,
) -> bool {
    if !is_kickstarter_link(link) {
        r matches Err(EmbedInfoError::NotKickstarter)
    } else {
        match fetch {
            Fetch::NotStarted => {
                &&& r matches Ok(FetchStep::Get(request))
                &&& request@ == PageRequestView { url: link, user_agent: APP_USER_AGENT@ }
            },
            Fetch::Failed(error) => r matches Err(EmbedInfoError::Reqwest(e)) && e == error,
            Fetch::Body(html) => match r {
                Ok(FetchStep::Done(info)) => is_page_result(html@, Ok(info)),
                Ok(FetchStep::Get(_)) => false,
                Err(e) => is_page_result(html@, Err(e)),
            },
        }
    }
}

/// A link that does not begin with the origin of the platform is refused
/// at every step: its page is never asked for, and no page that is handed
/// in is read for it.
pub proof fn lemma_other_link_is_never_requested(
    link: Seq<char>,
    fetch: Fetch,
    r: Result<FetchStep, EmbedInfoError>,
)
    requires
        !is_kickstarter_link(link),
        is_fetch_result(link, fetch, r),
    ensures
        r matches Err(EmbedInfoError::NotKickstarter),
{
}

/// Asked twice about the same link with the same page, `from_url` gives the
/// same preview, or fails both times.
pub proof fn lemma_same_page_same_preview(
    link: Seq<char>,
    first: Fetch,
    second: Fetch,
    r1: Result<FetchStep, EmbedInfoError>,
    r2: Result<FetchStep, EmbedInfoError>,
)
    requires
        first matches Fetch::Body(a) && second matches Fetch::Body(b) && a@ == b@,
        is_fetch_result(link, first, r1),
        is_fetch_result(link, second, r2),
    ensures
        r1 is Ok <==> r2 is Ok,
        r1 matches Ok(FetchStep::Done(i1)) ==> (r2 matches Ok(FetchStep::Done(i2)) && i1@ == i2@),
{
}

impl EmbedInfo {
    /// If the EmbedInfo is empty
    pub fn is_empty(&self) -> (r: bool)
        ensures
            r == self@.is_empty(),
    {
        self.title.as_str().is_empty() && self.description.as_str().is_empty()
            && self.url.as_str().is_empty() && self.image.as_str().is_empty()
    }

    /// The preview that a page with the elements `tags` gives, unless it is
    /// empty.
    pub fn from_tags(tags: &Vec<MetaTag>) -> (r: Result<EmbedInfo, EmbedInfoError>)
        ensures
            page_info(tags.deep_view()).is_empty() ==> r matches Err(EmbedInfoError::EmptyDoc),
            !page_info(tags.deep_view()).is_empty() ==> (r matches Ok(info) && info@ == page_info(
                tags.deep_view(),
            )),
    {
        let info = embed_info(tags);
        if info.is_empty() {
            return Err(EmbedInfoError::EmptyDoc);
        }
        Ok(info)
    }

    /// Reads the preview from the bytes of a page.
    pub fn from_page(html: &[u8]) -> (r: Result<EmbedInfo, EmbedInfoError>)
        requires
            html@.len() <= MAX_PAGE_BYTES,
        ensures
            is_page_result(html@, r),
    {
        match meta_tags(html) {
            Ok(tags) => EmbedInfo::from_tags(&tags),
            Err(e) => Err(e),
        }
    }

    /// Build the preview of a Kickstarter URL, one step at a time.
    ///
    /// The first call has `Fetch::NotStarted`. Where it answers
    /// `FetchStep::Get`, the caller makes that request and calls again with
    /// the body or the failure.
    pub fn from_url(link: &str, fetch: Fetch) -> (r: Result<FetchStep, EmbedInfoError>)
        requires
            fetch matches Fetch::Body(html) ==> html@.len() <= MAX_PAGE_BYTES,
        ensures
            is_fetch_result(link@, fetch, r),
    {
        if !is_kickstarter(link) {
            return Err(EmbedInfoError::NotKickstarter);
        }
        match fetch {
            Fetch::NotStarted => Ok(
                FetchStep::Get(
                    PageRequest { url: link.to_owned(), user_agent: APP_USER_AGENT.to_owned() },
                ),
            ),
            Fetch::Failed(error) => Err(EmbedInfoError::Reqwest(error)),
            Fetch::Body(html) => match EmbedInfo::from_page(html.as_slice()) {
                Ok(info) => Ok(FetchStep::Done(info)),
                Err(e) => Err(e),
            },
        }
    }
}

} // verus!
