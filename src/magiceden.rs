use vstd::prelude::*;
use vstd::string::StringSliceAdditionalSpecFns;

verus! {

/// The page that lists every collection of the marketplace.
pub const LISTING_URL: &'static str = "https://api-mainnet.magiceden.io/all_collections?nowait=true/";

/// The collection listing as the marketplace serves it: JSON text.
pub struct CollectionsItem {
    pub collections: String,
}

/// Why a fetched listing could not be turned into a snapshot file.
pub enum SnapshotError {
    /// serde_json does not parse the listing into a JSON value.
    Malformed,
}

#[verifier::external_type_specification]
#[verifier::external_body]
pub struct ExJsonError(serde_json::Error);

/// The text of the first `pre` element of the HTML document `html`, if it
/// has one.
pub uninterp spec fn pre_text_of(html: Seq<char>) -> Option<Seq<char>>;

/// Whether serde_json parses `s` into a `serde_json::Value`.
pub uninterp spec fn is_json_text(s: Seq<char>) -> bool;

/// The indented JSON text that serde_json writes for the value it parses
/// from `s`.
pub uninterp spec fn pretty_of(s: Seq<char>) -> Seq<char>;

/// Whether `c` has the Unicode White_Space property.
pub open spec fn is_white_space(c: char) -> bool {
    ('\u{9}' <= c && c <= '\u{d}') || c == ' ' || c == '\u{85}' || c == '\u{a0}'
        || c == '\u{1680}' || ('\u{2000}' <= c && c <= '\u{200a}') || c == '\u{2028}'
        || c == '\u{2029}' || c == '\u{202f}' || c == '\u{205f}' || c == '\u{3000}'
}

/// How many white space characters open `s`.
pub open spec fn leading_white_space(s: Seq<char>) -> nat
    decreases s.len(),
{
    if s.len() > 0 && is_white_space(s[0]) {
        1 + leading_white_space(s.drop_first())
    } else {
        0
    }
}

/// How many white space characters close `s`.
pub open spec fn trailing_white_space(s: Seq<char>) -> nat
    decreases s.len(),
{
    if s.len() > 0 && is_white_space(s.last()) {
        1 + trailing_white_space(s.drop_last())
    } else {
        0
    }
}

/// `s` without its leading and trailing white space.
pub open spec fn trimmed(s: Seq<char>) -> Seq<char> {
    let start = leading_white_space(s);
    if start == s.len() {
        Seq::empty()
    } else {
        s.subrange(start as int, s.len() - trailing_white_space(s))
    }
}

/// Relies on select's `Document::from`, `Document::find` with the `Name`
/// predicate and `Node::text`: the text of the first `pre` element, which
/// depends on the document alone. `Document::from` panics on a text of more
/// than `u32::MAX` bytes, which `requires` leaves out.
#[verifier::external_body]
fn first_pre_text(html: &str) -> (r: Option<String>)
    requires
        html.spec_bytes().len() <= u32::MAX,
    ensures
        match r {
            Some(t) => pre_text_of(html@) == Some(t@),
            None => pre_text_of(html@) is None,
        },
{
    let document = select::document::Document::from(html);
    let found = document.find(select::predicate::Name("pre")).next();
    found.map(|node| node.text())
}

/// Relies on `str::trim`: the text without the leading and trailing
/// characters that have the Unicode White_Space property.
#[verifier::external_body]
fn trim_text(s: &str) -> (r: String)
    ensures
        r@ == trimmed(s@),
{
    s.trim().to_string()
}

/// Relies on `serde_json::from_str` into a `serde_json::Value`, then
/// `serde_json::to_string_pretty` of that value: the first fails exactly on
/// text it does not parse, the second does not fail on a `Value`, and the
/// output depends on the text alone.
#[verifier::external_body]
fn pretty_json_text(text: &str) -> (r: Result<String, serde_json::Error>)
    ensures
        r is Ok == is_json_text(text@),
        r matches Ok(t) ==> t@ == pretty_of(text@),
{
    serde_json::from_str::<serde_json::Value>(text).and_then(|v| serde_json::to_string_pretty(&v))
}

/// The label of this source.
pub fn spider_name() -> (r: String)
    ensures
        r@ == "magicspider"@,
{
    "magicspider".to_owned()
}

/// The pages a crawl of this source starts from: the listing page alone.
pub fn start_urls() -> (r: Vec<String>)
    ensures
        r@.len() == 1,
        r@[0]@ == LISTING_URL@,
{
    let mut urls: Vec<String> = Vec::new();
    urls.push(LISTING_URL.to_owned());
    urls
}

/// The records of a listing page whose `pre` element holds `listing` (already
/// trimmed), and the pages it leads to: none, the listing being one page.
pub fn listing_records(listing: Option<String>) -> (r: (Vec<CollectionsItem>, Vec<String>))
    ensures
        match listing {
            Some(t) => r.0@.len() == 1 && r.0@[0].collections == t,
            None => r.0@.len() == 0,
        },
        r.1@.len() == 0,
{
    let mut items: Vec<CollectionsItem> = Vec::new();
    match listing {
        Some(t) => items.push(CollectionsItem { collections: t }),
        None => {},
    }
    (items, Vec::new())
}

/// Extracts the records of a fetched listing page from its HTML source: the
/// trimmed text of its first `pre` element, if there is one.
pub fn scrape_page(html: &str) -> (r: (Vec<CollectionsItem>, Vec<String>))
    requires
        html.spec_bytes().len() <= u32::MAX,
    ensures
        match pre_text_of(html@) {
            Some(t) => r.0@.len() == 1 && r.0@[0].collections@ == trimmed(t),
            None => r.0@.len() == 0,
        },
        r.1@.len() == 0,
{
    let listing = match first_pre_text(html) {
        Some(text) => Some(trim_text(text.as_str())),
        None => None,
    };
    listing_records(listing)
}

/// The text of the snapshot file for a fetched listing: the listing as
/// indented JSON. A listing that serde_json does not parse is refused.
pub fn snapshot_text(item: &CollectionsItem) -> (r: Result<String, SnapshotError>)
    ensures
        r is Ok <==> is_json_text(item.collections@),
        r matches Ok(t) ==> t@ == pretty_of(item.collections@),
        r matches Err(e) ==> e == SnapshotError::Malformed,
{
    match pretty_json_text(item.collections.as_str()) {
        Ok(text) => Ok(text),
        Err(_) => Err(SnapshotError::Malformed),
    }
}

} // verus!
