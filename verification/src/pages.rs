//! Static pages of the public site: which page type each one is and where
//! its rendered file goes.

use vstd::prelude::*;
use vstd::string::StringExecFns;
use crate::json::{member_text, text_member};
use crate::text::{decimal, push_decimal};
use crate::words::{count_words, word_count};

verus! {

/// One demo page.
#[derive(Debug, Clone)]
pub struct DemoPage {
    pub slug: String,
    pub title: String,
}

/// The demo pages of the site.
#[derive(Debug, Clone)]
pub struct DemoConfig {
    pub pages: Vec<DemoPage>,
}

/// One feature page.
#[derive(Debug, Clone)]
pub struct FeaturePage {
    pub slug: String,
    pub title: String,
}

/// Page type of a demo page with the given slug.
pub open spec fn demo_page_type(slug: Seq<char>) -> Seq<char> {
    "demo-page-"@ + slug
}

/// File that a demo page with the given slug is rendered to.
pub open spec fn demo_output_path(slug: Seq<char>) -> Seq<char> {
    if slug.len() == 0 {
        "demo/index.html"@
    } else {
        "demo/"@ + slug + "/index.html"@
    }
}

/// Page type of a feature page with the given slug.
pub open spec fn feature_page_type(slug: Seq<char>) -> Seq<char> {
    "feature-page-"@ + slug
}

/// File that a feature page with the given slug is rendered to.
pub open spec fn feature_output_path(slug: Seq<char>) -> Seq<char> {
    "features/"@ + slug + "/index.html"@
}

/// Prepares one demo page for rendering.
pub struct DemoPagePrerenderer {
    page: DemoPage,
    page_type_id: String,
}

impl DemoPagePrerenderer {
    /// The slug of the page.
    pub closed spec fn slug(&self) -> Seq<char> {
        self.page.slug@
    }

    /// The title of the page.
    pub closed spec fn title(&self) -> Seq<char> {
        self.page.title@
    }

    /// The page type held since construction.
    pub closed spec fn type_id(&self) -> Seq<char> {
        self.page_type_id@
    }

    /// The page type is always the one derived from the slug.
    #[verifier::type_invariant]
    spec fn wf(&self) -> bool {
        self.page_type_id@ == demo_page_type(self.page.slug@)
    }

    #[must_use]
    pub fn new(page: DemoPage) -> (r: Self)
        ensures
            r.slug() == page.slug@,
            r.title() == page.title@,
            r.type_id() == demo_page_type(page.slug@),
    {
        let mut page_type_id = String::from_str("demo-page-");
        page_type_id.append(page.slug.as_str());
        Self { page, page_type_id }
    }

    /// The page this prerenderer was made for.
    pub fn page(&self) -> (r: &DemoPage)
        ensures
            r.slug@ == self.slug(),
            r.title@ == self.title(),
    {
        &self.page
    }

    pub fn page_type(&self) -> (r: &str)
        ensures
            r@ == demo_page_type(self.slug()),
    {
        proof {
            use_type_invariant(self);
        }
        self.page_type_id.as_str()
    }

    pub fn priority(&self) -> (r: u32)
        ensures
            r == 50,
    {
        50
    }

    /// Name of the template the page is rendered with.
    pub fn template_name(&self) -> (r: &'static str)
        ensures
            r@ == "demo-page"@,
    {
        "demo-page"
    }

    /// Where the rendered page is written, relative to the site root.
    pub fn output_path(&self) -> (r: String)
        ensures
            r@ == demo_output_path(self.slug()),
    {
        if self.page.slug.as_str().is_empty() {
            String::from_str("demo/index.html")
        } else {
            let mut path = String::from_str("demo/");
            path.append(self.page.slug.as_str());
            path.append("/index.html");
            path
        }
    }
}

/// Prepares one feature page for rendering.
pub struct FeaturePagePrerenderer {
    page: FeaturePage,
    page_type_id: String,
}

impl FeaturePagePrerenderer {
    /// The slug of the page.
    pub closed spec fn slug(&self) -> Seq<char> {
        self.page.slug@
    }

    /// The title of the page.
    pub closed spec fn title(&self) -> Seq<char> {
        self.page.title@
    }

    /// The page type held since construction.
    pub closed spec fn type_id(&self) -> Seq<char> {
        self.page_type_id@
    }

    /// The page type is always the one derived from the slug.
    #[verifier::type_invariant]
    spec fn wf(&self) -> bool {
        self.page_type_id@ == feature_page_type(self.page.slug@)
    }

    #[must_use]
    pub fn new(page: FeaturePage) -> (r: Self)
        ensures
            r.slug() == page.slug@,
            r.title() == page.title@,
            r.type_id() == feature_page_type(page.slug@),
    {
        let mut page_type_id = String::from_str("feature-page-");
        page_type_id.append(page.slug.as_str());
        Self { page, page_type_id }
    }

    /// The page this prerenderer was made for.
    pub fn page(&self) -> (r: &FeaturePage)
        ensures
            r.slug@ == self.slug(),
            r.title@ == self.title(),
    {
        &self.page
    }

    pub fn page_type(&self) -> (r: &str)
        ensures
            r@ == feature_page_type(self.slug()),
    {
        proof {
            use_type_invariant(self);
        }
        self.page_type_id.as_str()
    }

    pub fn priority(&self) -> (r: u32)
        ensures
            r == 50,
    {
        50
    }

    /// Name of the template the page is rendered with.
    pub fn template_name(&self) -> (r: &'static str)
        ensures
            r@ == "feature-page"@,
    {
        "feature-page"
    }

    /// Where the rendered page is written, relative to the site root.
    pub fn output_path(&self) -> (r: String)
        ensures
            r@ == feature_output_path(self.slug()),
    {
        let mut path = String::from_str("features/");
        path.append(self.page.slug.as_str());
        path.append("/index.html");
        path
    }
}

/// The date and time that an RFC 3339 text gives, written in a strftime
/// layout, as chrono parses and formats it, in the offset that the text
/// names. There is none where the text is no such date and time, or where
/// the layout cannot be written.
pub uninterp spec fn rfc3339_date_text(text: Seq<char>, layout: Seq<char>) -> Option<Seq<char>>;

/// The date and time that a text in the relaxed form of RFC 3339 gives,
/// written in a strftime layout, as chrono parses and formats it, in UTC.
/// There is none where the text is no such date and time, or where the
/// layout cannot be written.
pub uninterp spec fn utc_date_text(text: Seq<char>, layout: Seq<char>) -> Option<Seq<char>>;

/// `chrono::DateTime::parse_from_rfc3339`, then `format` with the layout
/// and `write_to` on what it parsed. The result depends on the two texts
/// alone.
#[verifier::external_body]
fn rfc3339_date(text: &str, layout: &str) -> (r: Option<String>)
    ensures
        match r {
            Some(d) => rfc3339_date_text(text@, layout@) == Some(d@),
            None => rfc3339_date_text(text@, layout@) is None,
        },
{
    match chrono::DateTime::parse_from_rfc3339(text) {
        Ok(dt) => {
            let mut out = String::new();
            match dt.format(layout).write_to(&mut out) {
                Ok(()) => Some(out),
                Err(_) => None,
            }
        },
        Err(_) => None,
    }
}

/// `str::parse` to a `chrono::DateTime<chrono::Utc>`, then `format` with
/// the layout and `write_to` on what it parsed. The result depends on the
/// two texts alone.
#[verifier::external_body]
fn utc_date(text: &str, layout: &str) -> (r: Option<String>)
    ensures
        match r {
            Some(d) => utc_date_text(text@, layout@) == Some(d@),
            None => utc_date_text(text@, layout@) is None,
        },
{
    match text.parse::<chrono::DateTime<chrono::Utc>>() {
        Ok(dt) => {
            let mut out = String::new();
            match dt.format(layout).write_to(&mut out) {
                Ok(()) => Some(out),
                Err(_) => None,
            }
        },
        Err(_) => None,
    }
}

/// The layout of a long date: the name of the month, the day in two
/// digits, a comma, and the year.
pub open spec fn long_date_layout() -> Seq<char> {
    "%B %d, %Y"@
}

/// The characters of each key and value in a list of entries.
pub open spec fn entries(items: Seq<(&'static str, String)>) -> Seq<(Seq<char>, Seq<char>)> {
    Seq::new(items.len(), |i: int| (items[i].0@, items[i].1@))
}

/// The entry `key` with the string that the item has under `field`, if it
/// has one.
pub open spec fn copied(item: serde_json::Value, field: Seq<char>, key: Seq<char>) -> Seq<
    (Seq<char>, Seq<char>),
> {
    match text_member(item, field) {
        Some(s) => seq![(key, s)],
        None => Seq::empty(),
    }
}

/// The long form of a publication date: read as an RFC 3339 date and time
/// if it is one, else as one in the relaxed form, and written in the
/// layout of a long date.
pub open spec fn long_date(text: Seq<char>) -> Option<Seq<char>> {
    match rfc3339_date_text(text, long_date_layout()) {
        Some(d) => Some(d),
        None => utc_date_text(text, long_date_layout()),
    }
}

/// The entries for the publication date of an item: the date as it
/// stands, twice, and its long form if it can be read as a date.
pub open spec fn date_entries(item: serde_json::Value) -> Seq<(Seq<char>, Seq<char>)> {
    match text_member(item, "published_at"@) {
        Some(p) => seq![("DATE_ISO"@, p), ("DATE_PUBLISHED"@, p)] + match long_date(p) {
            Some(d) => seq![("DATE"@, d)],
            None => Seq::empty(),
        },
        None => Seq::empty(),
    }
}

/// Minutes to read a text of the given number of words, at 200 words a
/// minute, rounded down, and never less than one.
pub open spec fn read_time(words: nat) -> nat {
    if words / 200 < 1 {
        1
    } else {
        words / 200
    }
}

/// The entry for the reading time of an item, if it has content.
pub open spec fn read_time_entries(item: serde_json::Value) -> Seq<(Seq<char>, Seq<char>)> {
    match text_member(item, "content"@) {
        Some(c) => seq![("READ_TIME"@, decimal(read_time(word_count(c))))],
        None => Seq::empty(),
    }
}

/// The template data of a legal page for a content item.
pub open spec fn legal_page_data(item: serde_json::Value) -> Seq<(Seq<char>, Seq<char>)> {
    copied(item, "title"@, "TITLE"@) + copied(item, "description"@, "DESCRIPTION"@) + copied(
        item,
        "author"@,
        "AUTHOR"@,
    ) + copied(item, "keywords"@, "KEYWORDS"@) + copied(item, "slug"@, "SLUG"@) + copied(
        item,
        "image"@,
        "IMAGE"@,
    ) + date_entries(item) + copied(item, "updated_at"@, "DATE_MODIFIED_ISO"@)
        + read_time_entries(item)
}

fn copy_member(
    out: &mut Vec<(&'static str, String)>,
    item: &serde_json::Value,
    field: &str,
    key: &'static str,
)
    ensures
        entries(final(out)@) == entries(old(out)@) + copied(*item, field@, key@),
{
    match member_text(item, field) {
        Some(s) => {
            out.push((key, String::from_str(s)));
            assert(entries(out@) =~= entries(old(out)@) + seq![(key@, s@)]);
        },
        None => {
            assert(entries(out@) =~= entries(old(out)@) + Seq::empty());
        },
    }
}

fn copy_dates(out: &mut Vec<(&'static str, String)>, item: &serde_json::Value)
    ensures
        entries(final(out)@) == entries(old(out)@) + date_entries(*item),
{
    match member_text(item, "published_at") {
        Some(published) => {
            out.push(("DATE_ISO", String::from_str(published)));
            out.push(("DATE_PUBLISHED", String::from_str(published)));
            let long = match rfc3339_date(published, "%B %d, %Y") {
                Some(d) => Some(d),
                None => utc_date(published, "%B %d, %Y"),
            };
            match long {
                Some(d) => {
                    out.push(("DATE", d));
                    assert(entries(out@) =~= entries(old(out)@) + date_entries(*item));
                },
                None => {
                    assert(entries(out@) =~= entries(old(out)@) + date_entries(*item));
                },
            }
        },
        None => {
            assert(entries(out@) =~= entries(old(out)@) + Seq::empty());
        },
    }
}

fn copy_read_time(out: &mut Vec<(&'static str, String)>, item: &serde_json::Value)
    ensures
        entries(final(out)@) == entries(old(out)@) + read_time_entries(*item),
{
    match member_text(item, "content") {
        Some(content) => {
            let words = count_words(content);
            let minutes: usize = if words / 200 < 1 {
                1
            } else {
                words / 200
            };
            let mut text = String::new();
            push_decimal(&mut text, minutes as u128);
            assert(text@ =~= decimal(read_time(word_count(content@))));
            out.push(("READ_TIME", text));
            assert(entries(out@) =~= entries(old(out)@) + read_time_entries(*item));
        },
        None => {
            assert(entries(out@) =~= entries(old(out)@) + Seq::empty());
        },
    }
}

/// Provides the template data of a legal page.
pub struct LegalPageDataProvider;

impl LegalPageDataProvider {
    #[must_use]
    pub fn new() -> Self {
        Self
    }

    pub fn provider_id(&self) -> (r: &'static str)
        ensures
            r@ == "legal-metadata"@,
    {
        "legal-metadata"
    }

    /// The page types this provider serves: legal pages only.
    pub fn applies_to_pages(&self) -> (r: Vec<String>)
        ensures
            r@.len() == 1,
            r@[0]@ == "legal"@,
    {
        let mut r: Vec<String> = Vec::new();
        r.push(String::from_str("legal"));
        r
    }

    pub fn priority(&self) -> (r: u32)
        ensures
            r == 60,
    {
        60
    }

    /// The template data of a legal page: the texts of the content item
    /// under the names the templates use, its publication date in three
    /// forms, and its reading time. Without a content item there is no
    /// page data.
    pub fn provide_page_data(&self, item: Option<&serde_json::Value>) -> (r: Result<
        Vec<(&'static str, String)>,
        String,
    >)
        ensures
            match item {
                Some(i) => r is Ok && entries(r->Ok_0@) == legal_page_data(*i),
                None => r is Err && r->Err_0@ == "Content item required for legal page"@,
            },
    {
        let item = match item {
            Some(i) => i,
            None => {
                return Err(String::from_str("Content item required for legal page"));
            },
        };
        let mut data: Vec<(&'static str, String)> = Vec::new();
        assert(entries(data@) =~= Seq::empty());
        copy_member(&mut data, item, "title", "TITLE");
        copy_member(&mut data, item, "description", "DESCRIPTION");
        copy_member(&mut data, item, "author", "AUTHOR");
        copy_member(&mut data, item, "keywords", "KEYWORDS");
        copy_member(&mut data, item, "slug", "SLUG");
        copy_member(&mut data, item, "image", "IMAGE");
        copy_dates(&mut data, item);
        copy_member(&mut data, item, "updated_at", "DATE_MODIFIED_ISO");
        copy_read_time(&mut data, item);
        assert(entries(data@) =~= legal_page_data(*item));
        Ok(data)
    }
}

impl Default for LegalPageDataProvider {
    fn default() -> Self {
        Self::new()
    }
}

} // verus!
