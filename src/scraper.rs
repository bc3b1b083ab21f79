use vstd::prelude::*;

use crate::content::{
    decode_lossy, html_title, image_kind, inferred_mime, is_image, is_short_cr2_header, lossy_utf8,
    mime_type_of, short_cr2_header, title_of,
};

verus! {

/// Parameters for a scrape.
#[derive(Debug)]
pub struct Scraper<'a> {
    /// URL
    pub url: &'a str,
    /// Optional user ID
    pub user_id: Option<i32>,
    /// Overwrite if entry exists?
    pub force: bool,
    /// Scrape with headless Chromium
    pub headless: bool,
}

impl<'a> Scraper<'a> {
    /// Scrape blob or document with URL, for no user, without force and
    /// without headless Chromium.
    pub fn from_url(url: &'a str) -> (r: Self)
        ensures
            r.url == url,
            r.user_id is None,
            !r.force,
            !r.headless,
    {
        Self { url, user_id: None, force: false, headless: false }
    }

    /// Set user ID
    pub fn with_user_id(self, user_id: i32) -> (r: Self)
        ensures
            r == (Scraper { user_id: Some(user_id), ..self }),
    {
        Scraper { user_id: Some(user_id), ..self }
    }

    /// Set force flag
    pub fn with_force(self, force: bool) -> (r: Self)
        ensures
            r == (Scraper { force, ..self }),
    {
        Scraper { force, ..self }
    }

    /// Set headless flag
    pub fn with_headless(self, headless: bool) -> (r: Self)
        ensures
            r == (Scraper { headless, ..self }),
    {
        Scraper { headless, ..self }
    }

    /// Only a response with status 200 is kept, unless the scrape is forced.
    pub open spec fn spec_accepts_status(&self, status: u16) -> bool {
        status == 200 || self.force
    }

    /// Is a response with HTTP status `status` kept?
    pub fn accepts_status(&self, status: u16) -> (r: bool)
        ensures
            r == self.spec_accepts_status(status),
    {
        status == 200 || self.force
    }

    /// What a response with status `http_status` and body `content` scrapes
    /// to: a blob when the body is an image, else an HTML document, which
    /// must have a title. A body that is only a truncated CR2 header is of no
    /// known type.
    pub fn scraped_from_response(&'a self, http_status: u16, content: Vec<u8>) -> (r: Result<
        Scraped<'a>,
        ScrapeError,
    >)
        ensures
            !self.spec_accepts_status(http_status) ==> r == Err::<Scraped<'a>, ScrapeError>(
                ScrapeError::Status(http_status),
            ),
            self.spec_accepts_status(http_status) && short_cr2_header(content@) ==> r == Err::<
                Scraped<'a>,
                ScrapeError,
            >(ScrapeError::UnknownMimeType),
            self.spec_accepts_status(http_status) && !short_cr2_header(content@) && image_kind(
                content@,
            ) ==> ({
                &&& inferred_mime(content@) matches Some(mime)
                &&& r matches Ok(Scraped::Blob(b))
                &&& b.params == self
                &&& b.mime_type@ == mime
                &&& b.content@ == content@
                &&& b.http_status == http_status as i32
            }),
            self.spec_accepts_status(http_status) && !short_cr2_header(content@) && !image_kind(
                content@,
            ) ==> match html_title(
                lossy_utf8(content@),
            ) {
                None => r == Err::<Scraped<'a>, ScrapeError>(ScrapeError::NoTitle),
                Some(title) => r matches Ok(Scraped::Document(d)) && d.params == self && d.title@
                    == title && d.html@ == lossy_utf8(content@) && d.http_status
                    == http_status as i32,
            },
    {
        if !self.accepts_status(http_status) {
            return Err(ScrapeError::Status(http_status));
        }
        if is_short_cr2_header(content.as_slice()) {
            return Err(ScrapeError::UnknownMimeType);
        }
        let http_status_code = http_status as i32;
        if is_image(content.as_slice()) {
            match mime_type_of(content.as_slice()) {
                None => Err(ScrapeError::UnknownMimeType),
                Some(mime_type) => Ok(
                    Scraped::Blob(
                        Blob { params: self, mime_type, content, http_status: http_status_code },
                    ),
                ),
            }
        } else {
            let html = decode_lossy(content.as_slice());
            match title_of(html.as_str()) {
                None => Err(ScrapeError::NoTitle),
                Some(title) => Ok(
                    Scraped::Document(
                        Document { params: self, title, html, http_status: http_status_code },
                    ),
                ),
            }
        }
    }
}

/// Why a response was not kept as a scrape.
#[derive(Debug, PartialEq, Eq, Structural)]
pub enum ScrapeError {
    /// The response status, not 200, on a scrape that was not forced.
    Status(u16),
    /// The body is a truncated CR2 header, which no MIME type can be told of.
    UnknownMimeType,
    /// The HTML document has no title element.
    NoTitle,
}

/// Scraped blob
#[derive(Debug)]
pub struct Blob<'a> {
    /// Parameters
    pub params: &'a Scraper<'a>,
    /// Inferred MIME type, e.g. `image/png`
    pub mime_type: String,
    /// Blob content
    pub content: Vec<u8>,
    /// HTTP status
    pub http_status: i32,
}

/// Scraped document
#[derive(Debug)]
pub struct Document<'a> {
    /// Parameters
    pub params: &'a Scraper<'a>,
    /// Document title
    pub title: String,
    /// Raw HTML document
    pub html: String,
    /// HTTP status
    pub http_status: i32,
}

/// Scraped blob or document
#[derive(Debug)]
pub enum Scraped<'a> {
    /// e.g. Image
    Blob(Blob<'a>),
    /// e.g. HTML document
    Document(Document<'a>),
}

} // verus!
