use hcc::{ScrapeError, Scrape, ScrapeTraits, Scraped, Scraper};

#[test]
fn scraper_from_url_has_defaults() {
    let scraper = Scraper::from_url("https://www.example.com");
    assert_eq!("https://www.example.com", scraper.url);
    assert_eq!(None, scraper.user_id);
    assert!(!scraper.force);
    assert!(!scraper.headless);
}

#[test]
fn scraper_builders_set_one_field_each() {
    let scraper = Scraper::from_url("https://picsum.photos/1")
        .with_user_id(3)
        .with_force(true)
        .with_headless(true);
    assert_eq!("https://picsum.photos/1", scraper.url);
    assert_eq!(Some(3), scraper.user_id);
    assert!(scraper.force);
    assert!(scraper.headless);
    let scraper = scraper.with_force(false);
    assert!(!scraper.force);
    assert!(scraper.headless);
    assert_eq!(Some(3), scraper.user_id);
}

#[test]
fn scraper_accepts_non_ok_status_only_when_forced() {
    let scraper = Scraper::from_url("https://www.example.com");
    assert!(scraper.accepts_status(200));
    assert!(!scraper.accepts_status(404));
    assert!(!scraper.accepts_status(201));
    let forced = scraper.with_force(true);
    assert!(forced.accepts_status(404));
    assert!(forced.accepts_status(200));
}

#[test]
fn scrape_traits_text() {
    let text = |headless, searchable| ScrapeTraits { headless, searchable }.to_string();
    assert_eq!("headless,searchable", text(true, true));
    assert_eq!("headless", text(true, false));
    assert_eq!("searchable", text(false, true));
    assert_eq!("", text(false, false));
}

#[test]
fn scrape_traits_follow_the_scrape() {
    let scrape = Scrape {
        id: 1,
        user_id: None,
        url: "https://www.example.com".to_string(),
        headless: false,
        title: Some("Example Domain".to_string()),
        content: vec![1, 2, 3],
        searchable_content: Some("Example Domain".to_string()),
        created_at: 0,
    };
    let traits = scrape.traits();
    assert!(!traits.headless);
    assert!(traits.searchable);
    assert_eq!("searchable", traits.to_string());
}

const PNG_HEADER: [u8; 8] = [0x89, 0x50, 0x4e, 0x47, 0x0d, 0x0a, 0x1a, 0x0a];

#[test]
fn response_with_bad_status_is_refused_unless_forced() {
    let scraper = Scraper::from_url("https://www.example.com");
    let page = b"<html><head><title>Example Domain</title></head></html>".to_vec();
    assert!(matches!(
        scraper.scraped_from_response(404, page.clone()),
        Err(ScrapeError::Status(404))
    ));
    let forced = Scraper::from_url("https://www.example.com").with_force(true);
    match forced.scraped_from_response(404, page) {
        Ok(Scraped::Document(doc)) => {
            assert_eq!(404, doc.http_status);
            assert_eq!("Example Domain", doc.title);
        }
        other => panic!("unexpected {:?}", other),
    }
}

#[test]
fn html_response_scrapes_to_a_document() {
    let scraper = Scraper::from_url("https://www.example.com");
    let html = "<html><head><title>Example Domain</title></head><body>Example Domain</body></html>";
    match scraper.scraped_from_response(200, html.as_bytes().to_vec()) {
        Ok(Scraped::Document(doc)) => {
            assert_eq!("https://www.example.com", doc.params.url);
            assert_eq!("Example Domain", doc.title);
            assert_eq!(html, doc.html);
            assert_eq!(200, doc.http_status);
        }
        other => panic!("unexpected {:?}", other),
    }
}

#[test]
fn invalid_utf8_is_replaced_in_the_document() {
    let scraper = Scraper::from_url("https://www.example.com");
    let mut body = b"<title>caf".to_vec();
    body.push(0xff);
    body.extend_from_slice(b"</title>");
    match scraper.scraped_from_response(200, body) {
        Ok(Scraped::Document(doc)) => {
            assert_eq!("caf\u{fffd}", doc.title);
            assert_eq!("<title>caf\u{fffd}</title>", doc.html);
        }
        other => panic!("unexpected {:?}", other),
    }
}

#[test]
fn document_without_title_is_refused() {
    let scraper = Scraper::from_url("https://www.example.com");
    let body = b"<html><body>no title here</body></html>".to_vec();
    assert!(matches!(scraper.scraped_from_response(200, body), Err(ScrapeError::NoTitle)));
}

#[test]
fn image_response_scrapes_to_a_blob() {
    let scraper = Scraper::from_url("https://picsum.photos/1");
    let mut body = PNG_HEADER.to_vec();
    body.extend_from_slice(&[0, 0, 0, 13]);
    match scraper.scraped_from_response(200, body.clone()) {
        Ok(Scraped::Blob(blob)) => {
            assert_eq!("https://picsum.photos/1", blob.params.url);
            assert_eq!("image/png", blob.mime_type);
            assert_eq!(body, blob.content);
            assert!(blob.content.len() > 0);
            assert_eq!(200, blob.http_status);
        }
        other => panic!("unexpected {:?}", other),
    }
}

#[test]
fn truncated_cr2_header_is_of_unknown_type() {
    let scraper = Scraper::from_url("https://www.example.com");
    let little = vec![0x49, 0x49, 0x2a, 0x00, 0, 0, 0, 0, 0x43, 0x52];
    assert!(matches!(scraper.scraped_from_response(200, little), Err(ScrapeError::UnknownMimeType)));
    let big = vec![0x4d, 0x4d, 0x00, 0x2a, 0, 0, 0, 0, 0x43, 0x52];
    assert!(matches!(scraper.scraped_from_response(200, big), Err(ScrapeError::UnknownMimeType)));
    let refused = vec![0x4d, 0x4d, 0x00, 0x2a, 0, 0, 0, 0, 0x43, 0x52];
    assert!(matches!(scraper.scraped_from_response(500, refused), Err(ScrapeError::Status(500))));
}

#[test]
fn full_cr2_header_is_an_image() {
    let scraper = Scraper::from_url("https://www.example.com");
    let body = vec![0x49, 0x49, 0x2a, 0x00, 0x10, 0, 0, 0, 0x43, 0x52, 0x02, 0x00];
    match scraper.scraped_from_response(200, body) {
        Ok(Scraped::Blob(blob)) => assert_eq!("image/x-canon-cr2", blob.mime_type),
        other => panic!("unexpected {:?}", other),
    }
}
