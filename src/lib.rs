//! HTTPS certificate expiry checks: classification of a server's leaf
//! certificate by the days it has left, for one domain or a batch of them.
//!
//! The network side (connecting, the TLS handshake, the forced write) is
//! done by the caller, which hands each outcome to [`CheckClient`] as a
//! [`Fetched`] value.
//!
//! Beside the checks stand the records of a small scraping tool (scrape
//! parameters, scraped documents, users) and the wait of a scheduled run.

mod certificate;
mod check_client;
mod check_result;
mod content;
mod entities;
mod schedule;
mod scraper;

pub use crate::scraper::{Blob, Document, ScrapeError, Scraped, Scraper};
pub use certificate::{
    classify, days_between, der_not_after, opt_int, spec_classify, spec_days_between,
};
pub use check_client::{
    lemma_batch_duplicates_agree, lemma_check_repeated, lemma_check_result_consistent,
    lemma_grace_past_days_warns, lemma_rejected_is_expired, lemma_state_by_grace, outcome_view, spec_http_request, CheckClient, CheckError,
    CheckErrorView, Fetched,
};
pub use check_result::{expired_view, CheckResult, CheckResultView, CheckState};
pub use content::{
    html_title, image_kind, inferred_mime, is_short_cr2_header, lossy_utf8, opt_text,
    short_cr2_header,
};
pub use entities::{
    bcrypt_verdict, lower_of, spec_record_users, spec_search_pattern, spec_traits_text,
    spec_user_ids, Authentication, NewScrape, NewUser, NewUserWithEncryptedPassword, Scrape,
    ScrapeTraits, SearchScrape, StrictNewScrape, User,
};
pub use schedule::{spec_wait_millis, wait_millis};
