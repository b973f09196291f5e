use vstd::prelude::*;

use crate::service::logbook::{PageSize, log_page_count};
use crate::text::{concat, to_lowercase, unicode_lower};

verus! {

/// The printable logbook.
pub struct LogbookPdfPath;

/// The Typst source of the logbook.
pub struct LogbookTypPath;

/// What the logbook form posts. A checkbox is present when ticked.
pub struct LogbookForm {
    pub page_size: String,
    pub log_pages: Option<u32>,
    pub title_page: Option<String>,
    pub locations_page: Option<String>,
    pub phonetic_alphabet_page: Option<String>,
    pub frequency_bands_page: Option<String>,
}

/// The logbook a form asks for.
pub struct LogbookSettings {
    pub page_size: PageSize,
    pub log_pages: u32,
    pub title_page: bool,
    pub locations_page: bool,
    pub phonetic_alphabet_page: bool,
    pub frequency_bands_page: bool,
}

/// The logbook a form asks for: A5 paper for `a5`, else A4; the number of
/// log pages asked for, 10 by default, between 1 and 100; each optional page
/// when its box is ticked.
pub fn logbook_settings(form: &LogbookForm) -> (r: LogbookSettings)
    ensures
        r.page_size == (if form.page_size@ == seq!['a', '5'] {
            PageSize::A5
        } else {
            PageSize::A4
        }),
        r.log_pages == match form.log_pages {
            Some(n) => if n < 1 {
                1
            } else if n > 100 {
                100
            } else {
                n
            },
            None => 10,
        },
        r.title_page == form.title_page is Some,
        r.locations_page == form.locations_page is Some,
        r.phonetic_alphabet_page == form.phonetic_alphabet_page is Some,
        r.frequency_bands_page == form.frequency_bands_page is Some,
{
    LogbookSettings {
        page_size: PageSize::from_form(form.page_size.as_str()),
        log_pages: log_page_count(form.log_pages),
        title_page: form.title_page.is_some(),
        locations_page: form.locations_page.is_some(),
        phonetic_alphabet_page: form.phonetic_alphabet_page.is_some(),
        frequency_bands_page: form.frequency_bands_page.is_some(),
    }
}

/// The name a downloaded logbook is offered under: `logbook-`, the call
/// sign in lower case, a dot and the extension.
pub fn logbook_file_name(call_sign: &str, extension: &str) -> (r: String)
    ensures
        r@ == "logbook-"@ + unicode_lower(call_sign@) + "."@ + extension@,
{
    let lower = to_lowercase(call_sign);
    let a = concat("logbook-", lower.as_str());
    let b = concat(a.as_str(), ".");
    concat(b.as_str(), extension)
}

} // verus!
