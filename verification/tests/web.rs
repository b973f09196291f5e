use repeater_atlas::auth::{AUTH_COOKIE_NAME, Claims, TOKEN_TTL_DAYS, normalize_call_sign, token_claims};
use repeater_atlas::dao::call_sign::{CallSign, CallSignKind};
use repeater_atlas::dao::repeater_link::RepeaterLink;
use repeater_atlas::dao::repeater_service::RepeaterServiceKind;
use repeater_atlas::service::logbook::PageSize;
use repeater_atlas::web::auth::auth_header_for;
use repeater_atlas::web::logbook::{LogbookForm, logbook_file_name, logbook_settings};
use repeater_atlas::web::map::{kinds_for, service_labels};
use repeater_atlas::web::user_location::non_blank;
use repeater_atlas::web::repeater::{
    call_sign_order,
    club_repeater_ids, is_external, links_on_map, path_call_sign, shows_linked_network,
};
use repeater_atlas::web::search::{
    CallSignSearchQuery, SEARCH_LIMIT, call_sign_kind_label, search_prefix, search_result,
};
use repeater_atlas::web::{AuthHeader, ErrorPage, render_404, render_500};

#[test]
fn auth_headers() {
    let a = AuthHeader::anonymous();
    assert!(!a.logged_in);
    assert_eq!(a.call_sign, "");
    let l = AuthHeader::logged_in("LA1ABC".to_string());
    assert!(l.logged_in);
    assert_eq!(l.call_sign, "LA1ABC");
    let h = auth_header_for(Some(Claims { sub: "LA9XYZ".to_string(), iat: 1, exp: 2 }));
    assert!(h.logged_in);
    assert_eq!(h.call_sign, "LA9XYZ");
    let h = auth_header_for(None);
    assert!(!h.logged_in);
}

#[test]
fn login_call_signs_are_trimmed_and_upper_cased() {
    assert_eq!(normalize_call_sign("  la1abc "), "LA1ABC");
    // Unicode upper case, not just ASCII.
    assert_eq!(normalize_call_sign("ßa1"), "SSA1");
    assert_eq!(normalize_call_sign("øy1"), "ØY1");
}

#[test]
fn token_claims_last_a_week() {
    let c = token_claims("LA1ABC", 1_000);
    assert_eq!(c.sub, "LA1ABC");
    assert_eq!(c.iat, 1_000);
    assert_eq!(c.exp, 1_000 + 7 * 86_400);
    assert_eq!(TOKEN_TTL_DAYS, 7);
    assert_eq!(AUTH_COOKIE_NAME, "ra_auth");
}

#[test]
fn error_pages() {
    assert_eq!(render_500(None), "<h1>Server Error</h1>");
    assert_eq!(render_500(Some("<p>oops</p>".to_string())), "<p>oops</p>");
    assert_eq!(render_404(None), "<h1>Not Found</h1>");
    assert_eq!(render_404(Some("<p>gone</p>".to_string())), "<p>gone</p>");
    assert_eq!(ErrorPage::NotFound.status(), 404);
    assert_eq!(ErrorPage::ServerError.status(), 500);
}

#[test]
fn logbook_form_settings() {
    let form = LogbookForm {
        page_size: "a5".to_string(),
        log_pages: Some(500),
        title_page: Some("on".to_string()),
        locations_page: None,
        phonetic_alphabet_page: Some(String::new()),
        frequency_bands_page: None,
    };
    let s = logbook_settings(&form);
    assert_eq!(s.page_size, PageSize::A5);
    assert_eq!(s.log_pages, 100);
    assert!(s.title_page);
    assert!(!s.locations_page);
    assert!(s.phonetic_alphabet_page);
    assert!(!s.frequency_bands_page);
    let form = LogbookForm {
        page_size: "letter".to_string(),
        log_pages: None,
        title_page: None,
        locations_page: None,
        phonetic_alphabet_page: None,
        frequency_bands_page: None,
    };
    let s = logbook_settings(&form);
    assert_eq!(s.page_size, PageSize::A4);
    assert_eq!(s.log_pages, 10);
}

#[test]
fn map_markers_list_each_service_label_once_sorted() {
    let labels = service_labels(&vec![
        RepeaterServiceKind::Fm,
        RepeaterServiceKind::Dmr,
        RepeaterServiceKind::Fm,
        RepeaterServiceKind::Aprs,
        RepeaterServiceKind::Dstar,
    ]);
    assert_eq!(labels, vec!["APRS", "D-STAR", "DMR", "FM"]);
    assert!(service_labels(&Vec::new()).is_empty());
}

#[test]
fn club_repeaters_once_each_in_first_order() {
    assert_eq!(club_repeater_ids(&vec![5, 3, 5, 9, 3]), vec![5, 3, 9]);
    assert!(club_repeater_ids(&Vec::new()).is_empty());
    let club = vec![5, 3];
    assert!(!is_external(&club, 3));
    assert!(is_external(&club, 4));
}

fn link(id: i64, a: i64, b: i64) -> RepeaterLink {
    RepeaterLink { id, repeater_a_id: a, repeater_b_id: b, note: String::new() }
}

#[test]
fn maps_draw_links_between_repeaters_on_them() {
    let on_map = vec![1, 2, 3];
    let kept = links_on_map(&on_map, vec![link(10, 1, 2), link(11, 2, 7), link(12, 3, 1)]);
    let ids: Vec<i64> = kept.iter().map(|l| l.id).collect();
    assert_eq!(ids, vec![10, 12]);
}

#[test]
fn search_queries_and_results() {
    assert_eq!(search_prefix(&CallSignSearchQuery { q: None }), None);
    assert_eq!(search_prefix(&CallSignSearchQuery { q: Some("   ".to_string()) }), None);
    assert_eq!(
        search_prefix(&CallSignSearchQuery { q: Some(" la1 ".to_string()) }),
        Some("LA1".to_string())
    );
    assert_eq!(call_sign_kind_label(CallSignKind::Repeater), "repeater");
    assert_eq!(call_sign_kind_label(CallSignKind::Contact), "organization");
    let r = search_result(CallSign { value: "LA1ABC".to_string(), kind: CallSignKind::Contact });
    assert_eq!(r.call_sign, "LA1ABC");
    assert_eq!(r.kind, "organization");
    assert_eq!(SEARCH_LIMIT, 50);
}

#[test]
fn kinds_are_picked_per_repeater() {
    let pairs = vec![
        (1, RepeaterServiceKind::Fm),
        (2, RepeaterServiceKind::Dmr),
        (1, RepeaterServiceKind::Aprs),
        (1, RepeaterServiceKind::Fm),
    ];
    assert_eq!(
        kinds_for(&pairs, 1),
        vec![RepeaterServiceKind::Fm, RepeaterServiceKind::Aprs, RepeaterServiceKind::Fm]
    );
    assert_eq!(service_labels(&kinds_for(&pairs, 1)), vec!["APRS", "FM"]);
    assert!(kinds_for(&pairs, 3).is_empty());
}

#[test]
fn blank_form_fields_do_not_count() {
    assert_eq!(non_blank(Some(" Oslo ".to_string())), Some(" Oslo ".to_string()));
    assert_eq!(non_blank(Some("  ".to_string())), None);
    assert_eq!(non_blank(None), None);
}

#[test]
fn logbook_file_names() {
    assert_eq!(logbook_file_name("LA1ABC", "pdf"), "logbook-la1abc.pdf");
    assert_eq!(logbook_file_name("LA1ABC/P", "typ"), "logbook-la1abc/p.typ");
}

#[test]
fn page_addresses_are_upper_cased() {
    assert_eq!(path_call_sign("la1abc"), "LA1ABC");
    assert!(!shows_linked_network(0));
    assert!(!shows_linked_network(1));
    assert!(shows_linked_network(2));
}

fn strings(v: &[&str]) -> Vec<String> {
    v.iter().map(|x| x.to_string()).collect()
}

#[test]
fn contact_page_lists_repeaters_by_call_sign() {
    let signs = strings(&["LA2B", "LA1A", "LA2B", "LA0Z"]);
    assert_eq!(call_sign_order(&signs), vec![3, 1, 2]);
    assert_eq!(call_sign_order(&Vec::new()), Vec::<usize>::new());
    let signs = strings(&["LA1AB", "LA1A", "LA1", "LA10"]);
    assert_eq!(call_sign_order(&signs), vec![2, 3, 1, 0]);
    let signs = strings(&["la1a", "LA1A", "LA1Å"]);
    assert_eq!(call_sign_order(&signs), vec![1, 2, 0]);
}
