//! Tests of the command and web payloads and of link validation.

use hikea::listenbrainz::{ListenbrainzBody, ListenbrainzCommand};
use hikea::suggestion::{SuggestionCommand, SuggestionError};
use hikea::web::OauthQuery;

#[test]
fn utah_trail_link_passes_unchanged() {
    let c = SuggestionCommand::from_link(
        String::from("https://www.alltrails.com/trail/us/utah/angels-landing"),
    );
    assert_eq!(
        c.validated_link().unwrap(),
        "https://www.alltrails.com/trail/us/utah/angels-landing"
    );
}

#[test]
fn explore_link_is_rewritten() {
    let c = SuggestionCommand::from_link(
        String::from("https://www.alltrails.com/explore/trail/us/utah/angels-landing"),
    );
    assert_eq!(
        c.validated_link().unwrap(),
        "https://www.alltrails.com/trail/us/utah/angels-landing"
    );
}

#[test]
fn foreign_link_is_rejected() {
    let c = SuggestionCommand::from_link(String::from("https://example.com/trail/us/utah/foo"));
    assert_eq!(c.validated_link().unwrap_err(), SuggestionError::NotAllTrails);
}

#[test]
fn out_of_state_trail_is_rejected() {
    let c = SuggestionCommand::from_link(
        String::from("https://www.alltrails.com/trail/us/oregon/some-trail"),
    );
    assert_eq!(c.validated_link().unwrap_err(), SuggestionError::NotInUtah);
}

#[test]
fn explore_link_outside_utah_is_rejected() {
    let c = SuggestionCommand::from_link(
        String::from("https://www.alltrails.com/explore/trail/us/oregon/some-trail"),
    );
    assert_eq!(c.validated_link().unwrap_err(), SuggestionError::NotInUtah);
}

#[test]
fn listens_profile_url_names_the_user() {
    let c = ListenbrainzCommand::from_user(String::from("alice"));
    assert_eq!(c.profile_url(), "https://listenbrainz.org/user/alice");
}

#[test]
fn listens_body_keeps_timestamp() {
    let b = ListenbrainzBody::since(1_700_000_000);
    assert_eq!(b.min_ts, 1_700_000_000);
}

#[test]
fn redirect_target_prefixes_hostname() {
    let q = OauthQuery::with_redirect(Some(String::from("/hikea/upload")));
    assert_eq!(
        q.redirect_target("https://example.org").unwrap(),
        "https://example.org/hikea/upload"
    );
}

#[test]
fn no_redirect_means_no_target() {
    let q = OauthQuery::with_redirect(None);
    assert!(q.redirect_target("https://example.org").is_none());
}
