//! Tests of the resource-document model: payload sections, relation links,
//! annotations and status blocks.

use ricksponse::response::Content;
use ricksponse::response::HateoasResponse;
use ricksponse::response::HttpMethod;
use ricksponse::response::Metadata;
use ricksponse::response::RelLink;
use ricksponse::response::RelLinkCollection;
use ricksponse::response::Status;

#[test]
fn test_content_rel() {
    let mut content: Content<()> = Content::default();
    let rel = content.rel();
    assert_eq!(&mut RelLinkCollection::default(), rel);
}

#[test]
fn test_get_spec_on_none() {
    let mut response: HateoasResponse<String> = HateoasResponse::default();

    // Here the payload section is not set at initialization time; asking for
    // it initializes it to the empty default and returns it.

    let section = response.spec();
    assert_eq!(&mut Content::default(), section)
}

#[test]
fn content_set_and_get() {
    let mut ctn: Content<String> = Content::default();
    assert_eq!(ctn.get_content(), &None);
    assert!(!ctn.has_content());

    ctn.content("foo".to_string());
    assert!(ctn.has_content());
    assert_eq!(ctn.get_content(), &Some("foo".to_string()));

    let mut_ctn = ctn.get_mut_content();
    mut_ctn.map(|t| *t = "bar".to_string());
    assert_eq!(ctn.get_content(), &Some("bar".to_string()));
}

#[test]
fn rel_collection_add_new_appends() {
    let mut rlc = RelLinkCollection::default();
    assert_eq!(rlc.add("foo", RelLink::new("foo", "foo", HttpMethod::Get)), None);
    assert_eq!(rlc.add("bar", RelLink::new("bar", "bar", HttpMethod::Get)), None);
    assert_eq!(
        rlc,
        RelLinkCollection::new(vec![
            RelLink::new("foo", "foo", HttpMethod::Get),
            RelLink::new("bar", "bar", HttpMethod::Get),
        ])
    );
}

#[test]
fn rel_collection_add_existing_overwrites_in_place() {
    let mut rlc = RelLinkCollection::new(vec![
        RelLink::new("foo", "foo", HttpMethod::Get),
        RelLink::new("bar", "bar", HttpMethod::Get),
    ]);

    let old_rel = rlc.add("foo", RelLink::new("foo-bar", "foo", HttpMethod::Get));

    assert_eq!(old_rel, Some(RelLink::new("foo", "foo", HttpMethod::Get)));
    // The overwritten link keeps its position and the collection its length.
    assert_eq!(
        rlc,
        RelLinkCollection::new(vec![
            RelLink::new("foo-bar", "foo", HttpMethod::Get),
            RelLink::new("bar", "bar", HttpMethod::Get),
        ])
    );
}

#[test]
fn rel_collection_get_and_has() {
    let rlc = RelLinkCollection::new(vec![
        RelLink::new("foo", "foo", HttpMethod::Get),
        RelLink::new("bar", "bar", HttpMethod::Get),
    ]);

    assert_eq!(rlc.get("foo"), Some(&RelLink::new("foo", "foo", HttpMethod::Get)));
    assert!(rlc.has("bar"));
    assert!(!rlc.has("baz"));
    assert_eq!(rlc.get("baz"), None);
}

#[test]
fn rel_collection_get_mut_updates() {
    let mut rlc = RelLinkCollection::new(vec![
        RelLink::new("foo", "foo", HttpMethod::Get),
        RelLink::new("bar", "bar", HttpMethod::Get),
    ]);

    let rel = rlc.get_mut("foo");
    assert_eq!(rel, Some(&mut RelLink::new("foo", "foo", HttpMethod::Get)));

    rel.map(|t| *t = RelLink::new("foo-bar", "foo-bar", HttpMethod::Connect));

    let updated_rel = rlc.get("foo-bar");
    assert_eq!(updated_rel, Some(&RelLink::new("foo-bar", "foo-bar", HttpMethod::Connect)));
}

#[test]
fn metadata_upsert_by_key() {
    let mut with_overwrite = Metadata::default();
    with_overwrite.add_annotation("foo", "bar");
    with_overwrite.add_annotation("foo", "baz");
    with_overwrite.add_annotation("qux", "quux");

    let mut direct = Metadata::default();
    direct.add_annotation("foo", "baz");
    direct.add_annotation("qux", "quux");

    assert_eq!(with_overwrite, direct);
}

#[test]
fn status_setters() {
    let mut status = Status::default();
    status.message("hello world");
    assert_eq!(status, Status::new(Some("hello world".to_string()), None, None, None));

    let mut status = Status::default();
    status.code(&100);
    assert_eq!(status, Status::new(None, Some(100), None, None));

    let mut status = Status::default();
    status.http_status_code(&200);
    assert_eq!(status, Status::new(None, None, Some(200), None));

    let mut status = Status::default();
    let session = uuid::Uuid::from_u128(7);
    status.session(&session);
    assert_eq!(status, Status::new(None, None, None, Some(session)));
}

#[test]
fn hateoas_response_lazy_sections() {
    let mut response: HateoasResponse<()> = HateoasResponse::default();

    assert_eq!(&mut Metadata::default(), response.metadata());
    assert_eq!(&mut Status::default(), response.status());

    response.metadata().add_annotation("foo", "bar");
    let mut expected = Metadata::default();
    expected.add_annotation("foo", "bar");
    assert_eq!(&mut expected, response.metadata());
}
