use image_element::htmlimageelement::{is_watched, HTMLImageElement};
use image_element::image_cache_task::Msg;
use image_element::layout_interface::TrustedNodeAddress;
use image_element::resource::ResourceIdentifier;

fn img() -> HTMLImageElement {
    HTMLImageElement::new_inherited("img".to_string(), TrustedNodeAddress(7))
}

fn cached(element: &HTMLImageElement) -> Option<String> {
    element.image().as_ref().map(|reference| reference.as_str().to_string())
}

fn target(prefetch: &Option<Msg>) -> Option<String> {
    prefetch.as_ref().map(|msg| msg.reference().as_str().to_string())
}

const PAGE: &str = "http://example.com/page/";
const PIC: &str = "http://example.com/page/pic.png";

#[test]
fn new_element_has_no_reference() {
    let element = img();
    assert!(element.image().is_none());
    assert_eq!(element.local_name(), "img");
    assert_eq!(element.address(), TrustedNodeAddress(7));
}

#[test]
fn boxed_element_has_no_reference() {
    let element = HTMLImageElement::new("img".to_string(), TrustedNodeAddress(9));
    assert!(element.image().is_none());
    assert_eq!(element.local_name(), "img");
    assert_eq!(element.address(), TrustedNodeAddress(9));
}

#[test]
fn set_src_resolves_and_prefetches_then_removal_clears() {
    let mut element = img();
    let prefetch = element.AfterSetAttr("src".to_string(), "pic.png".to_string(), PAGE.to_string());
    assert_eq!(cached(&element), Some(PIC.to_string()));
    assert_eq!(target(&prefetch), Some(PIC.to_string()));
    assert!(matches!(prefetch, Some(Msg::Prefetch(_))));

    let prefetch = element.BeforeRemoveAttr("src".to_string());
    assert_eq!(cached(&element), None);
    assert!(prefetch.is_none());
}

#[test]
fn resolve_joins_relative_reference_to_base() {
    let reference = ResourceIdentifier::resolve("pic.png", Some(PAGE)).unwrap();
    assert_eq!(reference.as_str(), PIC);
    assert_ne!(reference.as_str(), "pic.png");
}

#[test]
fn resolve_walks_up_directories() {
    let reference = ResourceIdentifier::resolve("../a/b.png", Some(PAGE)).unwrap();
    assert_eq!(reference.as_str(), "http://example.com/a/b.png");
}

#[test]
fn resolve_replaces_last_segment_of_base() {
    let reference = ResourceIdentifier::resolve("b.png", Some("http://example.com/dir/a.html"));
    assert_eq!(reference.unwrap().as_str(), "http://example.com/dir/b.png");
}

#[test]
fn resolve_keeps_absolute_reference() {
    let reference = ResourceIdentifier::resolve("https://cdn.example.org/x.gif", Some(PAGE));
    assert_eq!(reference.unwrap().as_str(), "https://cdn.example.org/x.gif");
}

#[test]
fn resolve_without_base_takes_absolute_reference() {
    let reference = ResourceIdentifier::resolve("http://example.com", None).unwrap();
    assert_eq!(reference.as_str(), "http://example.com/");
}

#[test]
fn resolve_without_base_refuses_relative_reference() {
    assert!(ResourceIdentifier::resolve("pic.png", None).is_none());
}

#[test]
fn resolve_refuses_unreadable_base() {
    assert!(ResourceIdentifier::resolve("pic.png", Some("no location at all")).is_none());
}

#[test]
fn resolve_refuses_malformed_reference() {
    assert!(ResourceIdentifier::resolve("http://[::1", Some(PAGE)).is_none());
}

#[test]
fn duplicate_names_the_same_location() {
    let reference = ResourceIdentifier::resolve("pic.png", Some(PAGE)).unwrap();
    let copy = reference.duplicate();
    assert_eq!(copy.as_str(), reference.as_str());
}

#[test]
fn unresolvable_value_clears_stale_reference() {
    let mut element = img();
    element.AfterSetAttr("src".to_string(), "pic.png".to_string(), PAGE.to_string());
    assert!(element.image().is_some());
    let prefetch =
        element.AfterSetAttr("src".to_string(), "http://[::1".to_string(), PAGE.to_string());
    assert_eq!(cached(&element), None);
    assert!(prefetch.is_none());
}

#[test]
fn last_change_decides_the_reference() {
    let mut element = img();
    element.AfterSetAttr("src".to_string(), "a.png".to_string(), PAGE.to_string());
    element.BeforeRemoveAttr("src".to_string());
    element.AfterSetAttr("src".to_string(), "http://[::1".to_string(), PAGE.to_string());
    element.AfterSetAttr("src".to_string(), "b.png".to_string(), PAGE.to_string());
    assert_eq!(cached(&element), Some("http://example.com/page/b.png".to_string()));
    element.AfterSetAttr("src".to_string(), "c.png".to_string(), PAGE.to_string());
    element.BeforeRemoveAttr("src".to_string());
    assert_eq!(cached(&element), None);
    element.AfterSetAttr("src".to_string(), "d.png".to_string(), PAGE.to_string());
    element.AfterSetAttr("src".to_string(), "http://[::1".to_string(), PAGE.to_string());
    assert_eq!(cached(&element), None);
}

#[test]
fn each_resolvable_set_owes_one_prefetch_of_what_is_cached() {
    let mut element = img();
    let mut sent: Vec<String> = Vec::new();
    for value in ["a.png", "http://[::1", "/b.png", "?q=1"] {
        let prefetch =
            element.AfterSetAttr("src".to_string(), value.to_string(), PAGE.to_string());
        assert_eq!(target(&prefetch), cached(&element));
        if let Some(t) = target(&prefetch) {
            sent.push(t);
        }
    }
    assert_eq!(
        sent,
        vec![
            "http://example.com/page/a.png".to_string(),
            "http://example.com/b.png".to_string(),
            "http://example.com/page/?q=1".to_string(),
        ]
    );
}

#[test]
fn reference_is_not_resolved_again_when_base_moves() {
    let mut element = img();
    element.AfterSetAttr("src".to_string(), "pic.png".to_string(), PAGE.to_string());
    element.AfterSetAttr(
        "alt".to_string(),
        "text".to_string(),
        "http://elsewhere.example/".to_string(),
    );
    assert_eq!(cached(&element), Some(PIC.to_string()));
}

#[test]
fn removal_never_owes_a_prefetch() {
    let mut element = img();
    assert!(element.BeforeRemoveAttr("src".to_string()).is_none());
    element.AfterSetAttr("src".to_string(), "pic.png".to_string(), PAGE.to_string());
    assert!(element.BeforeRemoveAttr("src".to_string()).is_none());
    assert!(element.BeforeRemoveAttr("src".to_string()).is_none());
    assert!(element.image().is_none());
}

#[test]
fn other_attributes_are_inert() {
    let mut element = img();
    element.AfterSetAttr("src".to_string(), "pic.png".to_string(), PAGE.to_string());
    for name in ["alt", "SRC", "srcset", "", "width", "src "] {
        let prefetch =
            element.AfterSetAttr(name.to_string(), "other.png".to_string(), PAGE.to_string());
        assert!(prefetch.is_none());
        assert_eq!(cached(&element), Some(PIC.to_string()));
        assert!(element.BeforeRemoveAttr(name.to_string()).is_none());
        assert_eq!(cached(&element), Some(PIC.to_string()));
    }
}

#[test]
fn watched_attribute_is_src_alone() {
    assert!(is_watched("src"));
    assert!(!is_watched("Src"));
    assert!(!is_watched("sr"));
    assert!(!is_watched("srcs"));
    assert!(!is_watched(""));
}

#[test]
fn update_image_with_value_and_base() {
    let mut element = img();
    let prefetch = element.update_image(Some("pic.png".to_string()), Some(PAGE.to_string()));
    assert_eq!(cached(&element), Some(PIC.to_string()));
    assert_eq!(target(&prefetch), Some(PIC.to_string()));
}

#[test]
fn update_image_without_base_needs_absolute_value() {
    let mut element = img();
    let prefetch = element.update_image(Some(PIC.to_string()), None);
    assert_eq!(cached(&element), Some(PIC.to_string()));
    assert_eq!(target(&prefetch), Some(PIC.to_string()));
    let prefetch = element.update_image(Some("pic.png".to_string()), None);
    assert_eq!(cached(&element), None);
    assert!(prefetch.is_none());
}

#[test]
fn update_image_without_value_clears_whatever_the_base() {
    let mut element = img();
    element.update_image(Some("pic.png".to_string()), Some(PAGE.to_string()));
    let prefetch = element.update_image(None, Some(PAGE.to_string()));
    assert_eq!(cached(&element), None);
    assert!(prefetch.is_none());
    element.update_image(Some("pic.png".to_string()), Some(PAGE.to_string()));
    let prefetch = element.update_image(None, None);
    assert_eq!(cached(&element), None);
    assert!(prefetch.is_none());
}

#[test]
fn commit_reference_stores_and_owes_prefetch() {
    let mut element = img();
    let reference = ResourceIdentifier::resolve("pic.png", Some(PAGE));
    let prefetch = element.commit_reference(reference);
    assert_eq!(cached(&element), Some(PIC.to_string()));
    assert_eq!(target(&prefetch), Some(PIC.to_string()));
    let prefetch = element.commit_reference(None);
    assert_eq!(cached(&element), None);
    assert!(prefetch.is_none());
}

#[test]
fn changes_keep_name_and_address() {
    let mut element = img();
    element.AfterSetAttr("src".to_string(), "pic.png".to_string(), PAGE.to_string());
    element.BeforeRemoveAttr("src".to_string());
    assert_eq!(element.local_name(), "img");
    assert_eq!(element.address(), TrustedNodeAddress(7));
}
