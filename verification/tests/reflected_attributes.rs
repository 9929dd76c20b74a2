use image_element::attribute::{AttributeWrite, Error, ErrorResult};
use image_element::htmlimageelement::HTMLImageElement;
use image_element::layout_interface::TrustedNodeAddress;

fn img() -> HTMLImageElement {
    HTMLImageElement::new_inherited("img".to_string(), TrustedNodeAddress(1))
}

#[test]
fn set_src_asks_the_store_and_leaves_the_reference() {
    let mut element = img();
    let AttributeWrite { name, value } = element.SetSrc("pic.png".to_string());
    assert_eq!(name, "src");
    assert_eq!(value, "pic.png");
    assert!(element.image().is_none());
}

#[test]
fn store_reporting_the_write_updates_the_reference() {
    let mut element = img();
    let write = element.SetSrc("pic.png".to_string());
    let prefetch =
        element.AfterSetAttr(write.name, write.value, "http://example.com/page/".to_string());
    assert_eq!(
        element.image().as_ref().map(|r| r.as_str()),
        Some("http://example.com/page/pic.png")
    );
    assert_eq!(
        prefetch.as_ref().map(|m| m.reference().as_str()),
        Some("http://example.com/page/pic.png")
    );
}

#[test]
fn set_width_writes_decimal_text() {
    let mut element = img();
    let write = element.SetWidth(640);
    assert_eq!(write.name, "width");
    assert_eq!(write.value, "640");
    let write = element.SetWidth(0);
    assert_eq!(write.value, "0");
    let write = element.SetWidth(u32::MAX);
    assert_eq!(write.value, "4294967295");
}

#[test]
fn set_height_writes_decimal_text() {
    let mut element = img();
    let write = element.SetHeight(480);
    assert_eq!(write.name, "height");
    assert_eq!(write.value, "480");
}

#[test]
fn size_writes_are_inert_for_the_reference() {
    let mut element = img();
    let write = element.SetWidth(12);
    let prefetch =
        element.AfterSetAttr(write.name, write.value, "http://example.com/".to_string());
    assert!(prefetch.is_none());
    assert!(element.image().is_none());
}

#[test]
fn text_attributes_read_empty() {
    let element = img();
    assert_eq!(element.Alt(), "");
    assert_eq!(element.Src(), "");
    assert_eq!(element.CrossOrigin(), "");
    assert_eq!(element.UseMap(), "");
    assert_eq!(element.Name(), "");
    assert_eq!(element.Align(), "");
    assert_eq!(element.LongDesc(), "");
    assert_eq!(element.Border(), "");
}

#[test]
fn numbers_and_flags_read_default() {
    let element = img();
    assert!(!element.IsMap());
    assert!(!element.Complete());
    assert_eq!(element.NaturalWidth(), 0);
    assert_eq!(element.NaturalHeight(), 0);
    assert_eq!(element.Hspace(), 0);
    assert_eq!(element.Vspace(), 0);
}

#[test]
fn setters_accept_and_keep_nothing() {
    let mut element = img();
    let ok: ErrorResult = Ok(());
    assert_eq!(element.SetAlt("a".to_string()), ok);
    assert_eq!(element.SetCrossOrigin("anonymous".to_string()), ok);
    assert_eq!(element.SetUseMap("#m".to_string()), ok);
    assert_eq!(element.SetIsMap(true), ok);
    assert_eq!(element.SetName("n".to_string()), ok);
    assert_eq!(element.SetAlign("left".to_string()), ok);
    assert_eq!(element.SetHspace(3), ok);
    assert_eq!(element.SetVspace(4), ok);
    assert_eq!(element.SetLongDesc("d".to_string()), ok);
    assert_eq!(element.SetBorder("1".to_string()), ok);
    assert_ne!(element.SetAlt("b".to_string()), Err(Error::NotSupported));
    assert_eq!(element.Alt(), "");
    assert!(!element.IsMap());
    assert_eq!(element.Hspace(), 0);
    assert_eq!(element.Vspace(), 0);
    assert!(element.image().is_none());
}
