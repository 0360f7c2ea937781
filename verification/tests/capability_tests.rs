use newtype_enum::Enum;
use newtype_enum::status::Status;
use newtype_enum::status_variants::Ready;
use newtype_enum::status_variants::Window;

#[test]
fn construct_then_extract_returns_payload() {
    let e = Status::from_variant(Window { width: 3, height: 4 });
    assert_eq!(e, Status::Window(Window { width: 3, height: 4 }));
    let w: Option<Window> = e.into_variant();
    assert_eq!(w, Some(Window { width: 3, height: 4 }));

    let e = Status::from_variant(7u16);
    assert_eq!(e, Status::Code(7));
    assert_eq!(e.into_variant::<u16>(), Some(7));

    let e = Status::from_variant(Ready);
    assert_eq!(e.into_variant::<Ready>(), Some(Ready));
}

#[test]
fn extract_with_wrong_tag_is_none() {
    let e = Status::from_variant(7u16);
    let w: Option<Window> = e.into_variant();
    assert_eq!(w, None);
    assert_eq!(e.into_variant::<Ready>(), None);
}

#[test]
fn tag_test_is_exclusive() {
    let e = Status::from_variant(Ready);
    assert!(e.is_variant::<Ready>());
    assert!(!e.is_variant::<u16>());
    assert!(!e.is_variant::<Window>());

    let e = Status::from_variant(9u16);
    assert!(!e.is_variant::<Ready>());
    assert!(e.is_variant::<u16>());
    assert!(!e.is_variant::<Window>());

    let e = Status::from_variant(Window { width: 1, height: 2 });
    assert!(!e.is_variant::<Ready>());
    assert!(!e.is_variant::<u16>());
    assert!(e.is_variant::<Window>());
}

#[test]
fn set_variant_returns_old_value() {
    let mut e = Status::from_variant(5u16);
    let old = e.set_variant(Ready);
    assert_eq!(old, Status::Code(5));
    assert_eq!(e, Status::Ready(Ready));
}

#[test]
fn variant_reference_access() {
    let e = Status::from_variant(5u16);
    assert_eq!(e.variant::<u16>(), Some(&5));
    assert_eq!(e.variant::<Window>(), None);
}

#[test]
fn variant_mutable_access() {
    let mut e = Status::from_variant(5u16);
    if let Some(v) = e.variant_mut::<u16>() {
        *v = 9;
    }
    assert_eq!(e.into_variant::<u16>(), Some(9));
    let mut e = Status::from_variant(Ready);
    assert!(e.variant_mut::<u16>().is_none());
    assert_eq!(e, Status::Ready(Ready));
}

#[test]
fn unwrap_on_matching_tag() {
    let e = Status::from_variant(Window { width: 1, height: 2 });
    let w: Window = e.into_variant_unwrap();
    assert_eq!(w, Window { width: 1, height: 2 });
}

#[test]
fn unchecked_access_after_tag_test() {
    let e = Status::from_variant(5u16);
    if e.is_variant::<u16>() {
        assert_eq!(*e.variant_unchecked::<u16>(), 5);
        let mut e2 = e;
        {
            let v: &mut u16 = e2.variant_unchecked_mut();
            *v = 6;
        }
        assert_eq!(e2, Status::Code(6));
        let v: u16 = e.into_variant_unchecked();
        assert_eq!(v, 5);
    } else {
        panic!("expected the u16 variant");
    }
}
