use cpp_bridge::errors::BridgeError;
use cpp_bridge::rust_name::RustName;
use cpp_bridge::rust_type::{RustToCTypeConversion, RustType, RustTypeIndirection};

fn named(parts: &[&str]) -> RustName {
    RustName::new(parts.iter().map(|s| s.to_string()).collect())
}

fn plain(parts: &[&str], indirection: RustTypeIndirection) -> RustType {
    RustType::NonVoid {
        base: named(parts),
        generic_arguments: None,
        is_const: false,
        indirection,
        is_option: false,
    }
}

fn generic(parts: &[&str], arguments: Vec<RustType>) -> RustType {
    RustType::NonVoid {
        base: named(parts),
        generic_arguments: Some(arguments),
        is_const: false,
        indirection: RustTypeIndirection::NoIndirection,
        is_option: false,
    }
}

fn reference(lifetime: Option<&str>) -> RustTypeIndirection {
    RustTypeIndirection::Ref { lifetime: lifetime.map(|l| l.to_string()) }
}

#[test]
fn assigning_a_lifetime_once_succeeds() {
    let assigned = reference(None).assign_lifetime("a".to_string());
    assert_eq!(assigned, Ok(reference(Some("a"))));
}

#[test]
fn assigning_a_lifetime_twice_is_a_conflict() {
    let once = reference(None).assign_lifetime("a".to_string()).unwrap();
    assert_eq!(once.assign_lifetime("b".to_string()), Err(BridgeError::LifetimeConflict));
    assert_eq!(once.assign_lifetime("a".to_string()), Err(BridgeError::LifetimeConflict));
}

#[test]
fn assigning_a_lifetime_leaves_the_original() {
    let original = reference(None);
    let _ = original.assign_lifetime("a".to_string());
    assert_eq!(original, reference(None));
}

#[test]
fn assigning_a_lifetime_to_no_reference_changes_nothing() {
    assert_eq!(
        RustTypeIndirection::NoIndirection.assign_lifetime("a".to_string()),
        Ok(RustTypeIndirection::NoIndirection)
    );
    assert_eq!(
        RustTypeIndirection::Ptr.assign_lifetime("a".to_string()),
        Ok(RustTypeIndirection::Ptr)
    );
    assert_eq!(
        RustTypeIndirection::PtrPtr.assign_lifetime("a".to_string()),
        Ok(RustTypeIndirection::PtrPtr)
    );
}

#[test]
fn indirections_compare_by_shape_and_lifetime() {
    assert_eq!(RustTypeIndirection::Ptr, RustTypeIndirection::Ptr);
    assert_ne!(RustTypeIndirection::Ptr, RustTypeIndirection::PtrPtr);
    assert_ne!(RustTypeIndirection::NoIndirection, RustTypeIndirection::Ptr);
    assert_eq!(reference(None), reference(None));
    assert_eq!(reference(Some("a")), reference(Some("a")));
    assert_ne!(reference(Some("a")), reference(Some("b")));
    assert_ne!(reference(Some("a")), reference(None));
    assert_ne!(reference(None), RustTypeIndirection::Ptr);
}

#[test]
fn indirection_clone_is_equal() {
    for ind in [
        RustTypeIndirection::NoIndirection,
        RustTypeIndirection::Ptr,
        RustTypeIndirection::PtrPtr,
        reference(None),
        reference(Some("a")),
    ] {
        assert_eq!(ind.clone(), ind);
    }
}

#[test]
fn caption_of_void_is_absent() {
    assert_eq!(RustType::Void.caption(), None);
}

#[test]
fn caption_of_plain_type_is_last_segment() {
    let widget = plain(&["Widget"], RustTypeIndirection::NoIndirection);
    assert_eq!(widget.caption(), Some("Widget".to_string()));
    let qualified = plain(&["gui", "widgets", "Widget"], RustTypeIndirection::Ptr);
    assert_eq!(qualified.caption(), Some("Widget".to_string()));
}

#[test]
fn caption_of_generic_type_joins_arguments() {
    let i32_type = plain(&["I32"], RustTypeIndirection::NoIndirection);
    let vec_type = generic(&["Vec"], vec![i32_type]);
    assert_eq!(vec_type.caption(), Some("Vec_I32".to_string()));
}

#[test]
fn caption_of_nested_generic_type() {
    let key = plain(&["std", "String"], RustTypeIndirection::NoIndirection);
    let item = plain(&["I32"], RustTypeIndirection::NoIndirection);
    let value = generic(&["Vec"], vec![item]);
    let map = generic(&["std", "Map"], vec![key, value]);
    assert_eq!(map.caption(), Some("Map_String_Vec_I32".to_string()));
}

#[test]
fn caption_of_generic_type_with_void_and_without_arguments() {
    let with_void = generic(
        &["Fn"],
        vec![RustType::Void, plain(&["I32"], RustTypeIndirection::NoIndirection)],
    );
    assert_eq!(with_void.caption(), Some("Fn__I32".to_string()));
    let without = generic(&["Unit"], Vec::new());
    assert_eq!(without.caption(), Some("Unit_".to_string()));
}

#[test]
fn with_lifetime_assigns_to_a_reference() {
    let t = plain(&["Widget"], reference(None));
    assert_eq!(t.with_lifetime("a".to_string()), plain(&["Widget"], reference(Some("a"))));
    assert_eq!(t, plain(&["Widget"], reference(None)));
}

#[test]
fn with_lifetime_keeps_other_types() {
    let pointer = plain(&["Widget"], RustTypeIndirection::Ptr);
    assert_eq!(pointer.with_lifetime("a".to_string()), pointer);
    assert_eq!(RustType::Void.with_lifetime("a".to_string()), RustType::Void);
}

#[test]
fn with_lifetime_keeps_the_rest_of_the_type() {
    let t = RustType::NonVoid {
        base: named(&["gui", "Widget"]),
        generic_arguments: Some(vec![plain(&["I32"], RustTypeIndirection::NoIndirection)]),
        is_const: true,
        indirection: reference(None),
        is_option: true,
    };
    let expected = RustType::NonVoid {
        base: named(&["gui", "Widget"]),
        generic_arguments: Some(vec![plain(&["I32"], RustTypeIndirection::NoIndirection)]),
        is_const: true,
        indirection: reference(Some("a")),
        is_option: true,
    };
    assert_eq!(t.with_lifetime("a".to_string()), expected);
}

#[test]
fn try_with_lifetime_reports_conflict() {
    let t = plain(&["Widget"], reference(None));
    let once = t.try_with_lifetime("a".to_string()).unwrap();
    assert_eq!(once, plain(&["Widget"], reference(Some("a"))));
    assert_eq!(once.try_with_lifetime("b".to_string()), Err(BridgeError::LifetimeConflict));
}

#[test]
fn with_indirection_replaces_the_indirection() {
    let t = plain(&["Widget"], RustTypeIndirection::Ptr);
    assert_eq!(
        t.with_indirection(RustTypeIndirection::NoIndirection),
        plain(&["Widget"], RustTypeIndirection::NoIndirection)
    );
    assert_eq!(RustType::Void.with_indirection(RustTypeIndirection::Ptr), RustType::Void);
}

#[test]
fn type_clone_is_equal() {
    let t = generic(&["std", "Map"], vec![plain(&["I32"], reference(Some("a"))), RustType::Void]);
    assert_eq!(t.clone(), t);
}

#[test]
fn trivial_lifetimes() {
    assert!(RustTypeIndirection::NoIndirection.has_trivial_lifetime());
    assert!(RustTypeIndirection::Ptr.has_trivial_lifetime());
    assert!(RustTypeIndirection::PtrPtr.has_trivial_lifetime());
    assert!(reference(None).has_trivial_lifetime());
    assert!(reference(Some("static")).has_trivial_lifetime());
    assert!(!reference(Some("a")).has_trivial_lifetime());
    assert!(!reference(Some("'static")).has_trivial_lifetime());
}

#[test]
fn ffi_safe_types() {
    assert!(RustType::Void.is_ffi_safe());
    assert!(plain(&["Widget"], RustTypeIndirection::Ptr).is_ffi_safe());
    assert!(plain(&["i32"], RustTypeIndirection::NoIndirection).is_ffi_safe());
    assert!(plain(&["Widget"], reference(None)).is_ffi_safe());
    assert!(plain(&["Widget"], reference(Some("static"))).is_ffi_safe());
}

#[test]
fn types_that_are_not_ffi_safe() {
    assert!(!plain(&["Widget"], reference(Some("a"))).is_ffi_safe());
    let list = generic(&["Vec"], vec![plain(&["I32"], RustTypeIndirection::NoIndirection)]);
    assert!(!list.is_ffi_safe());
    assert!(!generic(&["Unit"], Vec::new()).is_ffi_safe());
    let optional = RustType::NonVoid {
        base: named(&["Widget"]),
        generic_arguments: None,
        is_const: false,
        indirection: RustTypeIndirection::Ptr,
        is_option: true,
    };
    assert!(!optional.is_ffi_safe());
}

#[test]
fn conversions_are_distinct() {
    let all = [
        RustToCTypeConversion::NoConversion,
        RustToCTypeConversion::RefToPtr,
        RustToCTypeConversion::ValueToPtr,
        RustToCTypeConversion::QFlagsToUInt,
    ];
    for i in 0..all.len() {
        for j in 0..all.len() {
            assert_eq!(all[i] == all[j], i == j);
        }
    }
}
