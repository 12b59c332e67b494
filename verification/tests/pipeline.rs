use cpp_bridge::complete_type::CompleteType;
use cpp_bridge::cpp_ffi_type::{CppFfiType, CppToFfiTypeConversion};
use cpp_bridge::cpp_type::{CppType, CppTypeBase, CppTypeIndirection};
use cpp_bridge::errors::BridgeError;
use cpp_bridge::registry::{convert_all, Declaration, Registry};
use cpp_bridge::rust_name::RustName;
use cpp_bridge::rust_type::{RustToCTypeConversion, RustType, RustTypeIndirection};

fn named(parts: &[&str]) -> RustName {
    RustName::new(parts.iter().map(|s| s.to_string()).collect())
}

fn cpp(is_const: bool, indirection: CppTypeIndirection, base: CppTypeBase) -> CppType {
    CppType { is_const, indirection, base }
}

fn scalar(name: &str) -> CppTypeBase {
    CppTypeBase::Scalar { name: named(&["libc", name]) }
}

fn class(name: &str) -> CppTypeBase {
    CppTypeBase::Class { name: named(&["gui", name]), template_arguments: None }
}

fn template(name: &str, arguments: Vec<CppType>) -> CppTypeBase {
    CppTypeBase::Class { name: named(&["gui", name]), template_arguments: Some(arguments) }
}

fn flags() -> CppTypeBase {
    CppTypeBase::Flags { name: named(&["gui", "Alignment"]), integer: named(&["libc", "c_uint"]) }
}

fn parameter() -> CppTypeBase {
    CppTypeBase::TemplateParameter { nested_level: 0, index: 1 }
}

fn rust(parts: &[&str], is_const: bool, indirection: RustTypeIndirection) -> RustType {
    RustType::NonVoid {
        base: named(parts),
        generic_arguments: None,
        is_const,
        indirection,
        is_option: false,
    }
}

const NO: CppTypeIndirection = CppTypeIndirection::NoIndirection;
const PTR: CppTypeIndirection = CppTypeIndirection::Ptr;
const REF: CppTypeIndirection = CppTypeIndirection::Ref;
const PTR_PTR: CppTypeIndirection = CppTypeIndirection::PtrPtr;

#[test]
fn template_parameter_is_found_at_any_depth() {
    assert!(cpp(false, NO, parameter()).has_template_parameter());
    let list = template("List", vec![cpp(false, NO, parameter())]);
    assert!(cpp(false, PTR, list).has_template_parameter());
    let nested = template(
        "Map",
        vec![
            cpp(false, NO, scalar("c_int")),
            cpp(false, NO, template("List", vec![cpp(true, REF, parameter())])),
        ],
    );
    assert!(cpp(false, NO, nested).has_template_parameter());
}

#[test]
fn template_parameter_is_absent() {
    assert!(!cpp(false, NO, CppTypeBase::Void).has_template_parameter());
    assert!(!cpp(false, NO, scalar("c_int")).has_template_parameter());
    assert!(!cpp(false, PTR, class("Widget")).has_template_parameter());
    assert!(!cpp(false, NO, flags()).has_template_parameter());
    assert!(!cpp(false, NO, template("List", Vec::new())).has_template_parameter());
    let list = template("List", vec![cpp(false, NO, scalar("c_int"))]);
    assert!(!cpp(false, NO, list).has_template_parameter());
}

#[test]
fn reshaping_keeps_scalars_and_pointers() {
    for t in [
        cpp(false, NO, scalar("c_int")),
        cpp(true, NO, scalar("c_int")),
        cpp(false, PTR, scalar("c_int")),
        cpp(true, PTR, class("Widget")),
        cpp(false, PTR_PTR, class("Widget")),
        cpp(false, NO, CppTypeBase::Void),
        cpp(false, PTR, CppTypeBase::Void),
        cpp(false, PTR, flags()),
    ] {
        assert_eq!(
            t.to_cpp_ffi_type(),
            Ok(CppFfiType { ffi_type: t.clone(), conversion: CppToFfiTypeConversion::NoConversion })
        );
    }
}

#[test]
fn reshaping_turns_references_into_pointers() {
    assert_eq!(
        cpp(true, REF, class("Widget")).to_cpp_ffi_type(),
        Ok(CppFfiType {
            ffi_type: cpp(true, PTR, class("Widget")),
            conversion: CppToFfiTypeConversion::ReferenceToPointer,
        })
    );
    assert_eq!(
        cpp(false, REF, scalar("c_int")).to_cpp_ffi_type(),
        Ok(CppFfiType {
            ffi_type: cpp(false, PTR, scalar("c_int")),
            conversion: CppToFfiTypeConversion::ReferenceToPointer,
        })
    );
}

#[test]
fn reshaping_turns_class_values_into_pointers() {
    assert_eq!(
        cpp(false, NO, class("Widget")).to_cpp_ffi_type(),
        Ok(CppFfiType {
            ffi_type: cpp(false, PTR, class("Widget")),
            conversion: CppToFfiTypeConversion::ValueToPointer,
        })
    );
}

#[test]
fn reshaping_turns_flags_into_their_integer() {
    assert_eq!(
        cpp(true, NO, flags()).to_cpp_ffi_type(),
        Ok(CppFfiType {
            ffi_type: cpp(true, NO, scalar("c_uint")),
            conversion: CppToFfiTypeConversion::QFlagsToUInt,
        })
    );
}

#[test]
fn reshaping_rejects_template_parameters_and_void_references() {
    assert_eq!(cpp(false, NO, parameter()).to_cpp_ffi_type(), Err(BridgeError::UnsupportedType));
    assert_eq!(cpp(false, PTR, parameter()).to_cpp_ffi_type(), Err(BridgeError::UnsupportedType));
    assert_eq!(
        cpp(false, PTR, template("List", vec![cpp(false, NO, parameter())])).to_cpp_ffi_type(),
        Err(BridgeError::UnsupportedType)
    );
    assert_eq!(
        cpp(false, REF, CppTypeBase::Void).to_cpp_ffi_type(),
        Err(BridgeError::UnsupportedType)
    );
}

#[test]
fn mirror_of_void() {
    assert_eq!(cpp(false, NO, CppTypeBase::Void).to_rust_ffi_type(), Ok(RustType::Void));
    assert_eq!(
        cpp(true, PTR, CppTypeBase::Void).to_rust_ffi_type(),
        Ok(rust(&["libc", "c_void"], true, RustTypeIndirection::Ptr))
    );
}

#[test]
fn mirror_keeps_name_constness_and_pointers() {
    assert_eq!(
        cpp(false, NO, scalar("c_int")).to_rust_ffi_type(),
        Ok(rust(&["libc", "c_int"], false, RustTypeIndirection::NoIndirection))
    );
    assert_eq!(
        cpp(true, PTR, class("Widget")).to_rust_ffi_type(),
        Ok(rust(&["gui", "Widget"], true, RustTypeIndirection::Ptr))
    );
    assert_eq!(
        cpp(false, PTR_PTR, class("Widget")).to_rust_ffi_type(),
        Ok(rust(&["gui", "Widget"], false, RustTypeIndirection::PtrPtr))
    );
    assert_eq!(
        cpp(false, PTR, flags()).to_rust_ffi_type(),
        Ok(rust(&["gui", "Alignment"], false, RustTypeIndirection::Ptr))
    );
}

#[test]
fn mirror_is_missing_for_types_that_do_not_cross() {
    for t in [
        cpp(false, REF, class("Widget")),
        cpp(false, REF, scalar("c_int")),
        cpp(false, NO, class("Widget")),
        cpp(false, NO, flags()),
        cpp(false, PTR, parameter()),
        cpp(false, PTR, template("List", vec![cpp(false, NO, scalar("c_int"))])),
        cpp(false, PTR, template("List", Vec::new())),
    ] {
        assert_eq!(t.to_rust_ffi_type(), Err(BridgeError::UnsupportedType));
    }
}

#[test]
fn offered_type_follows_the_conversion() {
    let mirror = rust(&["gui", "Widget"], true, RustTypeIndirection::Ptr);
    let native = cpp(true, REF, class("Widget"));
    assert_eq!(
        native.to_rust_api_type(CppToFfiTypeConversion::NoConversion, &mirror),
        mirror
    );
    assert_eq!(
        native.to_rust_api_type(CppToFfiTypeConversion::ReferenceToPointer, &mirror),
        rust(&["gui", "Widget"], true, RustTypeIndirection::Ref { lifetime: None })
    );
    assert_eq!(
        native.to_rust_api_type(CppToFfiTypeConversion::ValueToPointer, &mirror),
        rust(&["gui", "Widget"], true, RustTypeIndirection::NoIndirection)
    );
    let integer = rust(&["libc", "c_uint"], false, RustTypeIndirection::NoIndirection);
    assert_eq!(
        cpp(false, NO, flags()).to_rust_api_type(CppToFfiTypeConversion::QFlagsToUInt, &integer),
        rust(&["gui", "Alignment"], false, RustTypeIndirection::NoIndirection)
    );
}

#[test]
fn indirections_and_conversions_have_counterparts() {
    assert_eq!(NO.to_rust(), RustTypeIndirection::NoIndirection);
    assert_eq!(PTR.to_rust(), RustTypeIndirection::Ptr);
    assert_eq!(REF.to_rust(), RustTypeIndirection::Ref { lifetime: None });
    assert_eq!(PTR_PTR.to_rust(), RustTypeIndirection::PtrPtr);
    assert_eq!(CppToFfiTypeConversion::NoConversion.to_rust(), RustToCTypeConversion::NoConversion);
    assert_eq!(CppToFfiTypeConversion::ValueToPointer.to_rust(), RustToCTypeConversion::ValueToPtr);
    assert_eq!(
        CppToFfiTypeConversion::ReferenceToPointer.to_rust(),
        RustToCTypeConversion::RefToPtr
    );
    assert_eq!(CppToFfiTypeConversion::QFlagsToUInt.to_rust(), RustToCTypeConversion::QFlagsToUInt);
}

#[test]
fn record_of_a_scalar() {
    let record = CompleteType::new(cpp(false, NO, scalar("c_int"))).unwrap();
    assert_eq!(record.cpp_type(), &cpp(false, NO, scalar("c_int")));
    assert_eq!(record.cpp_ffi_type(), &cpp(false, NO, scalar("c_int")));
    assert_eq!(record.cpp_to_ffi_conversion(), CppToFfiTypeConversion::NoConversion);
    let host = rust(&["libc", "c_int"], false, RustTypeIndirection::NoIndirection);
    assert_eq!(record.rust_ffi_type(), &host);
    assert_eq!(record.rust_api_type(), &host);
    assert_eq!(record.rust_api_to_c_conversion(), RustToCTypeConversion::NoConversion);
}

#[test]
fn record_of_a_reference() {
    let record = CompleteType::new(cpp(true, REF, class("Widget"))).unwrap();
    assert_eq!(record.cpp_type(), &cpp(true, REF, class("Widget")));
    assert_eq!(record.cpp_ffi_type(), &cpp(true, PTR, class("Widget")));
    assert_eq!(record.cpp_to_ffi_conversion(), CppToFfiTypeConversion::ReferenceToPointer);
    assert_eq!(record.rust_ffi_type(), &rust(&["gui", "Widget"], true, RustTypeIndirection::Ptr));
    assert_eq!(
        record.rust_api_type(),
        &rust(&["gui", "Widget"], true, RustTypeIndirection::Ref { lifetime: None })
    );
    assert_eq!(record.rust_api_to_c_conversion(), RustToCTypeConversion::RefToPtr);
}

#[test]
fn record_of_a_class_value() {
    let record = CompleteType::new(cpp(false, NO, class("Widget"))).unwrap();
    assert_eq!(record.cpp_ffi_type(), &cpp(false, PTR, class("Widget")));
    assert_eq!(record.cpp_to_ffi_conversion(), CppToFfiTypeConversion::ValueToPointer);
    assert_eq!(record.rust_ffi_type(), &rust(&["gui", "Widget"], false, RustTypeIndirection::Ptr));
    assert_eq!(
        record.rust_api_type(),
        &rust(&["gui", "Widget"], false, RustTypeIndirection::NoIndirection)
    );
    assert_eq!(record.rust_api_to_c_conversion(), RustToCTypeConversion::ValueToPtr);
}

#[test]
fn record_of_flags() {
    let record = CompleteType::new(cpp(false, NO, flags())).unwrap();
    assert_eq!(record.cpp_ffi_type(), &cpp(false, NO, scalar("c_uint")));
    assert_eq!(record.cpp_to_ffi_conversion(), CppToFfiTypeConversion::QFlagsToUInt);
    assert_eq!(
        record.rust_ffi_type(),
        &rust(&["libc", "c_uint"], false, RustTypeIndirection::NoIndirection)
    );
    assert_eq!(
        record.rust_api_type(),
        &rust(&["gui", "Alignment"], false, RustTypeIndirection::NoIndirection)
    );
    assert_eq!(record.rust_api_to_c_conversion(), RustToCTypeConversion::QFlagsToUInt);
}

#[test]
fn record_of_void_and_void_pointer() {
    let nothing = CompleteType::new(cpp(false, NO, CppTypeBase::Void)).unwrap();
    assert_eq!(nothing.rust_ffi_type(), &RustType::Void);
    assert_eq!(nothing.rust_api_type(), &RustType::Void);
    let pointer = CompleteType::new(cpp(false, PTR, CppTypeBase::Void)).unwrap();
    let host = rust(&["libc", "c_void"], false, RustTypeIndirection::Ptr);
    assert_eq!(pointer.rust_ffi_type(), &host);
    assert_eq!(pointer.rust_api_type(), &host);
}

#[test]
fn record_is_missing_for_unsupported_types() {
    for t in [
        cpp(false, NO, parameter()),
        cpp(false, REF, CppTypeBase::Void),
        cpp(false, PTR, template("List", vec![cpp(false, NO, scalar("c_int"))])),
        cpp(false, NO, template("List", vec![cpp(false, NO, parameter())])),
    ] {
        assert_eq!(CompleteType::new(t), Err(BridgeError::UnsupportedType));
    }
}

#[test]
fn every_record_mirrors_pointer_for_pointer() {
    let bases = [CppTypeBase::Void, scalar("c_int"), class("Widget"), flags()];
    for base in &bases {
        for indirection in [NO, PTR, REF, PTR_PTR] {
            for is_const in [false, true] {
                let native = cpp(is_const, indirection, base.clone());
                if let Ok(record) = CompleteType::new(native.clone()) {
                    assert_eq!(record.cpp_type(), &native);
                    assert!(record.rust_ffi_type().is_ffi_safe());
                    let depth = match record.cpp_ffi_type().indirection {
                        CppTypeIndirection::NoIndirection => RustTypeIndirection::NoIndirection,
                        CppTypeIndirection::Ptr => RustTypeIndirection::Ptr,
                        CppTypeIndirection::PtrPtr => RustTypeIndirection::PtrPtr,
                        CppTypeIndirection::Ref => unreachable!(),
                    };
                    match record.rust_ffi_type() {
                        RustType::Void => assert_eq!(depth, RustTypeIndirection::NoIndirection),
                        RustType::NonVoid {
                            indirection,
                            is_const,
                            generic_arguments,
                            is_option,
                            ..
                        } => {
                            assert_eq!(indirection, &depth);
                            assert_eq!(*is_const, record.cpp_ffi_type().is_const);
                            assert!(generic_arguments.is_none());
                            assert!(!*is_option);
                        }
                    }
                    assert_eq!(
                        record.rust_api_to_c_conversion(),
                        record.cpp_to_ffi_conversion().to_rust()
                    );
                } else {
                    assert!(matches!(indirection, CppTypeIndirection::Ref));
                    assert_eq!(base, &CppTypeBase::Void);
                }
            }
        }
    }
}

#[test]
fn native_type_clone_is_equal() {
    let t = cpp(
        true,
        PTR,
        template("Map", vec![cpp(false, NO, scalar("c_int")), cpp(false, REF, parameter())]),
    );
    assert_eq!(t.clone(), t);
}

#[test]
fn native_captions() {
    assert_eq!(cpp(false, NO, CppTypeBase::Void).caption(), "mvV");
    assert_eq!(cpp(true, PTR, CppTypeBase::Void).caption(), "cpV");
    assert_eq!(cpp(false, NO, scalar("c_int")).caption(), "mvSlibc__c_5fint___E");
    assert_eq!(cpp(false, REF, class("Widget")).caption(), "mrCgui__Widget___E");
    assert_eq!(cpp(true, PTR_PTR, class("Widget")).caption(), "cqCgui__Widget___E");
    assert_eq!(
        cpp(false, NO, flags()).caption(),
        "mvFgui__Alignment___Elibc__c_5fuint___E"
    );
    assert_eq!(cpp(false, NO, parameter()).caption(), "mvT0000000000000001");
    assert_eq!(
        cpp(false, NO, CppTypeBase::TemplateParameter { nested_level: 12, index: 345 }).caption(),
        "mvT0000000c00000159"
    );
    assert_eq!(
        cpp(
            false,
            NO,
            CppTypeBase::TemplateParameter { nested_level: u32::MAX, index: 0x12345678 }
        )
        .caption(),
        "mvTffffffff12345678"
    );
    assert_eq!(
        cpp(
            false,
            PTR,
            template("Map", vec![cpp(false, NO, scalar("c_int")), cpp(true, REF, class("Widget"))])
        )
        .caption(),
        "mpGgui__Map___EmvSlibc__c_5fint___EcrCgui__Widget___EE"
    );
    assert_eq!(cpp(false, NO, template("List", Vec::new())).caption(), "mvGgui__List___EE");
    assert_eq!(class("Widget").caption(), "Cgui__Widget___E");
    assert_eq!(CppTypeBase::Void.caption(), "V");
}

#[test]
fn native_captions_tell_types_apart() {
    let single = |name: &str| CppTypeBase::Class { name: named(&[name]), template_arguments: None };
    let types = vec![
        cpp(false, NO, CppTypeBase::Void),
        cpp(true, NO, CppTypeBase::Void),
        cpp(false, PTR, CppTypeBase::Void),
        cpp(false, NO, single("A")),
        cpp(false, PTR, single("A")),
        cpp(false, NO, single("A_ptr")),
        cpp(false, NO, single("Ap")),
        cpp(false, NO, single("")),
        cpp(false, NO, single("_")),
        cpp(false, NO, single("__")),
        cpp(false, NO, single("_E")),
        cpp(false, NO, CppTypeBase::Class { name: named(&["A", "B"]), template_arguments: None }),
        cpp(false, NO, CppTypeBase::Class { name: named(&["A__B"]), template_arguments: None }),
        cpp(false, NO, CppTypeBase::Class { name: named(&["A", ""]), template_arguments: None }),
        cpp(false, NO, CppTypeBase::Scalar { name: named(&["A"]) }),
        cpp(false, NO, CppTypeBase::Flags { name: named(&["A"]), integer: named(&["B"]) }),
        cpp(false, NO, CppTypeBase::Flags { name: named(&["A", "B"]), integer: named(&["C"]) }),
        cpp(false, NO, CppTypeBase::Flags { name: named(&["A"]), integer: named(&["B", "C"]) }),
        cpp(
            false,
            NO,
            CppTypeBase::Class { name: named(&["A"]), template_arguments: Some(Vec::new()) },
        ),
        cpp(
            false,
            PTR,
            CppTypeBase::Class {
                name: named(&["A"]),
                template_arguments: Some(vec![cpp(false, NO, single("B"))]),
            },
        ),
        cpp(
            false,
            NO,
            CppTypeBase::Class {
                name: named(&["A"]),
                template_arguments: Some(vec![cpp(false, PTR, single("B"))]),
            },
        ),
        cpp(
            false,
            NO,
            CppTypeBase::Class {
                name: named(&["A"]),
                template_arguments: Some(vec![
                    cpp(false, NO, single("B")),
                    cpp(false, NO, single("C")),
                ]),
            },
        ),
        cpp(
            false,
            NO,
            CppTypeBase::Class {
                name: named(&["A"]),
                template_arguments: Some(vec![cpp(
                    false,
                    NO,
                    CppTypeBase::Class {
                        name: named(&["B"]),
                        template_arguments: Some(vec![cpp(false, NO, single("C"))]),
                    },
                )]),
            },
        ),
        cpp(false, NO, CppTypeBase::TemplateParameter { nested_level: 1, index: 16 }),
        cpp(false, NO, CppTypeBase::TemplateParameter { nested_level: 16, index: 1 }),
    ];
    for i in 0..types.len() {
        for j in 0..types.len() {
            assert_eq!(types[i].caption() == types[j].caption(), i == j);
        }
    }
}

#[test]
fn native_captions_are_identifiers() {
    let odd = CppTypeBase::Class {
        name: named(&["std", "vector<int>", "\u{e9}t\u{e9} + 1"]),
        template_arguments: Some(vec![cpp(true, REF, CppTypeBase::Void)]),
    };
    let caption = cpp(false, PTR, odd).caption();
    assert_eq!(
        caption,
        "mpGstd__vector_3cint_3e___u0000e9t_u0000e9_20_2b_201___EcrVE"
    );
    assert!(caption.chars().all(|c| c.is_ascii_alphanumeric() || c == '_'));
}

fn batch() -> Vec<Declaration> {
    vec![
        Declaration { id: 7, cpp_type: cpp(false, NO, scalar("c_int")) },
        Declaration { id: 3, cpp_type: cpp(false, NO, parameter()) },
        Declaration { id: 9, cpp_type: cpp(true, REF, class("Widget")) },
        Declaration { id: 1, cpp_type: cpp(false, NO, flags()) },
    ]
}

fn check_batch(registry: &Registry) {
    assert_eq!(registry.len(), 4);
    assert_eq!(registry.get(7), Some(&CompleteType::new(cpp(false, NO, scalar("c_int")))));
    assert_eq!(registry.get(3), Some(&Err(BridgeError::UnsupportedType)));
    assert_eq!(registry.get(9), Some(&CompleteType::new(cpp(true, REF, class("Widget")))));
    assert_eq!(registry.get(1), Some(&CompleteType::new(cpp(false, NO, flags()))));
    assert_eq!(registry.get(2), None);
}

#[test]
fn one_failure_does_not_stop_the_batch() {
    check_batch(&convert_all(&batch()));
}

#[test]
fn registry_does_not_depend_on_the_order() {
    let mut reversed = batch();
    reversed.reverse();
    check_batch(&convert_all(&reversed));
    let mut rotated = batch();
    rotated.rotate_left(1);
    check_batch(&convert_all(&rotated));
}

#[test]
fn registry_filled_by_hand_equals_the_converted_batch() {
    let mut registry = Registry::new();
    assert_eq!(registry.len(), 0);
    let mut declarations = batch();
    declarations.swap(0, 2);
    for declaration in declarations {
        registry.record(declaration.id, CompleteType::new(declaration.cpp_type));
    }
    check_batch(&registry);
}

#[test]
fn registry_keeps_the_last_outcome_of_an_identity() {
    let mut registry = Registry::new();
    registry.record(5, CompleteType::new(cpp(false, NO, parameter())));
    registry.record(5, CompleteType::new(cpp(false, NO, scalar("c_int"))));
    assert_eq!(registry.len(), 1);
    assert_eq!(registry.get(5), Some(&CompleteType::new(cpp(false, NO, scalar("c_int")))));
}

#[test]
fn empty_batch_gives_empty_registry() {
    assert_eq!(convert_all(&Vec::new()).len(), 0);
}
