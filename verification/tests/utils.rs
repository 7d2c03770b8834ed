use ffi_convert::syntax::AngleBracketedArguments;
use ffi_convert::syntax::Attribute;
use ffi_convert::syntax::Data;
use ffi_convert::syntax::FieldSyntax;
use ffi_convert::syntax::PathArguments;
use ffi_convert::syntax::PathSegment;
use ffi_convert::syntax::QSelf;
use ffi_convert::syntax::Type;
use ffi_convert::syntax::TypeArray;
use ffi_convert::syntax::TypePath;
use ffi_convert::utils::attribute_named;
use ffi_convert::utils::classify_field;
use ffi_convert::utils::detect_c_string;
use ffi_convert::utils::find_arguments;
use ffi_convert::utils::find_attribute;
use ffi_convert::utils::push_decimal;
use ffi_convert::utils::too_many_levels_message;
use ffi_convert::utils::unmarked_pointer_to_pointer;
use ffi_convert::failure_message;
use ffi_convert::utils::strip_pointers;
use ffi_convert::utils::target_type_from;
use ffi_convert::generic_path_to_concrete_type_path;
use ffi_convert::parse_field;
use ffi_convert::parse_no_drop_impl_flag;
use ffi_convert::parse_struct_fields;
use ffi_convert::parse_target_type;
use ffi_convert::try_parse_field;
use ffi_convert::try_parse_struct_fields;
use ffi_convert::try_parse_target_type;
use ffi_convert::ClassificationError;
use ffi_convert::Field;
use ffi_convert::TypeArrayOrTypePath;
use quote::ToTokens;

fn lower_segment(segment: &syn::PathSegment) -> PathSegment {
    PathSegment {
        ident: segment.ident.to_string(),
        arguments: match &segment.arguments {
            syn::PathArguments::None => PathArguments::Absent,
            syn::PathArguments::AngleBracketed(arguments) => {
                PathArguments::AngleBracketed(AngleBracketedArguments {
                    args: arguments
                        .args
                        .iter()
                        .map(|argument| argument.to_token_stream().to_string())
                        .collect(),
                })
            }
            syn::PathArguments::Parenthesized(arguments) => {
                PathArguments::Parenthesized(arguments.to_token_stream().to_string())
            }
        },
    }
}

fn lower_path(path: &syn::Path) -> TypePath {
    TypePath {
        qself: None,
        leading_colon: path.leading_colon.is_some(),
        segments: path.segments.iter().map(lower_segment).collect(),
    }
}

fn lower_type(ty: &syn::Type) -> Type {
    match ty {
        syn::Type::Ptr(pointer) => Type::Ptr {
            mutable: pointer.mutability.is_some(),
            elem: Box::new(lower_type(&pointer.elem)),
        },
        syn::Type::Path(path) => Type::Path(TypePath {
            qself: path.qself.as_ref().map(|qself| QSelf {
                ty: qself.ty.to_token_stream().to_string(),
                position: qself.position,
            }),
            ..lower_path(&path.path)
        }),
        syn::Type::Array(array) => Type::Array(TypeArray {
            elem: array.elem.to_token_stream().to_string(),
            len: array.len.to_token_stream().to_string(),
        }),
        other => Type::Other(other.to_token_stream().to_string()),
    }
}

fn lower_attribute(attribute: &syn::Attribute) -> Attribute {
    let arguments = match &attribute.meta {
        syn::Meta::List(list) => Some(list.tokens.to_string()),
        _ => None,
    };
    Attribute {
        path: lower_path(attribute.path()),
        arguments,
    }
}

fn lower_field(field: &syn::Field) -> FieldSyntax {
    FieldSyntax {
        ident: field.ident.as_ref().map(|ident| ident.to_string()),
        ty: lower_type(&field.ty),
        attrs: field.attrs.iter().map(lower_attribute).collect(),
    }
}

fn type_path(source: &str) -> TypePath {
    match lower_type(&syn::Type::Path(
        syn::parse_str::<syn::TypePath>(source).unwrap(),
    )) {
        Type::Path(path) => path,
        _ => unreachable!(),
    }
}

fn fields(source: &str) -> Vec<FieldSyntax> {
    syn::parse_str::<syn::FieldsNamed>(source)
        .unwrap()
        .named
        .iter()
        .map(lower_field)
        .collect()
}

fn field(source: &str) -> FieldSyntax {
    fields(&format!("{{ {} }}", source)).remove(0)
}

fn attributes(source: &str) -> Vec<Attribute> {
    let item = syn::parse_str::<syn::DeriveInput>(&format!("{} struct S;", source)).unwrap();
    item.attrs.iter().map(lower_attribute).collect()
}

fn segment(ident: &str) -> PathSegment {
    PathSegment {
        ident: ident.to_string(),
        arguments: PathArguments::Absent,
    }
}

#[test]
fn test_type_parameter_extraction() {
    let type_path_ = type_path("std::mod1::mod2::Foo<Bar>");

    let (transformed_type_path, extracted_type_param) =
        generic_path_to_concrete_type_path(type_path_);

    assert_eq!(extracted_type_param.unwrap().args.len(), 1);
    assert_eq!(
        transformed_type_path,
        TypeArrayOrTypePath::TypePath(type_path("std::mod1::mod2::Foo"))
    );
}

#[test]
fn test_type_parameters_extraction() {
    let type_path_ = type_path("std::mod1::mod2::Foo<Bar, Baz>");

    let (transformed_type_path, extracted_type_param) =
        generic_path_to_concrete_type_path(type_path_);

    assert_eq!(
        transformed_type_path,
        TypeArrayOrTypePath::TypePath(type_path("std::mod1::mod2::Foo"))
    );
    assert_eq!(extracted_type_param.unwrap().args.len(), 2)
}

#[test]
fn test_type_parameter_extraction_works_without_params() {
    let written_path = type_path("std::module1::module2::Hello");
    let (transformed_path, extracted_type_params) =
        generic_path_to_concrete_type_path(written_path);

    assert!(extracted_type_params.is_none());
    assert_eq!(
        transformed_path,
        TypeArrayOrTypePath::TypePath(type_path("std::module1::module2::Hello"))
    )
}

#[test]
fn test_field_parsing_1() {
    let fields = fields("{ field : *const mod1::CDummy }");

    let parsed_fields = fields
        .iter()
        .map(parse_field)
        .collect::<Vec<Field>>();

    assert_eq!(parsed_fields[0].is_string, false);
    assert_eq!(parsed_fields[0].is_pointer, true);
    assert_eq!(parsed_fields[0].is_nullable, false);

    if let TypeArrayOrTypePath::TypePath(type_path) = &parsed_fields[0].field_type {
        assert_eq!(type_path.segments.len(), 2);
    } else {
        panic!("Unexpected type")
    }
}

#[test]
fn test_field_parsing_2() {
    let fields = fields(
        "{\
                field1: *const mod1::CDummy, \
                field2: *const CDummy\
            }",
    );

    let parsed_fields = fields
        .iter()
        .map(|f| {
            println!("f : {:?}", f);
            f
        })
        .map(parse_field)
        .collect::<Vec<Field>>();

    assert_eq!(parsed_fields[0].is_pointer, true);
    assert_eq!(parsed_fields[1].is_pointer, true);
    assert_eq!(parsed_fields[0].is_string, false);
    assert_eq!(parsed_fields[1].is_string, false);

    let field_type0 = if let TypeArrayOrTypePath::TypePath(type_path) = &parsed_fields[0].field_type
    {
        type_path
    } else {
        panic!("unexpected type")
    };
    let field_type1 = if let TypeArrayOrTypePath::TypePath(type_path) = &parsed_fields[1].field_type
    {
        type_path
    } else {
        panic!("unexpected type")
    };

    let parsed_path_0 = field_type0.clone();
    let parsed_path_1 = field_type1.clone();

    assert_eq!(parsed_path_0.segments.len(), 2);
    assert_eq!(parsed_path_1.segments.len(), 1);
}

#[test]
fn test_field_parsing_3() {
    let fields = fields(
        "{\
                field1: *const mod1::CFoo<CBar>, \
                field2: *const CFoo<CBar>\
            }",
    );

    let parsed_fields = fields
        .iter()
        .map(|f| {
            println!("f : {:?}", f);
            f
        })
        .map(parse_field)
        .collect::<Vec<Field>>();

    assert_eq!(parsed_fields[0].is_pointer, true);
    assert_eq!(parsed_fields[1].is_pointer, true);
    assert_eq!(parsed_fields[0].is_string, false);
    assert_eq!(parsed_fields[1].is_string, false);

    let field_type0 = if let TypeArrayOrTypePath::TypePath(type_path) = &parsed_fields[0].field_type
    {
        type_path
    } else {
        panic!("unexpected type")
    };
    let field_type1 = if let TypeArrayOrTypePath::TypePath(type_path) = &parsed_fields[1].field_type
    {
        type_path
    } else {
        panic!("unexpected type")
    };

    let parsed_path_0 = field_type0.clone();
    let parsed_path_1 = field_type1.clone();

    assert_eq!(parsed_path_0.segments.len(), 2);
    assert_eq!(parsed_path_1.segments.len(), 1);
}

#[test]
fn descriptor_of_a_value_field() {
    let parsed = try_parse_field(&field("amount: i32")).unwrap();
    assert_eq!(
        parsed,
        Field {
            name: "amount".to_string(),
            target_name: "amount".to_string(),
            field_type: TypeArrayOrTypePath::TypePath(TypePath {
                qself: None,
                leading_colon: false,
                segments: vec![segment("i32")],
            }),
            type_params: None,
            is_nullable: false,
            is_string: false,
            is_pointer: false,
            c_repr_of_convert: None,
            levels_of_indirection: 0,
        }
    );
}

#[test]
fn descriptor_of_a_string_field() {
    let parsed = try_parse_field(&field("name: *const libc::c_char")).unwrap();
    assert!(parsed.is_string);
    assert!(parsed.is_pointer);
    assert!(!parsed.is_nullable);
    assert_eq!(parsed.levels_of_indirection, 1);
    assert_eq!(
        parsed.field_type,
        TypeArrayOrTypePath::TypePath(type_path("libc::c_char"))
    );

    let parsed = try_parse_field(&field("#[nullable] name: *mut c_char")).unwrap();
    assert!(parsed.is_string);
    assert!(parsed.is_nullable);

    // two pointers over a character are no string
    let parsed = try_parse_field(&field("#[nullable] names: *const *const c_char")).unwrap();
    assert!(!parsed.is_string);
    assert!(parsed.is_pointer);
    assert_eq!(parsed.levels_of_indirection, 2);

    // a character that is no pointer is no string
    let parsed = try_parse_field(&field("letter: c_char")).unwrap();
    assert!(!parsed.is_string);
    assert!(!parsed.is_pointer);
    assert_eq!(parsed.levels_of_indirection, 0);
}

#[test]
fn descriptor_of_a_generic_field() {
    let parsed = try_parse_field(&field("#[nullable] layers: *const CArray<CLayer>")).unwrap();
    assert_eq!(
        parsed.field_type,
        TypeArrayOrTypePath::TypePath(type_path("CArray"))
    );
    assert_eq!(
        parsed.type_params,
        Some(AngleBracketedArguments {
            args: vec!["CLayer".to_string()]
        })
    );
    assert!(parsed.is_nullable);
    assert!(parsed.is_pointer);
    assert!(!parsed.is_string);
    assert_eq!(parsed.levels_of_indirection, 1);
}

#[test]
fn descriptor_of_an_array_field() {
    let parsed = try_parse_field(&field("bytes: [u8; 4]")).unwrap();
    assert_eq!(
        parsed.field_type,
        TypeArrayOrTypePath::TypeArray(TypeArray {
            elem: "u8".to_string(),
            len: "4".to_string(),
        })
    );
    assert_eq!(parsed.type_params, None);
    assert!(!parsed.is_pointer);

    let parsed = try_parse_field(&field("bytes: *const [u8; 4]")).unwrap();
    assert!(parsed.is_pointer);
    assert!(!parsed.is_string);
    assert_eq!(parsed.levels_of_indirection, 1);
}

#[test]
fn descriptor_of_a_renamed_field() {
    let parsed = try_parse_field(&field(
        "#[target_name(field_with_specific_rust_name)] field_with_specific_c_name: *const libc::c_char",
    ))
    .unwrap();
    assert_eq!(parsed.name, "field_with_specific_c_name");
    assert_eq!(parsed.target_name, "field_with_specific_rust_name");

    assert_eq!(
        try_parse_field(&field("#[target_name(a + b)] x: i32")),
        Err(ClassificationError::MalformedAttribute)
    );
    assert_eq!(
        try_parse_field(&field("#[target_name] x: i32")),
        Err(ClassificationError::MalformedAttribute)
    );
    assert_eq!(
        try_parse_field(&field("#[target_name()] x: i32")),
        Err(ClassificationError::MalformedAttribute)
    );
}

#[test]
fn descriptor_of_an_overridden_field() {
    let parsed = try_parse_field(&field(
        "#[c_repr_of_convert(input.flattened_range.start)] flattened_range_start: i64",
    ))
    .unwrap();
    assert_eq!(
        parsed.c_repr_of_convert,
        Some("input . flattened_range . start".to_string())
    );
    assert_eq!(parsed.name, "flattened_range_start");
    assert_eq!(parsed.target_name, "flattened_range_start");

    assert_eq!(
        try_parse_field(&field("#[c_repr_of_convert(let)] x: i64")),
        Err(ClassificationError::MalformedAttribute)
    );
    assert_eq!(
        try_parse_field(&field("#[c_repr_of_convert] x: i64")),
        Err(ClassificationError::MalformedAttribute)
    );
}

#[test]
fn pointer_to_pointer_needs_nullable() {
    assert_eq!(
        try_parse_field(&field("numbers: *const *const i32")),
        Err(ClassificationError::TooManyLevelsOfIndirection)
    );
    assert_eq!(
        try_parse_field(&field("numbers: *mut *const *mut i32")),
        Err(ClassificationError::TooManyLevelsOfIndirection)
    );
    let parsed = try_parse_field(&field("#[nullable] numbers: *const *const i32")).unwrap();
    assert_eq!(parsed.levels_of_indirection, 2);
    assert!(parsed.is_nullable);
    let parsed = try_parse_field(&field("numbers: *const i32")).unwrap();
    assert_eq!(parsed.levels_of_indirection, 1);
}

#[test]
fn unsupported_fields_are_rejected() {
    assert_eq!(
        try_parse_field(&field("pair: (i32, i32)")),
        Err(ClassificationError::UnsupportedFieldType)
    );
    assert_eq!(
        try_parse_field(&field("callback: *const fn(i32) -> i32")),
        Err(ClassificationError::UnsupportedFieldType)
    );
    assert_eq!(
        try_parse_field(&field("text: &'static str")),
        Err(ClassificationError::UnsupportedFieldType)
    );
    assert_eq!(
        try_parse_field(&FieldSyntax {
            ident: None,
            ty: Type::Path(type_path("i32")),
            attrs: vec![],
        }),
        Err(ClassificationError::UnnamedField)
    );
    assert_eq!(
        try_parse_field(&FieldSyntax {
            ident: Some("x".to_string()),
            ty: Type::Path(TypePath {
                qself: None,
                leading_colon: false,
                segments: vec![],
            }),
            attrs: vec![],
        }),
        Err(ClassificationError::InvalidTypePath)
    );
}

#[test]
fn checks_come_in_order() {
    // the name before the attribute, the attribute before the type
    assert_eq!(
        try_parse_field(&FieldSyntax {
            ident: None,
            ty: Type::Other("()".to_string()),
            attrs: attributes("#[target_name(1)]"),
        }),
        Err(ClassificationError::UnnamedField)
    );
    assert_eq!(
        try_parse_field(&field("#[target_name(1)] x: ()")),
        Err(ClassificationError::MalformedAttribute)
    );
    // the type before the override, the override before the levels
    assert_eq!(
        try_parse_field(&field("#[c_repr_of_convert(let)] x: ()")),
        Err(ClassificationError::UnsupportedFieldType)
    );
    assert_eq!(
        try_parse_field(&field("#[c_repr_of_convert(let)] x: *const *const i32")),
        Err(ClassificationError::MalformedAttribute)
    );
}

#[test]
fn classification_follows_the_verdicts() {
    let declared = field("#[target_name(other)] #[c_repr_of_convert(input.a)] x: i32");
    assert!(classify_field(&declared, true, true).is_ok());
    assert_eq!(
        classify_field(&declared, false, true),
        Err(ClassificationError::MalformedAttribute)
    );
    assert_eq!(
        classify_field(&declared, true, false),
        Err(ClassificationError::MalformedAttribute)
    );
    // without the attributes the verdicts are not asked for
    let declared = field("x: i32");
    assert_eq!(
        classify_field(&declared, false, false),
        try_parse_field(&declared)
    );
}

#[test]
fn first_attribute_of_a_name_counts() {
    let attrs = attributes("#[repr(C)] #[target_type(First)] #[target_type(Second)]");
    assert_eq!(find_attribute(&attrs, "target_type"), Some(1));
    assert_eq!(find_attribute(&attrs, "repr"), Some(0));
    assert_eq!(find_attribute(&attrs, "nullable"), None);
    assert_eq!(
        find_arguments(&attrs, "target_type"),
        Some(&Some("First".to_string()))
    );
    assert_eq!(find_arguments(&attrs, "no_drop_impl"), None);
    assert_eq!(try_parse_target_type(&attrs), Ok("First".to_string()));
    assert!(attribute_named(&attrs[0], "repr"));
    assert!(!attribute_named(&attrs[0], "target_type"));

    // a path of several segments is no single identifier
    let attrs = attributes("#[ffi::target_type(First)] #[::target_type(First)]");
    assert!(!attribute_named(&attrs[0], "target_type"));
    assert!(!attribute_named(&attrs[1], "target_type"));
    assert_eq!(
        try_parse_target_type(&attrs),
        Err(ClassificationError::MissingTargetType)
    );
}

#[test]
fn target_type_must_be_a_path() {
    assert_eq!(
        try_parse_target_type(&attributes("#[target_type(Pancake)]")),
        Ok("Pancake".to_string())
    );
    assert_eq!(
        try_parse_target_type(&attributes("#[target_type(kitchen::Pancake)]")),
        Ok("kitchen :: Pancake".to_string())
    );
    assert_eq!(
        try_parse_target_type(&attributes("#[derive(Debug)]")),
        Err(ClassificationError::MissingTargetType)
    );
    assert_eq!(
        try_parse_target_type(&[].to_vec()),
        Err(ClassificationError::MissingTargetType)
    );
    assert_eq!(
        try_parse_target_type(&attributes("#[target_type]")),
        Err(ClassificationError::MalformedAttribute)
    );
    assert_eq!(
        try_parse_target_type(&attributes("#[target_type(1 + 1)]")),
        Err(ClassificationError::MalformedAttribute)
    );
    assert_eq!(
        try_parse_target_type(&attributes("#[target_type = \"Pancake\"]")),
        Err(ClassificationError::MalformedAttribute)
    );
    let text = "Pancake".to_string();
    assert_eq!(target_type_from(Some(&text), true), Ok(text.clone()));
    assert_eq!(
        target_type_from(Some(&text), false),
        Err(ClassificationError::MalformedAttribute)
    );
    assert_eq!(
        target_type_from(None, true),
        Err(ClassificationError::MalformedAttribute)
    );
}

#[test]
fn no_drop_impl_flag() {
    assert!(parse_no_drop_impl_flag(&attributes(
        "#[target_type(A)] #[no_drop_impl]"
    )));
    assert!(!parse_no_drop_impl_flag(&attributes("#[target_type(A)]")));
    assert!(!parse_no_drop_impl_flag(&attributes(
        "#[ffi::no_drop_impl]"
    )));
}

#[test]
fn pointers_are_counted() {
    let ty = lower_type(&syn::parse_str::<syn::Type>("*const *mut *const u8").unwrap());
    let (inner, levels) = strip_pointers(&ty).unwrap();
    assert_eq!(levels, 3);
    assert_eq!(inner, &Type::Path(type_path("u8")));
    let ty = lower_type(&syn::parse_str::<syn::Type>("u8").unwrap());
    assert_eq!(strip_pointers(&ty), Some((&ty, 0)));
    assert!(detect_c_string(&lower_type(
        &syn::parse_str::<syn::Type>("*const std::os::raw::c_char").unwrap()
    )));
    assert!(!detect_c_string(&lower_type(
        &syn::parse_str::<syn::Type>("*const c_char::Other").unwrap()
    )));
    assert!(!detect_c_string(&lower_type(
        &syn::parse_str::<syn::Type>("*const [c_char; 2]").unwrap()
    )));
}

#[test]
fn fields_of_a_struct_in_order() {
    let declared = Data::Struct(fields(
        "{ count: i32, describe: *const libc::c_char }",
    ));
    let parsed = try_parse_struct_fields(&declared).unwrap();
    assert_eq!(parsed.len(), 2);
    assert_eq!(parsed[0].name, "count");
    assert_eq!(parsed[1].name, "describe");
    assert!(parsed[1].is_string);

    assert_eq!(try_parse_struct_fields(&Data::Struct(vec![])), Ok(vec![]));
    assert_eq!(
        try_parse_struct_fields(&Data::Enum),
        Err(ClassificationError::NotAStruct)
    );
    assert_eq!(
        try_parse_struct_fields(&Data::Union),
        Err(ClassificationError::NotAStruct)
    );
    // the first field that cannot be described decides
    let declared = Data::Struct(fields(
        "{ a: i32, b: *const *const i32, c: (i32, i32) }",
    ));
    assert_eq!(
        try_parse_struct_fields(&declared),
        Err(ClassificationError::TooManyLevelsOfIndirection)
    );
    let declared = Data::Struct(fields(
        "{ a: i32, c: (i32, i32), b: *const *const i32 }",
    ));
    assert_eq!(
        try_parse_struct_fields(&declared),
        Err(ClassificationError::UnsupportedFieldType)
    );
}

#[test]
fn classification_error_messages() {
    assert_eq!(
        ClassificationError::MissingTargetType.message(),
        "Can't derive CReprOf without target_type helper attribute."
    );
    assert_eq!(
        ClassificationError::NotAStruct.message(),
        "CReprOf / AsRust can only be derived for structs"
    );
    assert_eq!(
        ClassificationError::UnnamedField.message(),
        "Field should have an ident"
    );
    assert_eq!(
        ClassificationError::UnsupportedFieldType.message(),
        "Field type used in this struct is not supported by the proc macro"
    );
    assert_eq!(
        ClassificationError::InvalidTypePath.message(),
        "Invalid type path: no segments on the TypePath"
    );
    assert_eq!(
        ClassificationError::MalformedAttribute.message(),
        "Could not parse the arguments of a helper attribute"
    );
    assert!(ClassificationError::TooManyLevelsOfIndirection
        .message()
        .contains("too many levels of indirection"));
}

fn attribute(name: &str, arguments: &str) -> Attribute {
    Attribute {
        path: TypePath {
            qself: None,
            leading_colon: false,
            segments: vec![segment(name)],
        },
        arguments: Some(arguments.to_string()),
    }
}

fn convert_of(arguments: &str) -> Result<Option<String>, ClassificationError> {
    try_parse_field(&FieldSyntax {
        ident: Some("x".to_string()),
        ty: Type::Path(type_path("i64")),
        attrs: vec![attribute("c_repr_of_convert", arguments)],
    })
    .map(|parsed| parsed.c_repr_of_convert)
}

#[test]
fn every_literal_is_read_without_a_failure_of_the_reader() {
    for text in [
        "c\"x\"",
        "cr\"x\"",
        "cr#\"x\"#",
        "f(c\"x\", b\"y\", br#\"z\"#, 'a', b'a', 1u8, 1.5e3, 0xff, true)",
        "\"\\x7f\\u{1F600}\\n\"",
        "-1",
        "1e3f32",
        "1e",
        "99999999999999999999999999999999999999999999",
    ] {
        assert_eq!(convert_of(text), Ok(Some(text.to_string())), "{}", text);
    }
    for text in [
        "",
        "\"unterminated",
        "'ab'",
        "0x",
        "\"\\xff\"",
        "\"\\u{110000}\"",
        "\"\\q\"",
        "c\"a\\0b\"",
        "(",
        "a b",
    ] {
        assert_eq!(
            convert_of(text),
            Err(ClassificationError::MalformedAttribute),
            "{}",
            text
        );
    }
    assert_eq!(
        try_parse_target_type(&vec![attribute("target_type", "Foo<c\"x\">")]),
        Ok("Foo<c\"x\">".to_string())
    );
    assert_eq!(
        try_parse_target_type(&vec![attribute("target_type", "Foo<1, 'a', \"s\">")]),
        Ok("Foo<1, 'a', \"s\">".to_string())
    );
    assert_eq!(
        try_parse_target_type(&vec![attribute("target_type", "Foo<0x>")]),
        Err(ClassificationError::MalformedAttribute)
    );
}

#[test]
fn a_declaration_that_can_be_described_is_described() {
    let declared = field("#[nullable] #[target_name(other)] layers: *const CArray<CLayer>");
    assert_eq!(Ok(parse_field(&declared)), try_parse_field(&declared));
    let attrs = attributes("#[repr(C)] #[target_type(kitchen::Pancake)]");
    assert_eq!(parse_target_type(&attrs), "kitchen :: Pancake");
    assert_eq!(Ok(parse_target_type(&attrs)), try_parse_target_type(&attrs));
    let declared = Data::Struct(fields("{ count: i32, describe: *const libc::c_char }"));
    assert_eq!(
        Ok(parse_struct_fields(&declared)),
        try_parse_struct_fields(&declared)
    );
    assert_eq!(parse_struct_fields(&Data::Struct(vec![])), vec![]);
}

#[test]
fn descriptor_of_a_qualified_path() {
    let parsed = parse_field(&field("member: *const <CThing as family::Family<u8>>::Member<CBar>"));
    assert_eq!(
        parsed.field_type,
        TypeArrayOrTypePath::TypePath(TypePath {
            qself: Some(QSelf {
                ty: "CThing".to_string(),
                position: 2,
            }),
            leading_colon: false,
            segments: vec![
                segment("family"),
                PathSegment {
                    ident: "Family".to_string(),
                    arguments: PathArguments::AngleBracketed(AngleBracketedArguments {
                        args: vec!["u8".to_string()],
                    }),
                },
                segment("Member"),
            ],
        })
    );
    assert_eq!(
        parsed.type_params,
        Some(AngleBracketedArguments {
            args: vec!["CBar".to_string()]
        })
    );
    assert!(parsed.is_pointer);
    assert!(!parsed.is_string);

    // the self type alone
    let parsed = parse_field(&field("member: <CThing>::Member"));
    assert_eq!(
        parsed.field_type,
        TypeArrayOrTypePath::TypePath(type_path("<CThing>::Member"))
    );
    // a qualified path is no name of an attribute
    let mut qualified = attributes("#[nullable]").remove(0);
    assert!(attribute_named(&qualified, "nullable"));
    qualified.path.qself = Some(QSelf {
        ty: "T".to_string(),
        position: 0,
    });
    assert!(!attribute_named(&qualified, "nullable"));
}

#[test]
fn failure_names_the_field_and_its_levels() {
    let declared = Data::Struct(fields(
        "{ count: i32, #[nullable] deep: *const *const i32, pp: *const *const i32, \
           ppp: *mut *mut *mut u8 }",
    ));
    assert_eq!(
        try_parse_struct_fields(&declared),
        Err(ClassificationError::TooManyLevelsOfIndirection)
    );
    assert_eq!(
        failure_message(&declared, ClassificationError::TooManyLevelsOfIndirection),
        "The CReprOf, AsRust, and CDrop traits cannot be derived automatically: \
         The field pp is a pointer field has too many levels of indirection \
         (2 in this case). Please implements those traits manually."
    );
    assert_eq!(
        too_many_levels_message("ppp", 3),
        "The CReprOf, AsRust, and CDrop traits cannot be derived automatically: \
         The field ppp is a pointer field has too many levels of indirection \
         (3 in this case). Please implements those traits manually."
    );
    // any other error says what it says
    assert_eq!(
        failure_message(&declared, ClassificationError::MissingTargetType),
        ClassificationError::MissingTargetType.message()
    );
    assert_eq!(
        failure_message(&Data::Enum, ClassificationError::NotAStruct),
        ClassificationError::NotAStruct.message()
    );
    // without such a field the error says what it says
    let fine = Data::Struct(fields("{ count: i32, #[nullable] deep: *const *const i32 }"));
    assert_eq!(
        failure_message(&fine, ClassificationError::TooManyLevelsOfIndirection),
        ClassificationError::TooManyLevelsOfIndirection.message()
    );
    assert_eq!(
        unmarked_pointer_to_pointer(&field("pp: *const *const i32")),
        (true, 2)
    );
    assert_eq!(
        unmarked_pointer_to_pointer(&field("#[nullable] pp: *const *const *const i32")),
        (false, 3)
    );
    assert_eq!(unmarked_pointer_to_pointer(&field("p: *const i32")), (false, 1));
    assert_eq!(unmarked_pointer_to_pointer(&field("v: i32")), (false, 0));
}

#[test]
fn numbers_in_decimal() {
    for (n, text) in [
        (0u32, "0"),
        (7, "7"),
        (10, "10"),
        (42, "42"),
        (1905, "1905"),
        (u32::MAX, "4294967295"),
    ] {
        let mut out = String::from("(");
        push_decimal(&mut out, n);
        assert_eq!(out, format!("({}", text));
    }
}
