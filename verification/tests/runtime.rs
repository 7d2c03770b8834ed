use ffi_convert::conversions::RawBorrowMut;
use ffi_convert::convert_into_raw_pointer;
use ffi_convert::convert_into_raw_pointer_mut;
use ffi_convert::duration_span;
use ffi_convert::time::precise_time_ns;
use ffi_convert::time::span;
use ffi_convert::time::timed;
use ffi_convert::nullable_as_rust;
use ffi_convert::nullable_c_repr_of;
use ffi_convert::nullable_do_drop;
use ffi_convert::point_to_string;
use ffi_convert::release;
use ffi_convert::take_back_from_raw_pointer;
use ffi_convert::take_back_from_raw_pointer_mut;
use ffi_convert::wrap;
use ffi_convert::AsRust;
use ffi_convert::AsRustError;
use ffi_convert::CArray;
use ffi_convert::CDrop;
use ffi_convert::CDropError;
use ffi_convert::CDummy;
use ffi_convert::CLayer;
use ffi_convert::CPancake;
use ffi_convert::CReprOf;
use ffi_convert::CReprOfError;
use ffi_convert::CString;
use ffi_convert::CStringArray;
use ffi_convert::CTopping;
use ffi_convert::Dummy;
use ffi_convert::Layer;
use ffi_convert::Pancake;
use ffi_convert::RawBorrow;
use ffi_convert::RawPointer;
use ffi_convert::RawPointerConverter;
use ffi_convert::Topping;
use ffi_convert::UnexpectedNullPointerError;
use ffi_convert::SNIPS_RESULT;

#[test]
fn scalars_are_their_own_representation() {
    assert_eq!(<i32 as CReprOf<i32>>::c_repr_of(-7), Ok(-7));
    assert_eq!(<i32 as AsRust<i32>>::as_rust(&-7), Ok(-7));
    assert_eq!(<u64 as CReprOf<u64>>::c_repr_of(u64::MAX), Ok(u64::MAX));
    assert_eq!(<u64 as AsRust<u64>>::as_rust(&u64::MAX), Ok(u64::MAX));
    assert_eq!(<i16 as CReprOf<i16>>::c_repr_of(i16::MIN), Ok(i16::MIN));
    assert_eq!(<u16 as AsRust<u16>>::as_rust(&9), Ok(9));
    assert_eq!(<u32 as AsRust<u32>>::as_rust(&9), Ok(9));
    assert_eq!(<i64 as AsRust<i64>>::as_rust(&-9), Ok(-9));
    assert_eq!(<usize as AsRust<usize>>::as_rust(&9), Ok(9));
    assert_eq!(<bool as CReprOf<bool>>::c_repr_of(true), Ok(true));
    let mut x: i32 = 5;
    assert_eq!(x.do_drop(), Ok(()));
    assert_eq!(x, 5);
}

#[test]
fn bool_is_one_byte() {
    assert_eq!(<u8 as CReprOf<bool>>::c_repr_of(true), Ok(1));
    assert_eq!(<u8 as CReprOf<bool>>::c_repr_of(false), Ok(0));
    assert_eq!(<u8 as AsRust<bool>>::as_rust(&0), Ok(false));
    assert_eq!(<u8 as AsRust<bool>>::as_rust(&1), Ok(true));
    assert_eq!(<u8 as AsRust<bool>>::as_rust(&200), Ok(true));
}

#[test]
fn usize_is_a_c_int() {
    assert_eq!(<i32 as CReprOf<usize>>::c_repr_of(20), Ok(20));
    assert_eq!(<i32 as AsRust<usize>>::as_rust(&20), Ok(20));
    assert_eq!(
        <i32 as CReprOf<usize>>::c_repr_of(i32::MAX as usize),
        Ok(i32::MAX)
    );
    // beyond the range of a C int the number does not come back
    let big: usize = (i32::MAX as usize) + 1;
    let c = <i32 as CReprOf<usize>>::c_repr_of(big).unwrap();
    assert_eq!(c, i32::MIN);
    assert_ne!(<i32 as AsRust<usize>>::as_rust(&c).unwrap(), big);
}

#[test]
fn string_round_trip() {
    let c = CString::c_repr_of("Diavola".to_string()).unwrap();
    assert_eq!(c.as_bytes().as_slice(), b"Diavola");
    assert_eq!(c.as_rust(), Ok("Diavola".to_string()));
    let c = CString::c_repr_of("crêpe 🥞".to_string()).unwrap();
    assert_eq!(c.as_bytes().as_slice(), "crêpe 🥞".as_bytes());
    assert_eq!(c.as_rust(), Ok("crêpe 🥞".to_string()));
    let c = CString::c_repr_of(String::new()).unwrap();
    assert!(c.as_bytes().is_empty());
    assert_eq!(c.as_rust(), Ok(String::new()));
    assert_eq!(c.into_bytes(), Vec::<u8>::new());
}

#[test]
fn string_with_a_nul_byte_has_no_c_string() {
    assert_eq!(
        CString::c_repr_of("a\0b".to_string()),
        Err(CReprOfError::StringContainsNullBit(1))
    );
    assert_eq!(
        CString::new(vec![0]),
        Err(CReprOfError::StringContainsNullBit(0))
    );
    assert_eq!(
        CString::new(vec![b'a', b'b', 0]),
        Err(CReprOfError::StringContainsNullBit(2))
    );
    assert!(CString::new(vec![b'a', b'b']).is_ok());
    // the first nul byte counts, and the position is one among the bytes
    assert_eq!(
        CString::new(vec![b'a', 0, b'b', 0]),
        Err(CReprOfError::StringContainsNullBit(1))
    );
    assert_eq!(
        CString::c_repr_of("é\0".to_string()),
        Err(CReprOfError::StringContainsNullBit(2))
    );
}

#[test]
fn c_string_that_is_not_utf8_is_no_string() {
    let c = CString::new(vec![0xff, 0xfe]).unwrap();
    assert_eq!(c.as_rust(), Err(AsRustError::Utf8Error));
    let c = CString::new(vec![b'a', 0xc3]).unwrap();
    assert_eq!(c.as_rust(), Err(AsRustError::Utf8Error));
    let c = CString::new(vec![0xc3, 0xa9]).unwrap();
    assert_eq!(c.as_rust(), Ok("é".to_string()));
}

#[test]
fn raw_pointer_is_taken_back_once() {
    let pointer = convert_into_raw_pointer(Topping { amount: 3 });
    assert!(!pointer.is_null());
    assert_eq!(
        Topping::raw_borrow(&pointer).unwrap(),
        &Topping { amount: 3 }
    );
    assert_eq!(
        Topping::raw_borrow(&pointer).unwrap(),
        &Topping { amount: 3 }
    );
    assert_eq!(take_back_from_raw_pointer(pointer), Ok(Topping { amount: 3 }));

    let mut pointer = convert_into_raw_pointer_mut(7u32);
    assert_eq!(take_back_from_raw_pointer_mut(&mut pointer), Ok(7));
    assert!(pointer.is_null());
    assert_eq!(
        take_back_from_raw_pointer_mut(&mut pointer),
        Err(UnexpectedNullPointerError)
    );
    assert_eq!(
        take_back_from_raw_pointer(pointer),
        Err(UnexpectedNullPointerError)
    );
}

#[test]
fn null_pointer_is_not_borrowed() {
    let mut pointer: RawPointer<u32> = RawPointer::null();
    assert!(pointer.is_null());
    assert_eq!(u32::raw_borrow(&pointer), Err(UnexpectedNullPointerError));
    assert!(u32::raw_borrow_mut(&mut pointer).is_err());
    assert_eq!(
        take_back_from_raw_pointer(RawPointer::<u32>::null()),
        Err(UnexpectedNullPointerError)
    );
}

#[test]
fn mutable_borrow_changes_the_pointee() {
    let mut pointer = convert_into_raw_pointer(1u32);
    *u32::raw_borrow_mut(&mut pointer).unwrap() = 5;
    assert_eq!(u32::raw_borrow(&pointer), Ok(&5));
    assert_eq!(take_back_from_raw_pointer(pointer), Ok(5));
}

#[test]
fn pointer_handle_gives_up_its_box() {
    let pointer = RawPointer::from_box(Some(Box::new(4i64)));
    assert_eq!(i64::raw_borrow(&pointer), Ok(&4));
    assert_eq!(pointer.into_box(), Some(Box::new(4i64)));
    let pointer: RawPointer<i64> = RawPointer::from_box(None);
    assert!(pointer.is_null());
    assert_eq!(pointer.into_box(), None);
}

#[test]
fn raw_pointer_converter_of_scalars_and_structs() {
    let pointer = 12i32.into_raw_pointer();
    assert_eq!(i32::raw_borrow(&pointer), Ok(&12));
    assert_eq!(i32::from_raw_pointer(pointer), Ok(12));
    let mut pointer = true.into_raw_pointer_mut();
    assert_eq!(bool::from_raw_pointer_mut(&mut pointer), Ok(true));
    assert!(pointer.is_null());
    assert_eq!(
        bool::from_raw_pointer_mut(&mut pointer),
        Err(UnexpectedNullPointerError)
    );

    let pointer = CTopping { amount: 1 }.into_raw_pointer();
    assert_eq!(CTopping::drop_raw_pointer(pointer), Ok(()));
    assert_eq!(
        CTopping::drop_raw_pointer(RawPointer::null()),
        Err(UnexpectedNullPointerError)
    );
    let mut pointer = CTopping { amount: 1 }.into_raw_pointer_mut();
    assert_eq!(CTopping::drop_raw_pointer_mut(&mut pointer), Ok(()));
    assert!(pointer.is_null());
    assert_eq!(
        CTopping::drop_raw_pointer_mut(&mut pointer),
        Err(UnexpectedNullPointerError)
    );

    let c = CString::new(b"yo".to_vec()).unwrap();
    let pointer = c.into_raw_pointer();
    let c = CString::from_raw_pointer(pointer).unwrap();
    assert_eq!(c.as_bytes().as_slice(), b"yo");
}

#[test]
fn pointer_field_conversions() {
    let pointer = RawPointer::<CTopping>::c_repr_of(Topping { amount: 9 }).unwrap();
    assert!(!pointer.is_null());
    assert_eq!(pointer.as_rust(), Ok(Topping { amount: 9 }));
    assert_eq!(pointer.as_rust(), Ok(Topping { amount: 9 }));
    let null: RawPointer<CTopping> = RawPointer::null();
    let back: Result<Topping, AsRustError> = null.as_rust();
    assert_eq!(back, Err(AsRustError::NullPointer));
    assert_eq!(
        RawPointer::<CString>::c_repr_of("a\0".to_string()).unwrap_err(),
        CReprOfError::StringContainsNullBit(1)
    );
}

#[test]
fn nullable_pointer_is_faithful() {
    let absent = nullable_c_repr_of::<CString, String>(None).unwrap();
    assert!(absent.is_null());
    assert_eq!(nullable_as_rust::<CString, String>(&absent), Ok(None));

    let present = nullable_c_repr_of::<CString, String>(Some("first layer".to_string())).unwrap();
    assert!(!present.is_null());
    assert_eq!(
        CString::raw_borrow(&present).unwrap().as_bytes().as_slice(),
        b"first layer"
    );
    assert_eq!(
        nullable_as_rust::<CString, String>(&present),
        Ok(Some("first layer".to_string()))
    );

    assert_eq!(
        nullable_c_repr_of::<CString, String>(Some("\0".to_string())).unwrap_err(),
        CReprOfError::StringContainsNullBit(0)
    );
    let broken = convert_into_raw_pointer(CString::new(vec![0xff]).unwrap());
    assert_eq!(
        nullable_as_rust::<CString, String>(&broken),
        Err(AsRustError::Utf8Error)
    );
}

#[test]
fn release_of_pointers() {
    let mut pointer = RawPointer::<CTopping>::c_repr_of(Topping { amount: 9 }).unwrap();
    assert_eq!(pointer.do_drop(), Ok(()));
    assert!(pointer.is_null());
    assert_eq!(pointer.do_drop(), Err(CDropError::NullPointer));

    let mut pointer = nullable_c_repr_of::<CTopping, Topping>(Some(Topping { amount: 9 })).unwrap();
    assert_eq!(nullable_do_drop(&mut pointer), Ok(()));
    assert!(pointer.is_null());
    assert_eq!(nullable_do_drop(&mut pointer), Ok(()));
    assert!(pointer.is_null());
}

#[test]
fn array_round_trip() {
    let toppings = vec![Topping { amount: 2 }, Topping { amount: 3 }];
    let c = CArray::<CTopping>::c_repr_of(toppings.clone()).unwrap();
    assert_eq!(c.size(), 2);
    assert!(!c.is_null());
    assert_eq!(c.as_slice().unwrap()[1].amount, 3);
    assert_eq!(c.as_rust(), Ok(toppings));
}

#[test]
fn empty_array_is_the_null_pointer() {
    let c = CArray::<CTopping>::c_repr_of(vec![]).unwrap();
    assert_eq!(c.size(), 0);
    assert!(c.is_null());
    assert!(c.as_slice().is_none());
    let back: Vec<Topping> = c.as_rust().unwrap();
    assert_eq!(back, vec![]);

    let c: CArray<i32> = CArray::from_vec(vec![]);
    assert!(c.is_null());
    let c: CArray<i32> = CArray::from_vec(vec![4]);
    assert!(!c.is_null());
    assert_eq!(c.size(), 1);
}

#[test]
fn array_conversion_stops_at_the_first_failure() {
    let dummies = vec![
        Dummy {
            count: 1,
            describe: "fine".to_string(),
        },
        Dummy {
            count: 2,
            describe: "not\0fine".to_string(),
        },
    ];
    assert_eq!(
        CArray::<CDummy>::c_repr_of(dummies).unwrap_err(),
        CReprOfError::StringContainsNullBit(3)
    );

    let broken = CArray::from_vec(vec![
        CLayer {
            number: 1,
            subtitle: RawPointer::null(),
        },
        CLayer {
            number: 2,
            subtitle: convert_into_raw_pointer(CString::new(vec![0xff]).unwrap()),
        },
        CLayer {
            number: 3,
            subtitle: RawPointer::null(),
        },
    ]);
    let back: Result<Vec<Layer>, AsRustError> = broken.as_rust();
    assert_eq!(back, Err(AsRustError::Utf8Error));

    let mixed = CArray::from_vec(vec![
        CDummy {
            count: 1,
            describe: RawPointer::null(),
        },
        CDummy {
            count: 2,
            describe: convert_into_raw_pointer(CString::new(vec![0xff]).unwrap()),
        },
    ]);
    let back: Result<Vec<Dummy>, AsRustError> = mixed.as_rust();
    assert_eq!(back, Err(AsRustError::NullPointer));
}

#[test]
fn array_release_leaves_the_empty_array() {
    let mut c = CArray::<CTopping>::c_repr_of(vec![Topping { amount: 2 }]).unwrap();
    assert_eq!(c.do_drop(), Ok(()));
    assert!(c.is_null());
    assert_eq!(c.size(), 0);
    assert_eq!(c.do_drop(), Ok(()));
    assert!(c.is_null());

    let mut c = CArray::<CTopping>::c_repr_of(vec![Topping { amount: 2 }]).unwrap();
    let elements = c.take();
    assert_eq!(elements.len(), 1);
    assert!(c.is_null());
    assert!(c.take().is_empty());
}

#[test]
fn array_behind_a_pointer() {
    let c = CArray::<CTopping>::c_repr_of(vec![Topping { amount: 2 }]).unwrap();
    let pointer = c.into_raw_pointer();
    let c = CArray::<CTopping>::from_raw_pointer(pointer).unwrap();
    assert_eq!(c.as_rust(), Ok(vec![Topping { amount: 2 }]));
    assert!(CArray::<CTopping>::from_raw_pointer(RawPointer::null()).is_err());
}

#[test]
fn string_list_there_and_back() {
    let names = vec!["Diavola".to_string(), "Margarita".to_string()];
    let c = CStringArray::c_repr_of(names.clone()).unwrap();
    assert_eq!(c.size(), 2);
    assert!(!c.is_null());
    let pointers = c.as_slice().unwrap();
    assert_eq!(
        CString::raw_borrow(&pointers[0]).unwrap().as_bytes().as_slice(),
        b"Diavola"
    );
    assert_eq!(
        CString::raw_borrow(&pointers[1]).unwrap().as_bytes().as_slice(),
        b"Margarita"
    );
    assert_eq!(c.as_rust(), Ok(names));

    let c = CStringArray::c_repr_of(vec![]).unwrap();
    assert_eq!(c.size(), 0);
    assert!(c.is_null());
    assert!(c.as_slice().is_none());
    assert_eq!(c.as_rust(), Ok(vec![]));
}

#[test]
fn string_array_errors() {
    assert_eq!(
        CStringArray::c_repr_of(vec!["ok".to_string(), "n\0".to_string()]).unwrap_err(),
        CReprOfError::StringContainsNullBit(1)
    );
    let c = CStringArray::from_vec(vec![
        convert_into_raw_pointer(CString::new(b"ok".to_vec()).unwrap()),
        RawPointer::null(),
    ]);
    assert_eq!(c.size(), 2);
    assert_eq!(c.as_rust(), Err(AsRustError::NullPointer));
    let c = CStringArray::from_vec(vec![convert_into_raw_pointer(
        CString::new(vec![0x80]).unwrap(),
    )]);
    assert_eq!(c.as_rust(), Err(AsRustError::Utf8Error));
}

#[test]
fn string_array_release() {
    let mut c = CStringArray::c_repr_of(vec!["a".to_string(), "b".to_string()]).unwrap();
    assert_eq!(c.do_drop(), Ok(()));
    assert!(c.is_null());
    assert_eq!(c.size(), 0);
    assert_eq!(c.do_drop(), Ok(()));

    let mut c = CStringArray::from_vec(vec![
        RawPointer::null(),
        convert_into_raw_pointer(CString::new(b"ok".to_vec()).unwrap()),
    ]);
    assert_eq!(c.do_drop(), Err(CDropError::NullPointer));
    assert!(c.is_null());

    let c = CStringArray::c_repr_of(vec!["a".to_string()]).unwrap();
    let pointer = c.into_raw_pointer();
    assert_eq!(CStringArray::drop_raw_pointer(pointer), Ok(()));
}

#[test]
fn struct_release() {
    let mut dummy = CDummy::c_repr_of(Dummy {
        count: 2,
        describe: "yo".to_string(),
    })
    .unwrap();
    assert_eq!(dummy.do_drop(), Ok(()));
    assert!(dummy.describe.is_null());
    assert_eq!(dummy.count, 2);
    assert_eq!(dummy.do_drop(), Err(CDropError::NullPointer));

    let mut layer = CLayer::c_repr_of(Layer {
        number: 1,
        subtitle: None,
    })
    .unwrap();
    assert!(layer.subtitle.is_null());
    assert_eq!(layer.do_drop(), Ok(()));
    let mut layer = CLayer::c_repr_of(Layer {
        number: 1,
        subtitle: Some("first layer".to_string()),
    })
    .unwrap();
    assert!(!layer.subtitle.is_null());
    assert_eq!(layer.do_drop(), Ok(()));
    assert!(layer.subtitle.is_null());
    assert_eq!(layer.do_drop(), Ok(()));

    let mut topping = CTopping { amount: 4 };
    assert_eq!(topping.do_drop(), Ok(()));
    assert_eq!(topping.amount, 4);
}

#[test]
fn building_the_owned_value_twice_gives_the_same() {
    let c = CDummy::c_repr_of(Dummy {
        count: 2,
        describe: "yo".to_string(),
    })
    .unwrap();
    let first = c.as_rust();
    let second = c.as_rust();
    assert_eq!(first, second);
    assert_eq!(
        first,
        Ok(Dummy {
            count: 2,
            describe: "yo".to_string(),
        })
    );
    let null = CDummy {
        count: 1,
        describe: RawPointer::null(),
    };
    assert_eq!(null.as_rust(), Err(AsRustError::NullPointer));
    assert_eq!(null.as_rust(), Err(AsRustError::NullPointer));
}

#[test]
fn pointer_is_made_to_point_to_a_string() {
    let mut pointer: RawPointer<CString> = RawPointer::null();
    assert_eq!(point_to_string(&mut pointer, "wat?".to_string()), Ok(()));
    assert_eq!(
        CString::raw_borrow(&pointer).unwrap().as_bytes().as_slice(),
        b"wat?"
    );
    assert_eq!(
        point_to_string(&mut pointer, "w\0t".to_string()),
        Err(CReprOfError::StringContainsNullBit(1))
    );
    assert_eq!(
        CString::raw_borrow(&pointer).unwrap().as_bytes().as_slice(),
        b"wat?"
    );
}

fn foo(input: Result<(), String>) -> SNIPS_RESULT {
    wrap(input).0
}

#[test]
fn errors_wrapping_ok_works() {
    assert_eq!(foo(Ok(())), SNIPS_RESULT::SNIPS_RESULT_OK)
}

#[test]
fn errors_wrapping_ko_works() {
    assert_eq!(
        foo(Err("wat?".to_string())),
        SNIPS_RESULT::SNIPS_RESULT_KO
    );
    let (code, message) = wrap::<()>(Err("wat?\n".to_string()));
    assert_eq!(code, SNIPS_RESULT::SNIPS_RESULT_KO);
    let mut pointer: RawPointer<CString> = RawPointer::null();
    assert_eq!(point_to_string(&mut pointer, message.unwrap()), Ok(()));
    assert_eq!(
        CString::raw_borrow(&pointer).unwrap().as_rust().unwrap(),
        "wat?\n"
    );
    assert_eq!(CString::drop_raw_pointer(pointer), Ok(()));
    assert_eq!(wrap(Ok::<u8, String>(3)), (SNIPS_RESULT::SNIPS_RESULT_OK, None));
}

#[test]
fn error_messages() {
    assert_eq!(
        UnexpectedNullPointerError.message(),
        "Could not use raw pointer: unexpected null pointer"
    );
    assert_eq!(
        CReprOfError::StringContainsNullBit(7).message(),
        "A string contains a nul bit"
    );
    assert_eq!(
        CReprOfError::Other.message(),
        "An error occurred during conversion to C repr"
    );
    assert_eq!(CDropError::NullPointer.message(), "unexpected null pointer");
    assert_eq!(
        CDropError::Other.message(),
        "An error occurred while dropping C struct"
    );
    assert_eq!(AsRustError::NullPointer.message(), "unexpected null pointer");
    assert_eq!(
        AsRustError::Utf8Error.message(),
        "could not convert string as it is not UTF-8"
    );
    assert_eq!(
        AsRustError::Other.message(),
        "An error occurred during conversion to Rust"
    );
    assert_eq!(
        CDropError::from(UnexpectedNullPointerError),
        CDropError::NullPointer
    );
    assert_eq!(
        AsRustError::from(UnexpectedNullPointerError),
        AsRustError::NullPointer
    );
}

fn pancake() -> Pancake {
    Pancake {
        name: String::from("Here is your pancake"),
        description: Some("I'm delicious ! ".to_string()),
        dummy: Dummy {
            count: 2,
            describe: "yo".to_string(),
        },
        toppings: vec![Topping { amount: 2 }, Topping { amount: 3 }],
        layers: Some(vec![Layer {
            number: 1,
            subtitle: Some(String::from("first layer")),
        }]),
        is_delicious: true,
        range: 20..30,
        some_futile_info: None,
        flattened_range: 42..64,
        field_with_specific_rust_name: "renamed field".to_string(),
    }
}

#[test]
fn pancake_without_floats_round_trips() {
    let c = CPancake::c_repr_of(pancake()).unwrap();
    assert!(!c.name.is_null());
    assert!(!c.description.is_null());
    assert!(!c.layers.is_null());
    assert_eq!(c.is_delicious, 1);
    assert_eq!(c.range.start, 20);
    assert_eq!(c.range.end, 30);
    assert_eq!(c.flattened_range_start, 42);
    assert_eq!(c.flattened_range_end, 64);
    assert_eq!(
        CString::raw_borrow(&c.field_with_specific_c_name)
            .unwrap()
            .as_bytes()
            .as_slice(),
        b"renamed field"
    );
    assert_eq!(c.as_rust(), Ok(pancake()));
    assert_eq!(c.as_rust(), Ok(pancake()));

    let plain = Pancake {
        description: None,
        toppings: vec![],
        layers: None,
        is_delicious: false,
        range: 50..100,
        ..pancake()
    };
    let c = CPancake::c_repr_of(plain.clone()).unwrap();
    assert!(c.description.is_null());
    assert!(c.layers.is_null());
    assert!(!c.toppings.is_null());
    assert!(CArray::raw_borrow(&c.toppings).unwrap().is_null());
    assert_eq!(c.is_delicious, 0);
    assert_eq!(c.as_rust(), Ok(plain));

    let empty_layers = Pancake {
        layers: Some(vec![]),
        ..pancake()
    };
    let c = CPancake::c_repr_of(empty_layers.clone()).unwrap();
    assert!(!c.layers.is_null());
    assert_eq!(c.as_rust(), Ok(empty_layers));
}

#[test]
fn what_has_no_place_in_c_does_not_come_back() {
    let with_info = Pancake {
        some_futile_info: Some("futile".to_string()),
        ..pancake()
    };
    let c = CPancake::c_repr_of(with_info).unwrap();
    assert_eq!(c.as_rust(), Ok(pancake()));

    let wide = Pancake {
        range: 0..(u32::MAX as usize),
        ..pancake()
    };
    let c = CPancake::c_repr_of(wide.clone()).unwrap();
    assert_eq!(c.range.end, -1);
    assert_ne!(c.as_rust(), Ok(wide));
}

#[test]
fn pancake_conversion_stops_at_the_first_failure() {
    let bad = Pancake {
        description: Some(String::from_utf8(vec![b'a', 0]).unwrap()),
        ..pancake()
    };
    assert_eq!(
        CPancake::c_repr_of(bad).unwrap_err(),
        CReprOfError::StringContainsNullBit(1)
    );

    let mut c = CPancake::c_repr_of(pancake()).unwrap();
    c.name = RawPointer::null();
    c.field_with_specific_c_name = convert_into_raw_pointer(CString::new(vec![0xff]).unwrap());
    assert_eq!(c.as_rust(), Err(AsRustError::NullPointer));
    c.name = convert_into_raw_pointer(CString::new(b"n".to_vec()).unwrap());
    assert_eq!(c.as_rust(), Err(AsRustError::Utf8Error));
}

#[test]
fn pancake_release() {
    let mut c = CPancake::c_repr_of(pancake()).unwrap();
    assert_eq!(c.do_drop(), Ok(()));
    assert!(c.name.is_null());
    assert!(c.description.is_null());
    assert!(c.dummy.describe.is_null());
    assert!(c.toppings.is_null());
    assert!(c.layers.is_null());
    assert!(c.field_with_specific_c_name.is_null());
    assert_eq!(c.do_drop(), Err(CDropError::NullPointer));

    // a release that fails ends at the field that is null
    let mut c = CPancake::c_repr_of(pancake()).unwrap();
    c.toppings = RawPointer::null();
    assert_eq!(c.do_drop(), Err(CDropError::NullPointer));
    assert!(c.name.is_null());
    assert!(c.dummy.describe.is_null());
    assert!(!c.layers.is_null());
    assert!(!c.field_with_specific_c_name.is_null());
}

#[test]
fn work_is_timed() {
    let mut calls = 0;
    let (elapsed, value) = duration_span(|| {
        calls += 1;
        Ok::<u8, String>(3)
    })
    .unwrap();
    assert_eq!(value, 3);
    assert_eq!(calls, 1);
    assert!(elapsed < 20_000_000_000);
    assert_eq!(
        duration_span(|| Err::<u8, String>("wat?".to_string())),
        Err("wat?".to_string())
    );
}

#[test]
fn span_is_the_difference_of_the_readings() {
    assert_eq!(span(5, 12), 7);
    assert_eq!(span(12, 12), 0);
    assert_eq!(span(0, u64::MAX), u64::MAX);
    assert_eq!(span(12, 5), 0);
    assert_eq!(timed(5, 12, Ok::<u8, String>(3)), Ok((7, 3)));
    assert_eq!(timed(12, 5, Ok::<u8, String>(3)), Ok((0, 3)));
    assert_eq!(
        timed(5, 12, Err::<u8, String>("wat?".to_string())),
        Err("wat?".to_string())
    );
    let start = std::time::Instant::now();
    let first = precise_time_ns(&start);
    let second = precise_time_ns(&start);
    assert!(first <= second);
}

#[test]
fn release_gives_the_value_up() {
    let c = CDummy::c_repr_of(Dummy {
        count: 2,
        describe: "yo".to_string(),
    })
    .unwrap();
    assert_eq!(release(c), Ok(()));
    let null = CDummy {
        count: 2,
        describe: RawPointer::null(),
    };
    assert_eq!(release(null), Err(CDropError::NullPointer));
    assert_eq!(release(7u16), Ok(()));
    assert_eq!(
        release(CStringArray::c_repr_of(vec!["a".to_string()]).unwrap()),
        Ok(())
    );
    assert_eq!(
        release(CStringArray::from_vec(vec![RawPointer::null()])),
        Err(CDropError::NullPointer)
    );
    assert_eq!(release(RawPointer::<u8>::null()), Err(CDropError::NullPointer));
    assert_eq!(release(convert_into_raw_pointer(1u8)), Ok(()));
    assert_eq!(release(CPancake::c_repr_of(pancake()).unwrap()), Ok(()));
}
