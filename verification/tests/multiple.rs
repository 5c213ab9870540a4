use maybe_multiple::Multiple;
use maybe_multiple::VecSizeError;

#[test]
fn manual_conversions() {
    let vec: Vec<u8> = vec![];
    assert_eq!(Multiple::try_from(vec).unwrap_err(), VecSizeError);

    let vec: Vec<u8> = vec![42];
    assert_eq!(Multiple::try_from(vec).unwrap_err(), VecSizeError);

    let vec: Vec<u8> = vec![42, 43];
    assert_eq!(Vec::from(Multiple::try_from(vec.clone()).unwrap()), vec);

    let vec: Vec<u8> = vec![42, 43, 44];
    assert_eq!(Vec::from(Multiple::try_from(vec.clone()).unwrap()), vec);
}

#[test]
fn conversions_by_length() {
    for n in 0..40usize {
        let vec: Vec<u8> = (0..n).map(|i| (i * 7 % 251) as u8).collect();
        if vec.len() < 2 {
            assert_eq!(Multiple::try_from(vec).unwrap_err(), VecSizeError);
        } else {
            assert_eq!(Vec::from(Multiple::try_from(vec.clone()).unwrap()), vec);
        }
    }
}

#[test]
fn two_elements_have_length_two() {
    let m = Multiple::try_from(vec![42u8, 43]).unwrap();
    assert_eq!(m.len(), 2);
}

#[test]
fn length_counts_every_element() {
    let m = Multiple::try_from(vec![1u32, 2, 3, 4, 5]).unwrap();
    assert_eq!(m.len(), 5);
    let m = Multiple::try_from(vec!["a", "b", "c"]).unwrap();
    assert_eq!(m.len(), 3);
}

#[test]
fn get_walks_the_elements_in_order() {
    let m = Multiple::try_from(vec![10u16, 20, 30, 40]).unwrap();
    assert_eq!(m.get(0), Some(&10));
    assert_eq!(m.get(1), Some(&20));
    assert_eq!(m.get(2), Some(&30));
    assert_eq!(m.get(3), Some(&40));
    assert_eq!(m.get(4), None);
    assert_eq!(m.get(usize::MAX), None);
}

#[test]
fn get_on_two_elements() {
    let m = Multiple::try_from(vec!['x', 'y']).unwrap();
    assert_eq!(m.get(0), Some(&'x'));
    assert_eq!(m.get(1), Some(&'y'));
    assert_eq!(m.get(2), None);
}

#[test]
fn order_is_kept_for_owned_elements() {
    let words = vec![
        String::from("never"),
        String::from("if-not-present"),
        String::from("always"),
    ];
    let m = Multiple::try_from(words.clone()).unwrap();
    assert_eq!(m.len(), 3);
    assert_eq!(Vec::from(m), words);
}

#[test]
fn equality_is_by_elements_in_order() {
    let a = Multiple::try_from(vec![1u8, 2, 3]).unwrap();
    let b = Multiple::try_from(vec![1u8, 2, 3]).unwrap();
    assert_eq!(a, b);
    assert!(a == b);

    let swapped = Multiple::try_from(vec![2u8, 1, 3]).unwrap();
    assert_ne!(a, swapped);

    let second_differs = Multiple::try_from(vec![1u8, 9, 3]).unwrap();
    assert_ne!(a, second_differs);

    let tail_differs = Multiple::try_from(vec![1u8, 2, 4]).unwrap();
    assert_ne!(a, tail_differs);

    let shorter = Multiple::try_from(vec![1u8, 2]).unwrap();
    assert_ne!(a, shorter);

    let longer = Multiple::try_from(vec![1u8, 2, 3, 3]).unwrap();
    assert_ne!(a, longer);
}

#[test]
fn error_text() {
    assert_eq!(
        VecSizeError.message(),
        "could not convert from Vec: Vec contains fewer than 2 elements"
    );
    let err = Multiple::<u8>::try_from(vec![]).unwrap_err();
    assert_eq!(
        err.message(),
        "could not convert from Vec: Vec contains fewer than 2 elements"
    );
}

#[test]
fn try_into_gives_the_same_as_try_from() {
    let m: Multiple<u8> = vec![5u8, 6, 7].try_into().unwrap();
    assert_eq!(m, Multiple::try_from(vec![5u8, 6, 7]).unwrap());
    let r: Result<Multiple<u8>, VecSizeError> = vec![5u8].try_into();
    assert_eq!(r.unwrap_err(), VecSizeError);
    let back: Vec<u8> = m.into();
    assert_eq!(back, vec![5, 6, 7]);
}
