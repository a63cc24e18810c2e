use every_variant::demo::Nested;
use every_variant::EveryVariant;
use heapless::{String as HString, Vec as HVec};

#[test]
fn base_tables() {
    assert_eq!(<()>::every_variant(), vec![()]);
    assert_eq!(String::every_variant(), vec!["example String".to_string()]);
    assert_eq!(<&'static str>::every_variant(), vec!["&ŝtatic str!"]);
    assert_eq!(u8::every_variant(), vec![8]);
    assert_eq!(u16::every_variant(), vec![16]);
    assert_eq!(u32::every_variant(), vec![32]);
    assert_eq!(u64::every_variant(), vec![64]);
    assert_eq!(u128::every_variant(), vec![128]);
    assert_eq!(i8::every_variant(), vec![-8]);
    assert_eq!(i16::every_variant(), vec![-16]);
    assert_eq!(i32::every_variant(), vec![-32]);
    assert_eq!(i64::every_variant(), vec![-64]);
    assert_eq!(i128::every_variant(), vec![-128]);
    assert_eq!(usize::every_variant(), vec![0, usize::MAX]);
    assert_eq!(bool::every_variant(), vec![true, false]);
}

#[test]
fn optional_u64_has_absent_then_present() {
    assert_eq!(Option::<u64>::every_variant(), vec![None, Some(64)]);
    assert_eq!(
        Option::<bool>::every_variant(),
        vec![None, Some(true), Some(false)]
    );
}

#[test]
fn result_has_successes_then_failures() {
    let all = Result::<bool, usize>::every_variant();
    assert_eq!(all, vec![Ok(true), Ok(false), Err(0), Err(usize::MAX)]);
    assert_eq!(
        Result::<u8, bool>::every_variant().len(),
        u8::every_variant().len() + bool::every_variant().len()
    );
}

#[test]
fn growable_sequence_shapes() {
    let all = Vec::<bool>::every_variant();
    assert_eq!(all.len(), 4);
    assert_eq!(all[0], vec![true, false]);
    assert_eq!(all[1], Vec::<bool>::new());
    assert_eq!(all[2], vec![true]);
    assert_eq!(all[3], vec![true; 10]);
}

#[test]
fn growable_sequence_of_sequences() {
    let all = Vec::<Vec<Nested>>::every_variant();
    assert_eq!(all.len(), 4);
    assert_eq!(all[3].len(), 10);
    let inner = Vec::<Nested>::every_variant();
    assert_eq!(inner.len(), 4);
    assert_eq!(inner[0].len(), 3);
    assert_eq!(inner[3].len(), 10);
}

#[test]
fn nested_combinators_compose_counts() {
    let n = Option::<Result<(u8, bool), Vec<u16>>>::every_variant().len();
    assert_eq!(n, 1 + (1 * 2 + 4));
}

#[test]
fn heapless() {
    let _s = HString::<16>::every_variant();
    let _v = HVec::<u8, 16>::every_variant();
}

#[test]
fn fixed_capacity_holds_one_filled_sample() {
    let v = HVec::<u8, 16>::every_variant();
    assert_eq!(v.len(), 1);
    assert_eq!(v[0].as_slice(), &[8u8][..]);
    let s = HString::<16>::every_variant();
    assert_eq!(s.len(), 1);
    assert_eq!(s[0].as_str(), "hello");
}

#[test]
fn identifier_is_nil() {
    let all = uuid::Uuid::every_variant();
    assert_eq!(all.len(), 1);
    assert_eq!(all[0].as_u128(), 0);
    assert!(all[0].is_nil());
}
