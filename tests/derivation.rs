use every_variant::fixtures::{
    FormattedMessage, Gen1, Gen2, Generic1, Generic2, GenericDerive, GenericEnum, Message,
    MessageType, MultiGeneric, TestNamed1, TestUnnamed1, TestUnnamed2, TestUnnamed3,
};
use every_variant::demo::{Nested, SecondTop, Top};
use every_variant::EveryVariant;

#[test]
fn small_example() {
    let all_diferent_messages = FormattedMessage::every_variant();
    println!("{:#?}", all_diferent_messages);

    let opt_msg_len = Option::<MessageType>::every_variant().len();
    let text_len = String::every_variant().len();

    assert_eq!(opt_msg_len * text_len, all_diferent_messages.len());
}

#[test]
fn std_impl_messages_number() {
    let msgs = Message::every_variant().len();
    let messages_len = String::every_variant().len();
    let number_len = u32::every_variant().len();
    let opt_len = Option::<u64>::every_variant().len();
    let nest_len = Top::every_variant().len();
    let second_len = SecondTop::every_variant().len();

    assert_eq!(
        (messages_len * number_len * opt_len * nest_len * second_len),
        msgs
    );
}

#[test]
fn opts_number() {
    let msgs = Option::<u64>::every_variant().len();
    assert_eq!(u64::every_variant().len() + 1, msgs);
}

#[test]
fn unnamed1() {
    let msgs = TestUnnamed1::every_variant().len();
    let u16_len = u16::every_variant().len();
    let u32_len = u32::every_variant().len();
    let u64_len = u64::every_variant().len();
    let i32_len = i32::every_variant().len();
    assert_eq!(
        u16_len + u16_len * u32_len + u16_len * u32_len * u64_len * i32_len,
        msgs
    );
}

#[test]
fn unnamed2() {
    let msgs = TestUnnamed2::every_variant().len();
    let u16_len = u16::every_variant().len();
    let u32_len = u32::every_variant().len();
    let u64_len = u64::every_variant().len();
    assert_eq!(u16_len * u32_len * u64_len, msgs);
}

#[test]
fn generic1() {
    let msgs = Generic1::every_variant().len();

    let gen1_len = Gen1::<u8>::every_variant().len();
    let gen2_len = Gen2::<u16, u32>::every_variant().len();

    assert_eq!(gen1_len * gen2_len, msgs);
}

#[test]
fn generic2() {
    let msgs = Generic2::every_variant().len();
    let gen1_len = Gen1::<i8>::every_variant().len();
    let gen2_len = Gen2::<i16, i32>::every_variant().len();
    assert_eq!(gen1_len + gen2_len, msgs);
}

#[test]
fn named_enum() {
    let msgs = TestNamed1::every_variant().len();
    let u16_len = u16::every_variant().len();
    let u32_len = u32::every_variant().len();
    let u64_len = u64::every_variant().len();
    assert_eq!(
        u16_len + u16_len * u32_len + u16_len * u32_len * u64_len,
        msgs
    );
}

#[test]
fn generic_everyvariant() {
    let msgs = GenericDerive::<u32>::every_variant().len();
    assert_eq!(u32::every_variant().len(), msgs);

    let msgs = GenericEnum::<u32>::every_variant().len();
    assert_eq!(2 * u32::every_variant().len(), msgs);

    let msgs = MultiGeneric::<u32, u32>::every_variant().len();
    assert_eq!(
        u32::every_variant().len() * u32::every_variant().len(),
        msgs
    );
}

#[test]
fn five_field_message_has_forty_samples() {
    assert_eq!(Message::every_variant().len(), 40);
}

#[test]
fn three_arity_enum_has_three_samples() {
    assert_eq!(TestUnnamed1::every_variant().len(), 3);
    assert_eq!(TestNamed1::every_variant().len(), 3);
}

#[test]
fn three_field_tuple_struct_has_one_sample() {
    let all = TestUnnamed2::every_variant();
    assert_eq!(all.len(), 1);
    assert_eq!((all[0].0, all[0].1, all[0].2), (16, 32, 64));
}

#[test]
fn generic_wrappers_over_u32() {
    let all = GenericDerive::<u32>::every_variant();
    assert_eq!(all.len(), 1);
    assert_eq!(all[0].value, 32);
    let all = GenericEnum::<u32>::every_variant();
    assert_eq!(all.len(), 2);
    assert!(matches!(all[0], GenericEnum::One(32)));
    assert!(matches!(all[1], GenericEnum::Two(32)));
}

#[test]
fn single_field_struct_keeps_the_field_samples() {
    let all = TestUnnamed3::every_variant();
    assert_eq!(all.len(), 1);
    assert_eq!(all[0].0, 16);
}

#[test]
fn enum_variants_come_in_declaration_order() {
    let all = Nested::every_variant();
    assert!(matches!(
        all.as_slice(),
        [Nested::First, Nested::Second, Nested::Third]
    ));
    let all = SecondTop::every_variant();
    assert_eq!(all.len(), 5);
    assert!(matches!(all[0], SecondTop::One));
    assert!(matches!(all[1], SecondTop::Two(Nested::First)));
    assert!(matches!(all[2], SecondTop::Two(Nested::Second)));
    assert!(matches!(all[3], SecondTop::Two(Nested::Third)));
    assert!(matches!(all[4], SecondTop::Three));
}

#[test]
fn product_varies_first_field_slowest() {
    let all = FormattedMessage::every_variant();
    assert_eq!(all.len(), 4);
    assert!(all[0].rendermethod.is_none());
    assert!(matches!(all[1].rendermethod, Some(MessageType::Codified)));
    assert!(matches!(all[2].rendermethod, Some(MessageType::Markdown)));
    assert!(matches!(all[3].rendermethod, Some(MessageType::Html)));
    for m in &all {
        assert_eq!(m.text, "example String");
    }
    let pairs = <(bool, usize)>::every_variant();
    assert_eq!(pairs, vec![(true, 0), (true, usize::MAX), (false, 0), (false, usize::MAX)]);
}

#[test]
fn sum_concatenates_variant_samples() {
    let all = Generic2::every_variant();
    assert_eq!(all.len(), 2);
    assert!(matches!(all[0], Generic2::G1(Gen1(-8))));
    assert!(matches!(all[1], Generic2::G2(Gen2(-16, -32))));
}

#[test]
fn enum_visits_each_sample_in_order() {
    let seen = std::cell::RefCell::new(Vec::new());
    SecondTop::for_every_variant(|v| seen.borrow_mut().push(format!("{:?}", v)));
    let seen = seen.into_inner();
    assert_eq!(
        seen,
        vec!["One", "Two(First)", "Two(Second)", "Two(Third)", "Three"]
    );
}

#[test]
fn struct_visit_does_nothing() {
    let count = std::cell::Cell::new(0usize);
    Message::for_every_variant(|_| count.set(count.get() + 1));
    assert_eq!(count.get(), 0);
}

#[test]
fn repeated_calls_give_equal_sequences() {
    let a = format!("{:?}", Message::every_variant());
    let b = format!("{:?}", Message::every_variant());
    assert_eq!(a, b);
}
