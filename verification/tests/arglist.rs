use currycompose::args::{
    concat_1_0, concat_1_1, concat_1_2, split_0_1, split_0_2, split_1_1, split_1_2, split_2_1,
    split_2_2,
};

#[test]
fn splits_divide_at_the_fixed_position() {
    assert_eq!(split_0_1((7u8,)), ((), (7u8,)));
    assert_eq!(split_0_2((7u8, "s")), ((), (7u8, "s")));
    assert_eq!(split_1_1((1u8, 2u16)), ((1u8,), (2u16,)));
    assert_eq!(split_1_2((1u8, 2u16, 3u32)), ((1u8,), (2u16, 3u32)));
    assert_eq!(split_2_1((1u8, 2u16, 3u32)), ((1u8, 2u16), (3u32,)));
    assert_eq!(split_2_2((1u8, 2u16, 3u32, 4u64)), ((1u8, 2u16), (3u32, 4u64)));
}

#[test]
fn concats_place_the_head_first() {
    assert_eq!(concat_1_0((5u8,), ()), (5u8,));
    assert_eq!(concat_1_1((5u8,), (6u16,)), (5u8, 6u16));
    assert_eq!(concat_1_2((5u8,), (6u16, 7u32)), (5u8, 6u16, 7u32));
}

#[test]
fn split_then_concat_round_trips() {
    let list: (u8, u16) = (1u8, 2u16);
    let (left, right) = split_1_1(list);
    assert_eq!(concat_1_1(left, right), (1u8, 2u16));
}
