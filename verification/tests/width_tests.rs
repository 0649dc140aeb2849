use enum_from_discriminant::width::{all_widths, widths_for};
use enum_from_discriminant::IntWidth;

const ORDER: [IntWidth; 10] = [
    IntWidth::U8,
    IntWidth::U16,
    IntWidth::U32,
    IntWidth::Usize,
    IntWidth::U64,
    IntWidth::I8,
    IntWidth::I16,
    IntWidth::I32,
    IntWidth::Isize,
    IntWidth::I64,
];

#[test]
fn max_value_of_each_width() {
    assert_eq!(IntWidth::U8.max_value(), 255);
    assert_eq!(IntWidth::U16.max_value(), 65_535);
    assert_eq!(IntWidth::U32.max_value(), 4_294_967_295);
    assert_eq!(IntWidth::U64.max_value(), 18_446_744_073_709_551_615);
    assert_eq!(IntWidth::Usize.max_value(), usize::MAX as u64);
    assert_eq!(IntWidth::I8.max_value(), 127);
    assert_eq!(IntWidth::I16.max_value(), 32_767);
    assert_eq!(IntWidth::I32.max_value(), 2_147_483_647);
    assert_eq!(IntWidth::I64.max_value(), 9_223_372_036_854_775_807);
    assert_eq!(IntWidth::Isize.max_value(), isize::MAX as u64);
}

#[test]
fn emission_order_is_unsigned_then_signed() {
    assert_eq!(all_widths(), ORDER);
}

#[test]
fn can_hold_at_the_boundary() {
    assert!(IntWidth::U8.can_hold(255));
    assert!(!IntWidth::U8.can_hold(256));
    assert!(IntWidth::I8.can_hold(127));
    assert!(!IntWidth::I8.can_hold(128));
    assert!(IntWidth::U16.can_hold(65_535));
    assert!(!IntWidth::U16.can_hold(65_536));
    assert!(IntWidth::I16.can_hold(32_767));
    assert!(!IntWidth::I16.can_hold(32_768));
    assert!(IntWidth::U32.can_hold(4_294_967_295));
    assert!(!IntWidth::U32.can_hold(4_294_967_296));
    assert!(IntWidth::I32.can_hold(2_147_483_647));
    assert!(!IntWidth::I32.can_hold(2_147_483_648));
    assert!(IntWidth::I64.can_hold(9_223_372_036_854_775_807));
    assert!(!IntWidth::I64.can_hold(9_223_372_036_854_775_808));
    assert!(IntWidth::U64.can_hold(u64::MAX));
    assert!(IntWidth::U64.can_hold(0));
}

#[test]
fn every_width_holds_a_small_discriminant() {
    assert_eq!(widths_for(0), ORDER.to_vec());
    assert_eq!(widths_for(3), ORDER.to_vec());
    assert_eq!(widths_for(127), ORDER.to_vec());
}

#[test]
fn widths_drop_out_as_the_discriminant_grows() {
    assert_eq!(
        widths_for(128),
        vec![
            IntWidth::U8,
            IntWidth::U16,
            IntWidth::U32,
            IntWidth::Usize,
            IntWidth::U64,
            IntWidth::I16,
            IntWidth::I32,
            IntWidth::Isize,
            IntWidth::I64,
        ]
    );
    assert_eq!(widths_for(255), widths_for(128));
    assert_eq!(
        widths_for(256),
        vec![
            IntWidth::U16,
            IntWidth::U32,
            IntWidth::Usize,
            IntWidth::U64,
            IntWidth::I16,
            IntWidth::I32,
            IntWidth::Isize,
            IntWidth::I64,
        ]
    );
    assert_eq!(widths_for(16_381), widths_for(256));
    assert_eq!(widths_for(32_767), widths_for(256));
    assert_eq!(
        widths_for(32_768),
        vec![
            IntWidth::U16,
            IntWidth::U32,
            IntWidth::Usize,
            IntWidth::U64,
            IntWidth::I32,
            IntWidth::Isize,
            IntWidth::I64,
        ]
    );
    assert_eq!(
        widths_for(65_536),
        vec![
            IntWidth::U32,
            IntWidth::Usize,
            IntWidth::U64,
            IntWidth::I32,
            IntWidth::Isize,
            IntWidth::I64,
        ]
    );
    assert_eq!(widths_for(2_147_483_647), widths_for(65_536));
}

#[test]
fn widths_for_is_the_order_filtered_by_can_hold() {
    let samples = [
        0,
        127,
        128,
        255,
        256,
        2003,
        32_767,
        32_768,
        65_535,
        65_536,
        2_147_483_647,
        2_147_483_648,
        4_294_967_295,
        4_294_967_296,
        9_223_372_036_854_775_807,
        9_223_372_036_854_775_808,
        u64::MAX,
    ];
    for biggest in samples {
        let expected: Vec<IntWidth> =
            ORDER.iter().copied().filter(|width| biggest <= width.max_value()).collect();
        assert_eq!(widths_for(biggest), expected);
    }
}

#[test]
fn only_the_widest_hold_the_largest_discriminant() {
    let widths = widths_for(u64::MAX);
    assert!(widths.contains(&IntWidth::U64));
    assert_eq!(widths.contains(&IntWidth::Usize), usize::MAX as u64 == u64::MAX);
    assert!(!widths.contains(&IntWidth::I64));
    assert!(!widths.contains(&IntWidth::Isize));
    assert!(!widths.contains(&IntWidth::U32));
    assert!(!widths.contains(&IntWidth::U8));
}
