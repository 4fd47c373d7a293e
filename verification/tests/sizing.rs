use egui_theme_switcher::{desired_size, Dimension, Size};

const UNIT: u32 = 18 * 64;

#[test]
fn named_sizes_scale_by_one_three_five_seven() {
    assert_eq!(Dimension::S.multiplier_milli(), 1000);
    assert_eq!(Dimension::M.multiplier_milli(), 3000);
    assert_eq!(Dimension::L.multiplier_milli(), 5000);
    assert_eq!(Dimension::XL.multiplier_milli(), 7000);
}

#[test]
fn custom_scale_is_taken_as_given() {
    assert_eq!(Dimension::Custom(1500).multiplier_milli(), 1500);
    assert_eq!(Dimension::Custom(0).multiplier_milli(), 0);
    assert_eq!(Dimension::Custom(u32::MAX).multiplier_milli(), u32::MAX);
}

#[test]
fn default_dimension_is_s() {
    assert_eq!(Dimension::default(), Dimension::S);
}

#[test]
fn desired_size_is_five_units_by_one_unit_scaled() {
    assert_eq!(desired_size(UNIT, Dimension::S), Size { width: 5760, height: 1152 });
    assert_eq!(desired_size(UNIT, Dimension::M), Size { width: 17280, height: 3456 });
    assert_eq!(desired_size(UNIT, Dimension::L), Size { width: 28800, height: 5760 });
    assert_eq!(desired_size(UNIT, Dimension::XL), Size { width: 40320, height: 8064 });
}

#[test]
fn desired_size_grows_with_the_named_sizes() {
    let named = [Dimension::S, Dimension::M, Dimension::L, Dimension::XL];
    for unit in [1u32, 7, UNIT, 100_000, u32::MAX] {
        for pair in named.windows(2) {
            let smaller = desired_size(unit, pair[0]);
            let larger = desired_size(unit, pair[1]);
            assert!(smaller.width < larger.width);
            assert!(smaller.height < larger.height);
        }
    }
}

#[test]
fn desired_size_of_custom_scale_rounds_down() {
    assert_eq!(desired_size(UNIT, Dimension::Custom(1500)), Size { width: 8640, height: 1728 });
    assert_eq!(desired_size(3, Dimension::Custom(1500)), Size { width: 20, height: 4 });
    assert_eq!(desired_size(1, Dimension::Custom(999)), Size { width: 0, height: 0 });
}

#[test]
fn zero_scale_or_zero_unit_gives_no_area() {
    assert_eq!(desired_size(UNIT, Dimension::Custom(0)), Size { width: 0, height: 0 });
    assert_eq!(desired_size(0, Dimension::XL), Size { width: 0, height: 0 });
}

#[test]
fn largest_inputs_do_not_overflow() {
    let size = desired_size(u32::MAX, Dimension::Custom(u32::MAX));
    assert_eq!(size.height, 18_446_744_065_119_617);
    assert_eq!(size.width, 92_233_720_325_598_085);
}
