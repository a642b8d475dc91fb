use uci::command::engine_to_gui::{
    CheckOption, ComboOption, EngineOption, OptionType, SpinOption, StringOption,
};

fn fields(option: Option<SpinOption>) -> Option<(usize, usize, usize)> {
    option.map(|spin| (spin.min, spin.max, spin.default))
}

#[test]
fn spin_option_in_order_is_built() {
    let option = SpinOption::new(0, 1024, 16);
    assert_eq!(option.min, 0);
    assert_eq!(option.max, 1024);
    assert_eq!(option.default, 16);
    assert_eq!(fields(SpinOption::try_new(0, 1024, 16)), Some((0, 1024, 16)));
}

#[test]
fn spin_option_with_min_above_max_is_refused() {
    assert_eq!(fields(SpinOption::try_new(100, 50, 60)), None);
    assert_eq!(fields(SpinOption::try_new(100, 50, 100)), None);
    assert_eq!(fields(SpinOption::try_new(100, 50, 50)), None);
}

#[test]
fn spin_option_with_default_outside_is_refused() {
    assert_eq!(fields(SpinOption::try_new(10, 20, 9)), None);
    assert_eq!(fields(SpinOption::try_new(10, 20, 21)), None);
    assert_eq!(fields(SpinOption::try_new(10, 20, 0)), None);
    assert_eq!(fields(SpinOption::try_new(10, 20, usize::MAX)), None);
}

#[test]
fn spin_option_at_the_bounds_is_built() {
    assert_eq!(fields(SpinOption::try_new(10, 20, 10)), Some((10, 20, 10)));
    assert_eq!(fields(SpinOption::try_new(10, 20, 20)), Some((10, 20, 20)));
    assert_eq!(fields(SpinOption::try_new(7, 7, 7)), Some((7, 7, 7)));
    assert_eq!(
        fields(SpinOption::try_new(0, usize::MAX, usize::MAX)),
        Some((0, usize::MAX, usize::MAX))
    );
    let option = SpinOption::new(7, 7, 7);
    assert_eq!((option.min, option.default, option.max), (7, 7, 7));
}

#[test]
fn hash_option_is_a_spin_named_hash() {
    let option = EngineOption::hash(1, 4096, 64);
    assert_eq!(option.name, "Hash");
    match option.option_type {
        OptionType::Spin(spin) => {
            assert_eq!(spin.min, 1);
            assert_eq!(spin.max, 4096);
            assert_eq!(spin.default, 64);
        }
        _ => panic!("the hash option is a spin option"),
    }
}

#[test]
fn new_option_keeps_name_and_type() {
    let option = EngineOption::new("Ponder", OptionType::Check(CheckOption { default: true }));
    assert_eq!(option.name, "Ponder");
    assert!(matches!(option.option_type, OptionType::Check(CheckOption { default: true })));

    let option = EngineOption::new(String::from("Clear Hash"), OptionType::Button);
    assert_eq!(option.name, "Clear Hash");
    assert!(matches!(option.option_type, OptionType::Button));

    let option = EngineOption::new(
        "Style",
        OptionType::Combo(ComboOption {
            default: "Normal".to_string(),
            values: vec!["Solid".to_string(), "Normal".to_string(), "Risky".to_string()],
        }),
    );
    match option.option_type {
        OptionType::Combo(combo) => {
            assert_eq!(combo.default, "Normal");
            assert_eq!(combo.values, vec!["Solid", "Normal", "Risky"]);
        }
        _ => panic!("the option is a combo option"),
    }

    let option = EngineOption::new(
        "NalimovPath",
        OptionType::String(StringOption { default: "c:\\".to_string() }),
    );
    match option.option_type {
        OptionType::String(string) => assert_eq!(string.default, "c:\\"),
        _ => panic!("the option is a string option"),
    }
}
