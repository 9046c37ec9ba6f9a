use id24_json::{ClipMasked, CompOption, OptionValue, Options, TexWidthClamp};

#[test]
fn deserialize_single_option() {
    let json = r#"
            "comp_soul 0"
        "#;
    let options = Options::from_json(json).unwrap();
    assert_eq!(options.len(), 1);
    assert_eq!(options.get(CompOption::comp_soul), Some(OptionValue::Bool(false)));
}

#[test]
fn deserialize_multiple_options() {
    let json = r#"
            "comp_soul 0\ncomp_texwidthclamp 1"
        "#;
    let options = Options::from_json(json).unwrap();
    assert_eq!(options.len(), 2);
    assert_eq!(options.get(CompOption::comp_soul), Some(OptionValue::Bool(false)));
    assert_eq!(
        options.get(CompOption::comp_texwidthclamp),
        Some(OptionValue::TexWidthClamp(TexWidthClamp::SolidWallsOnly))
    );
}

#[test]
fn deserialize_options_single_line() {
    let json = r#"
            "comp_soul 0 comp_texwidthclamp 1"
        "#;
    assert!(Options::from_json(json).is_err());
}

#[test]
fn deserialize_options_invalid_range() {
    // integer and boolean options are clamped to the valid range
    let json = r#"
            "comp_soul 2"
        "#;
    let options = Options::from_json(json).unwrap();
    assert_eq!(options.get(CompOption::comp_soul), Some(OptionValue::Bool(true)));
    let json = r#"
            "player_helpers 4"
        "#;
    let options = Options::from_json(json).unwrap();
    assert_eq!(options.get(CompOption::player_helpers), Some(OptionValue::Int(3)));
    // enum options error when the value is invalid
    let json = r#"
            "comp_texwidthclamp 3"
        "#;
    assert!(Options::from_json(json).is_err());
}

#[test]
fn deserialize_options_doesnt_exist() {
    let json = r#"
            "comp_fake 0"
        "#;
    assert!(Options::from_json(json).is_err());
}

#[test]
fn deserialize_all_enum_variants() {
    let json = r#"
            "comp_texwidthclamp 0"
        "#;
    let options = Options::from_json(json).unwrap();
    assert_eq!(
        options.get(CompOption::comp_texwidthclamp),
        Some(OptionValue::TexWidthClamp(TexWidthClamp::All))
    );
    let json = r#"
            "comp_texwidthclamp 1"
        "#;
    let options = Options::from_json(json).unwrap();
    assert_eq!(
        options.get(CompOption::comp_texwidthclamp),
        Some(OptionValue::TexWidthClamp(TexWidthClamp::SolidWallsOnly))
    );
    let json = r#"
            "comp_texwidthclamp 2"
        "#;
    let options = Options::from_json(json).unwrap();
    assert_eq!(
        options.get(CompOption::comp_texwidthclamp),
        Some(OptionValue::TexWidthClamp(TexWidthClamp::Off))
    );
    let json = r#"
            "comp_clipmasked 0"
        "#;
    let options = Options::from_json(json).unwrap();
    assert_eq!(
        options.get(CompOption::comp_clipmasked),
        Some(OptionValue::ClipMasked(ClipMasked::Off))
    );
    let json = r#"
            "comp_clipmasked 1"
        "#;
    let options = Options::from_json(json).unwrap();
    assert_eq!(
        options.get(CompOption::comp_clipmasked),
        Some(OptionValue::ClipMasked(ClipMasked::MultipatchOnly))
    );
    let json = r#"
            "comp_clipmasked 2"
        "#;
    let options = Options::from_json(json).unwrap();
    assert_eq!(
        options.get(CompOption::comp_clipmasked),
        Some(OptionValue::ClipMasked(ClipMasked::All))
    );
}
