use id24_json::{ClipMasked, CodecError, CompOption, Executable, OptionValue, Options, TexWidthClamp};

#[test]
fn add_uses_tier_default() {
    let mut o = Options::new();
    o.add_option(CompOption::comp_thingfloorlight, Some(Executable::Boom2_02));
    assert_eq!(o.get(CompOption::comp_thingfloorlight), Some(OptionValue::Bool(false)));
    o.add_option(CompOption::comp_thingfloorlight, Some(Executable::CompLevel9));
    assert_eq!(o.get(CompOption::comp_thingfloorlight), Some(OptionValue::Bool(true)));
}

#[test]
fn add_without_default_does_nothing() {
    let mut o = Options::new();
    o.add_option(CompOption::comp_soul, None);
    o.add_option(CompOption::comp_ledgeblock, Some(Executable::MBF));
    o.add_option(CompOption::comp_moveblock, Some(Executable::ID24));
    assert!(o.is_empty());
}

#[test]
fn remove_and_has() {
    let mut o = Options::new();
    o.add_option(CompOption::comp_soul, Some(Executable::Doom1_9));
    assert!(o.has_option(CompOption::comp_soul));
    o.remove_option(CompOption::comp_soul);
    assert!(!o.has_option(CompOption::comp_soul));
    o.remove_option(CompOption::comp_soul);
    assert!(o.is_empty());
}

#[test]
fn set_option_overwrites() {
    let mut o = Options::new();
    o.set_option(CompOption::comp_soul, OptionValue::Bool(false));
    o.set_option(CompOption::comp_soul, OptionValue::Bool(true));
    assert_eq!(o.get(CompOption::comp_soul), Some(OptionValue::Bool(true)));
    assert_eq!(o.len(), 1);
}

#[test]
fn pruning_past_mbf() {
    let mut o = Options::new();
    o.add_option(CompOption::comp_moveblock, Some(Executable::MBF));
    o.add_option(CompOption::comp_666, Some(Executable::MBF));
    o.add_option(CompOption::comp_soul, Some(Executable::MBF));
    o.add_option(CompOption::monkeys, Some(Executable::MBF));
    o.set_executable(Executable::MBF21);
    assert!(!o.has_option(CompOption::comp_moveblock));
    assert!(!o.has_option(CompOption::comp_666));
    assert_eq!(o.get(CompOption::comp_soul), Some(OptionValue::Bool(false)));
    assert_eq!(o.get(CompOption::monkeys), Some(OptionValue::Bool(false)));
    assert_eq!(o.len(), 2);
}

#[test]
fn pruning_to_older_tier() {
    let mut o = Options::new();
    o.add_option(CompOption::comp_texwidthclamp, Some(Executable::MBF21));
    o.add_option(CompOption::comp_soul, Some(Executable::MBF21));
    o.set_executable(Executable::Doom1_9);
    assert_eq!(o.entries(), vec![(CompOption::comp_soul, OptionValue::Bool(false))]);
    o.set_executable(Executable::ID24);
    assert_eq!(o.len(), 1);
}

#[test]
fn entries_are_sorted() {
    let mut o = Options::new();
    o.add_option(CompOption::comp_sound, Some(Executable::MBF));
    o.add_option(CompOption::comp_texwidthclamp, Some(Executable::MBF));
    o.add_option(CompOption::comp_soul, Some(Executable::MBF));
    assert_eq!(
        o.entries(),
        vec![
            (CompOption::comp_soul, OptionValue::Bool(false)),
            (CompOption::comp_texwidthclamp, OptionValue::TexWidthClamp(TexWidthClamp::SolidWallsOnly)),
            (CompOption::comp_sound, OptionValue::Bool(true)),
        ]
    );
}

#[test]
fn addable_lists_missing_legal_options() {
    let mut o = Options::new();
    o.add_option(CompOption::comp_soul, Some(Executable::LimitRemoving));
    assert_eq!(
        o.addable(Some(Executable::LimitRemoving)),
        vec![
            CompOption::comp_finaldoomteleport,
            CompOption::comp_texwidthclamp,
            CompOption::comp_clipmasked
        ]
    );
    assert_eq!(o.addable(None).len(), 46);
}

#[test]
fn equality_compares_contents() {
    let mut a = Options::new();
    let mut b = Options::default();
    assert!(a == b);
    a.set_option(CompOption::comp_soul, OptionValue::Bool(true));
    assert!(a != b);
    b.set_option(CompOption::comp_soul, OptionValue::Bool(false));
    assert!(a != b);
    b.set_option(CompOption::comp_soul, OptionValue::Bool(true));
    assert!(a == b);
}

#[test]
fn checked_set_refuses_wrong_shape() {
    let mut o = Options::new();
    assert_eq!(
        o.set_option_checked(CompOption::comp_soul, OptionValue::TexWidthClamp(TexWidthClamp::Off)),
        Err(CodecError::OptionShapeMismatch)
    );
    assert_eq!(
        o.set_option_checked(CompOption::player_helpers, OptionValue::Int(4)),
        Err(CodecError::OptionShapeMismatch)
    );
    assert!(o.is_empty());
    assert_eq!(o.set_option_checked(CompOption::player_helpers, OptionValue::Int(3)), Ok(()));
    assert_eq!(
        o.set_option_checked(CompOption::comp_clipmasked, OptionValue::ClipMasked(ClipMasked::All)),
        Ok(())
    );
    assert_eq!(o.len(), 2);
}
