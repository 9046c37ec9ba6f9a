use id24_json::{
    ClipMasked, CodecError, CompOption, Executable, Mode, OptionValue, TexWidthClamp, ValueShape,
};

#[test]
fn defaults_exist_exactly_for_legal_tiers() {
    for opt in CompOption::all() {
        assert_eq!(opt.default_value(None), None);
        for exe in Executable::all() {
            let d = opt.default_value(Some(exe));
            assert_eq!(d.is_some(), opt.is_legal_for(exe), "{:?} {:?}", opt, exe);
        }
    }
    assert_eq!(CompOption::all().len(), 47);
}

#[test]
fn defaults_per_tier() {
    let c = CompOption::comp_clipmasked;
    assert_eq!(c.default_value(Some(Executable::Doom1_9)), None);
    assert_eq!(
        c.default_value(Some(Executable::LimitRemoving)),
        Some(OptionValue::ClipMasked(ClipMasked::Off))
    );
    assert_eq!(
        c.default_value(Some(Executable::Boom2_02)),
        Some(OptionValue::ClipMasked(ClipMasked::MultipatchOnly))
    );
    assert_eq!(c.default_value(Some(Executable::ID24)), Some(OptionValue::ClipMasked(ClipMasked::All)));
    let t = CompOption::comp_texwidthclamp;
    assert_eq!(t.default_value(Some(Executable::Boom2_02)), Some(OptionValue::TexWidthClamp(TexWidthClamp::All)));
    assert_eq!(
        t.default_value(Some(Executable::CompLevel9)),
        Some(OptionValue::TexWidthClamp(TexWidthClamp::SolidWallsOnly))
    );
    assert_eq!(CompOption::help_friends.default_value(Some(Executable::MBF)), Some(OptionValue::Bool(true)));
    assert_eq!(CompOption::help_friends.default_value(Some(Executable::MBF21)), Some(OptionValue::Bool(false)));
    assert_eq!(CompOption::comp_zombie.default_value(Some(Executable::MBF)), Some(OptionValue::Bool(false)));
    assert_eq!(CompOption::comp_zombie.default_value(Some(Executable::ID24)), Some(OptionValue::Bool(true)));
    assert_eq!(CompOption::comp_stairs.default_value(Some(Executable::MBF)), Some(OptionValue::Bool(true)));
    assert_eq!(CompOption::comp_stairs.default_value(Some(Executable::MBF21)), Some(OptionValue::Bool(false)));
    assert_eq!(CompOption::friend_distance.default_value(Some(Executable::MBF)), Some(OptionValue::Int(128)));
    assert_eq!(CompOption::player_helpers.default_value(Some(Executable::ID24)), Some(OptionValue::Int(0)));
    assert_eq!(CompOption::comp_sound.default_value(Some(Executable::MBF)), Some(OptionValue::Bool(true)));
    assert_eq!(CompOption::comp_ledgeblock.default_value(Some(Executable::MBF21)), Some(OptionValue::Bool(true)));
}

#[test]
fn tier_ranges() {
    assert_eq!(CompOption::comp_soul.min_exe(), Executable::Doom1_9);
    assert_eq!(CompOption::comp_clipmasked.min_exe(), Executable::LimitRemoving);
    assert_eq!(CompOption::comp_thingfloorlight.min_exe(), Executable::Boom2_02);
    assert_eq!(CompOption::comp_musinfo.min_exe(), Executable::CompLevel9);
    assert_eq!(CompOption::comp_respawn.min_exe(), Executable::MBF);
    assert_eq!(CompOption::comp_reservedlineflag.min_exe(), Executable::MBF21);
    assert_eq!(CompOption::comp_maskedanim.max_exe(), Executable::MBF);
    assert_eq!(CompOption::comp_soul.max_exe(), Executable::ID24);
    assert!(!CompOption::comp_moveblock.is_legal_for(Executable::MBF21));
    assert!(CompOption::comp_moveblock.is_legal_for(Executable::MBF));
    assert!(!CompOption::comp_musinfo.is_legal_for(Executable::Boom2_02));
}

#[test]
fn shapes() {
    assert_eq!(CompOption::player_helpers.value_shape(), ValueShape::Int(3));
    assert_eq!(CompOption::friend_distance.value_shape(), ValueShape::Int(999));
    assert_eq!(CompOption::comp_clipmasked.value_shape(), ValueShape::ClipMasked);
    assert_eq!(CompOption::comp_texwidthclamp.value_shape(), ValueShape::TexWidthClamp);
    assert_eq!(CompOption::comp_soul.value_shape(), ValueShape::Bool);
}

#[test]
fn names_round_trip() {
    for (i, opt) in CompOption::all().into_iter().enumerate() {
        assert_eq!(opt.ordinal(), i);
        assert_eq!(CompOption::from_ordinal(i), opt);
        assert_eq!(CompOption::from_name(opt.name()), Some(opt));
        assert_eq!(opt.name(), format!("{:?}", opt));
        assert!(!opt.description().0.is_empty());
    }
    assert_eq!(CompOption::from_name("comp_fake"), None);
}

#[test]
fn tier_tokens() {
    assert_eq!(Executable::from_token("doom1.9"), Ok(Executable::Doom1_9));
    assert_eq!(Executable::from_token("boom2.02"), Ok(Executable::Boom2_02));
    assert_eq!(Executable::from_token("limitremoving"), Ok(Executable::LimitRemoving));
    assert_eq!(Executable::from_token("mbf21"), Ok(Executable::MBF21));
    assert_eq!(Executable::from_token("MBF"), Err(CodecError::UnknownTier));
    for exe in Executable::all() {
        assert_eq!(Executable::from_token(exe.token()), Ok(exe));
    }
    assert_eq!(Executable::CompLevel9.label(), "Boom (CL9)");
}

#[test]
fn tier_order() {
    assert!(Executable::MBF21.supports(Executable::MBF));
    assert!(!Executable::Boom2_02.supports(Executable::CompLevel9));
    assert!(Executable::Doom1_9 < Executable::ID24);
    assert_eq!(Executable::ID24.level(), 6);
}

#[test]
fn mode_tokens() {
    assert_eq!(Mode::from_token("commercial"), Ok(Mode::Commercial));
    assert_eq!(Mode::from_token("registered"), Ok(Mode::Registered));
    assert_eq!(Mode::from_token("retail"), Ok(Mode::Retail));
    assert_eq!(Mode::from_token("shareware"), Err(CodecError::UnknownMode));
    assert_eq!(Mode::Retail.token(), "retail");
    assert_eq!(Mode::Commercial.label(), "Commercial");
}

#[test]
fn enum_codes_and_labels() {
    assert_eq!(ClipMasked::from_code(1), Some(ClipMasked::MultipatchOnly));
    assert_eq!(ClipMasked::from_code(3), None);
    assert_eq!(TexWidthClamp::Off.code(), 2);
    assert_eq!(TexWidthClamp::SolidWallsOnly.label(), "Solid walls only");
    assert_eq!(ClipMasked::Off.label(), "None");
}

#[test]
fn descriptions_and_labels() {
    assert_eq!(CompOption::comp_soul.description().0, "Lost souls don't bounce off flat surfaces");
    assert_eq!(CompOption::comp_sound.description(), ("use sound errors?", "lorem ipsum"));
    for opt in CompOption::all() {
        assert!(!opt.description().1.is_empty());
    }
    assert_eq!(Executable::Doom1_9.label(), "Vanilla");
    assert_eq!(Mode::Registered.label(), "Registered");
    assert_eq!(ClipMasked::MultipatchOnly.label(), "Multi-patch only");
}
