use id24_json::{
    find_duplicate, Alignment, CodecError, Config, DemoType, Duration, FileType, FlatMapping,
    FrameType, HoriAlign, LumpType, NumberFontType, OutRowWipe, SkyType, Version, VertAlign,
};

#[test]
fn version_parses_three_numbers() {
    assert_eq!(Version::parse("1.0.0"), Ok(Version { major: 1, minor: 0, revision: 0 }));
    assert_eq!(Version::parse("2.10.255"), Ok(Version { major: 2, minor: 10, revision: 255 }));
    assert_eq!(Version::parse("1.0"), Err(CodecError::InvalidVersion));
    assert_eq!(Version::parse("1.0.0.0"), Err(CodecError::InvalidVersion));
    assert_eq!(Version::parse("one"), Err(CodecError::InvalidVersion));
    assert_eq!(Version::parse("1.256.0"), Err(CodecError::InvalidVersion));
    assert_eq!(Version::parse("1..0"), Err(CodecError::InvalidVersion));
}

#[test]
fn version_text_round_trip() {
    let v = Version { major: 12, minor: 0, revision: 7 };
    assert_eq!(v.text(), "12.0.7");
    assert_eq!(Version::parse(&v.text()), Ok(v));
}

#[test]
fn duplicates_found_at_first_repeat() {
    let names: Vec<String> = vec!["SKY1".to_owned(), "SKY2".to_owned(), "SKY3".to_owned(), "SKY2".to_owned(), "SKY1".to_owned()];
    assert_eq!(find_duplicate(&names), Some(3));
    let unique: Vec<String> = vec!["F_SKY1".to_owned(), "F_SKY2".to_owned()];
    assert_eq!(find_duplicate(&unique), None);
    assert_eq!(find_duplicate(&Vec::new()), None);
}

#[test]
fn alignment_bits() {
    let a = Alignment::from_u8(0b0110).unwrap();
    assert_eq!(a, Alignment { horizontal: HoriAlign::Right, vertical: VertAlign::Center });
    assert_eq!(a.to_u8(), 6);
    assert!(Alignment::from_u8(0b0011).is_err());
    assert!(Alignment::from_u8(0b1100).is_err());
    assert_eq!(Alignment::from_u8(0b1001_0000).unwrap().to_u8(), 0);
    let b = Alignment { horizontal: HoriAlign::Center, vertical: VertAlign::Bottom };
    assert_eq!(Alignment::from_u8(b.to_u8()), Ok(b));
}

#[test]
fn frame_type_bits() {
    let f = FrameType::from_u16(0x1002).unwrap();
    assert_eq!(f, FrameType { random_offset: true, duration: Duration::Fixed });
    assert_eq!(f.to_u16(), 0x1002);
    assert!(FrameType::from_u16(3).is_err());
    assert!(FrameType::from_u16(6).is_err());
    assert_eq!(FrameType::from_u16(4).unwrap().duration, Duration::Random);
    assert_eq!(FrameType::from_u16(0).unwrap(), FrameType { random_offset: false, duration: Duration::Unspecified });
}

#[test]
fn record_codes_and_defaults() {
    assert_eq!(DemoType::from_code(1), Some(DemoType::DemoLump));
    assert_eq!(DemoType::from_code(2), None);
    assert_eq!(OutRowWipe::ScreenMelt.label(), "Screen Melt");
    assert_eq!(SkyType::WithForeground.code(), 2);
    assert_eq!(NumberFontType::from_code(2), Some(NumberFontType::Proportional));
    let m = FlatMapping::default();
    assert_eq!(m.flat, "F_SKY1");
    assert_eq!(m.sky, "SKY1");
    assert_eq!(Config::default().file_type, FileType::Wad);
    assert_eq!(LumpType::all().len(), 7);
    assert_eq!(LumpType::SKYDEFS.label(), "SKYDEFS");
}

#[test]
fn bit_field_error_messages() {
    assert_eq!(FrameType::from_u16(3), Err("Multiple durations specified."));
    assert_eq!(Alignment::from_u8(0b0111), Err("Multiple horizontal alignments specified"));
    assert_eq!(Alignment::from_u8(0b1100), Err("Multiple vertical alignments specified"));
}
