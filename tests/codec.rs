use id24_json::{
    ClipMasked, CodecError, CompOption, Executable, OptionValue, Options, TexWidthClamp,
};

fn sample() -> Options {
    let mut o = Options::new();
    o.add_option(CompOption::player_helpers, Some(Executable::MBF21));
    o.set_option(CompOption::player_helpers, OptionValue::Int(2));
    o.add_option(CompOption::comp_soul, Some(Executable::MBF21));
    o.add_option(CompOption::comp_texwidthclamp, Some(Executable::MBF21));
    o
}

#[test]
fn encode_writes_sorted_lines() {
    assert_eq!(sample().encode(), "comp_soul 0\ncomp_texwidthclamp 1\nplayer_helpers 2");
}

#[test]
fn encode_empty_is_empty_text() {
    assert_eq!(Options::new().encode(), "");
}

#[test]
fn encode_values_of_every_shape() {
    let mut o = Options::new();
    o.set_option(CompOption::friend_distance, OptionValue::Int(999));
    o.set_option(CompOption::comp_clipmasked, OptionValue::ClipMasked(ClipMasked::All));
    o.set_option(CompOption::comp_musinfo, OptionValue::Bool(true));
    assert_eq!(o.encode(), "comp_clipmasked 2\ncomp_musinfo 1\nfriend_distance 999");
}

#[test]
fn to_json_quotes_the_wire_text() {
    assert_eq!(sample().to_json().unwrap(), "\"comp_soul 0\\ncomp_texwidthclamp 1\\nplayer_helpers 2\"");
}

#[test]
fn from_json_reads_the_string_contents() {
    let o = Options::from_json("\"comp_soul 1\"").unwrap();
    assert_eq!(o.get(CompOption::comp_soul), Some(OptionValue::Bool(true)));
}

#[test]
fn from_json_rejects_non_string_documents() {
    assert_eq!(Options::from_json("comp_soul 1"), Err(CodecError::InvalidJson));
    assert_eq!(Options::from_json("[\"comp_soul 1\"]"), Err(CodecError::InvalidJson));
}

#[test]
fn round_trip_of_built_set() {
    let mut o = Options::new();
    for opt in CompOption::all() {
        o.add_option(opt, Some(Executable::MBF));
    }
    o.set_option(CompOption::friend_distance, OptionValue::Int(640));
    o.set_option(CompOption::comp_clipmasked, OptionValue::ClipMasked(ClipMasked::Off));
    o.set_option(CompOption::comp_soul, OptionValue::Bool(true));
    assert_eq!(o.len(), 43);
    let back = Options::decode(&o.encode()).unwrap();
    assert!(back == o);
    let back = Options::from_json(&o.to_json().unwrap()).unwrap();
    assert!(back == o);
}

#[test]
fn clamped_value_is_stable() {
    let first = Options::decode("player_helpers 4").unwrap();
    assert_eq!(first.get(CompOption::player_helpers), Some(OptionValue::Int(3)));
    assert_eq!(first.encode(), "player_helpers 3");
    let second = Options::decode(&first.encode()).unwrap();
    assert!(second == first);
    let far = Options::decode("friend_distance 5000").unwrap();
    assert_eq!(far.get(CompOption::friend_distance), Some(OptionValue::Int(999)));
}

#[test]
fn enum_ordinal_past_the_end_fails() {
    assert_eq!(Options::decode("comp_texwidthclamp 3"), Err(CodecError::InvalidEnumValue));
    assert_eq!(Options::decode("comp_clipmasked 3"), Err(CodecError::InvalidEnumValue));
}

#[test]
fn two_assignments_on_one_line_fail() {
    assert_eq!(
        Options::decode("comp_soul 0 comp_texwidthclamp 1"),
        Err(CodecError::MalformedLine)
    );
    assert_eq!(Options::decode("comp_soul"), Err(CodecError::MalformedLine));
    assert_eq!(Options::decode("comp_soul 0\n\ncomp_vile 1"), Err(CodecError::MalformedLine));
}

#[test]
fn unknown_option_fails() {
    assert_eq!(Options::decode("comp_fake 0"), Err(CodecError::UnknownOption));
    assert_eq!(Options::decode("COMP_SOUL 0"), Err(CodecError::UnknownOption));
}

#[test]
fn bad_number_fails() {
    assert_eq!(Options::decode("comp_soul x"), Err(CodecError::InvalidValue));
    assert_eq!(Options::decode("comp_soul -1"), Err(CodecError::InvalidValue));
    assert_eq!(Options::decode("comp_soul 65536"), Err(CodecError::InvalidValue));
    assert_eq!(Options::decode("comp_soul +"), Err(CodecError::InvalidValue));
}

#[test]
fn two_line_scenario() {
    let o = Options::decode("comp_soul 0\ncomp_texwidthclamp 1").unwrap();
    assert_eq!(o.len(), 2);
    assert_eq!(o.get(CompOption::comp_soul), Some(OptionValue::Bool(false)));
    assert_eq!(
        o.get(CompOption::comp_texwidthclamp),
        Some(OptionValue::TexWidthClamp(TexWidthClamp::SolidWallsOnly))
    );
}

#[test]
fn lenient_spacing_and_line_endings() {
    let o = Options::decode("  comp_soul\t+1 \r\ncomp_vile 0065535\n").unwrap();
    assert_eq!(o.len(), 2);
    assert_eq!(o.get(CompOption::comp_soul), Some(OptionValue::Bool(true)));
    assert_eq!(o.get(CompOption::comp_vile), Some(OptionValue::Bool(true)));
    assert_eq!(Options::decode("").unwrap().len(), 0);
    assert_eq!(Options::decode("\n"), Err(CodecError::MalformedLine));
}

#[test]
fn later_line_wins() {
    let o = Options::decode("comp_soul 1\ncomp_soul 0").unwrap();
    assert_eq!(o.len(), 1);
    assert_eq!(o.get(CompOption::comp_soul), Some(OptionValue::Bool(false)));
}

#[test]
fn first_bad_line_decides_the_error() {
    assert_eq!(
        Options::decode("comp_fake 1\ncomp_soul 0 0"),
        Err(CodecError::UnknownOption)
    );
}

#[test]
fn empty_set_writes_empty_json_string() {
    assert_eq!(Options::new().to_json(), Ok("\"\"".to_owned()));
}
