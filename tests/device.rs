use windows_record::{
    VideoEncoder, VideoEncoderType, enumerate_video_encoders, get_preferred_video_encoder_by_type,
};

fn enc(name: &str, kind: VideoEncoderType) -> VideoEncoder {
    VideoEncoder { name: name.to_string(), encoder_type: kind }
}

fn names(v: &[VideoEncoder]) -> Vec<String> {
    v.iter().map(|e| e.name.clone()).collect()
}

#[test]
fn hardware_ranked_before_software() {
    let found = vec![
        enc("x264", VideoEncoderType::Software),
        enc("nvenc", VideoEncoderType::Hardware),
        enc("openh264", VideoEncoderType::Software),
        enc("quicksync", VideoEncoderType::Hardware),
    ];
    let ranked = enumerate_video_encoders(&found);
    assert_eq!(names(&ranked), vec!["nvenc", "quicksync", "x264", "openh264"]);
}

#[test]
fn no_backend_gives_empty_list() {
    assert!(enumerate_video_encoders(&Vec::new()).is_empty());
}

#[test]
fn single_backend_gives_non_empty_list() {
    let ranked = enumerate_video_encoders(&vec![enc("x264", VideoEncoderType::Software)]);
    assert_eq!(names(&ranked), vec!["x264"]);
}

#[test]
fn preferred_by_type_keeps_category() {
    let found = vec![
        enc("x264", VideoEncoderType::Software),
        enc("nvenc", VideoEncoderType::Hardware),
        enc("amf", VideoEncoderType::Hardware),
    ];
    let ranked = enumerate_video_encoders(&found);
    let hw = get_preferred_video_encoder_by_type(&ranked, VideoEncoderType::Hardware).unwrap();
    assert_eq!(hw.name, "nvenc");
    assert_eq!(hw.encoder_type, VideoEncoderType::Hardware);
    let sw = get_preferred_video_encoder_by_type(&ranked, VideoEncoderType::Software).unwrap();
    assert_eq!(sw.name, "x264");
    assert_eq!(sw.encoder_type, VideoEncoderType::Software);
}

#[test]
fn preferred_by_type_not_found() {
    let found = vec![enc("x264", VideoEncoderType::Software)];
    assert!(get_preferred_video_encoder_by_type(&found, VideoEncoderType::Hardware).is_none());
}
