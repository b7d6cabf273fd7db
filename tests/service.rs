use ruby_convert::format::Format;
use ruby_convert::naming::{
    fresh_upload_name, output_path, transcoder_args, transcoder_program, upload_name,
};
use ruby_convert::reply::{api_root, conversion_reply, no_file_reply, storage_error_reply, Status};
use ruby_convert::upload::{classify_field, FieldKind, Step, Upload};

fn finish_invoke(u: Upload) -> ruby_convert::upload::Invocation {
    match u.finish() {
        Step::Invoke(inv) => inv,
        Step::Respond(r) => panic!("expected a run, got {:?}", r),
    }
}

#[test]
fn api_root_is_fixed() {
    let a = api_root();
    let b = api_root();
    assert_eq!(a.status, Status::Ready);
    assert_eq!(a.status.as_str(), "ok");
    assert_eq!(a.message, "Ruby Chan Multi-Format Converter");
    assert_eq!(
        a.hint.as_deref(),
        Some("POST /api/audio/convert → file + format (mp3,m4a,ogg,flac,aac,wav)")
    );
    assert_eq!(a.output, None);
    assert_eq!(a.size_bytes, None);
    assert_eq!(a.status, b.status);
    assert_eq!(a.message, b.message);
    assert_eq!(a.hint, b.hint);
}

#[test]
fn missing_file_gives_error_reply() {
    let mut u = Upload::new();
    u.format_field("mp3");
    assert!(!u.has_file());
    match u.finish() {
        Step::Respond(r) => {
            assert_eq!(r.status, Status::Error);
            assert_eq!(r.status.as_str(), "error");
            assert_eq!(r.message, "No file uploaded");
            assert_eq!(r.output, None);
            assert_eq!(r.size_bytes, None);
            assert_eq!(r.hint, None);
        }
        Step::Invoke(_) => panic!("no file was uploaded"),
    }
}

#[test]
fn no_file_reply_fields() {
    let r = no_file_reply();
    assert_eq!(r.status, Status::Error);
    assert_eq!(r.message, "No file uploaded");
}

#[test]
fn storage_error_reply_fields() {
    let r = storage_error_reply();
    assert_eq!(r.status, Status::Error);
    assert_eq!(r.message, "Upload could not be stored");
    assert_eq!(r.output, None);
}

#[test]
fn default_target_is_wav() {
    let u = Upload::new();
    assert_eq!(u.target(), Format::Wav);
    assert_eq!(Format::default_target(), Format::Wav);
}

#[test]
fn unlisted_formats_keep_target() {
    let mut u = Upload::new();
    u.format_field("xyz");
    assert_eq!(u.target(), Format::Wav);
    u.format_field("");
    assert_eq!(u.target(), Format::Wav);
    u.format_field("ogg");
    assert_eq!(u.target(), Format::Ogg);
    u.format_field("mp4");
    assert_eq!(u.target(), Format::Ogg);
    u.format_field("wa v");
    assert_eq!(u.target(), Format::Ogg);
}

#[test]
fn formats_are_case_insensitive_and_trimmed() {
    let mut u = Upload::new();
    u.format_field("MP3");
    assert_eq!(u.target(), Format::Mp3);
    u.format_field("  Flac\n");
    assert_eq!(u.target(), Format::Flac);
    u.format_field("\tAAC ");
    assert_eq!(u.target(), Format::Aac);
    assert_eq!(Format::from_field_text(" M4A "), Some(Format::M4a));
    assert_eq!(Format::from_field_text("Wav"), Some(Format::Wav));
    assert_eq!(Format::from_field_text("xyz"), None);
}

#[test]
fn apply_format_takes_normalized_text_only() {
    let mut u = Upload::new();
    u.apply_format("flac");
    assert_eq!(u.target(), Format::Flac);
    u.apply_format("MP3");
    assert_eq!(u.target(), Format::Flac);
    u.apply_format(" ogg");
    assert_eq!(u.target(), Format::Flac);
    u.apply_format("aac");
    assert_eq!(u.target(), Format::Aac);
}

#[test]
fn format_names_round_trip() {
    let all = [
        Format::Wav,
        Format::Mp3,
        Format::M4a,
        Format::Ogg,
        Format::Flac,
        Format::Aac,
    ];
    let names = ["wav", "mp3", "m4a", "ogg", "flac", "aac"];
    for (f, n) in all.iter().zip(names.iter()) {
        assert_eq!(f.name(), *n);
        assert_eq!(Format::from_name(n), Some(*f));
    }
    assert_eq!(Format::from_name("Wav"), None);
    assert_eq!(Format::from_name(""), None);
}

#[test]
fn field_kinds() {
    assert_eq!(classify_field("file"), FieldKind::File);
    assert_eq!(classify_field("format"), FieldKind::Format);
    assert_eq!(classify_field(""), FieldKind::Other);
    assert_eq!(classify_field("File"), FieldKind::Other);
    assert_eq!(classify_field("notes"), FieldKind::Other);
}

#[test]
fn file_then_format_invokes_transcoder() {
    let mut u = Upload::new();
    let displaced = u.file_stored(upload_name(1700000000123));
    assert_eq!(displaced, None);
    u.format_field("wav");
    let inv = finish_invoke(u);
    assert_eq!(inv.input(), "upload_1700000000123");
    assert_eq!(inv.output(), "converted.wav");
    assert_eq!(inv.format(), Format::Wav);
    assert_eq!(
        inv.args(),
        vec!["-y", "-i", "upload_1700000000123", "converted.wav"]
    );
    assert_eq!(transcoder_program(), "ffmpeg");
}

#[test]
fn format_before_file_is_kept() {
    let mut u = Upload::new();
    u.format_field("m4a");
    u.file_stored("upload_5".to_string());
    let inv = finish_invoke(u);
    assert_eq!(inv.output(), "converted.m4a");
    assert_eq!(inv.input(), "upload_5");
}

#[test]
fn second_file_displaces_first() {
    let mut u = Upload::new();
    assert_eq!(u.file_stored("upload_1".to_string()), None);
    assert_eq!(u.file_stored("upload_2".to_string()), Some("upload_1".to_string()));
    assert!(u.has_file());
    let inv = finish_invoke(u);
    assert_eq!(inv.input(), "upload_2");
}

#[test]
fn successful_wav_reply() {
    let mut u = Upload::new();
    u.file_stored("upload_7".to_string());
    u.format_field("wav");
    let inv = finish_invoke(u);
    let r = inv.reply(true, Some(44_144));
    assert_eq!(r.status, Status::Success);
    assert_eq!(r.status.as_str(), "success");
    assert_eq!(r.message, "Converted to wav!");
    assert_eq!(r.output.as_deref(), Some("converted.wav"));
    assert_eq!(r.size_bytes, Some(44_144));
}

#[test]
fn success_without_readable_size() {
    let r = conversion_reply(Format::Mp3, true, None);
    assert_eq!(r.status, Status::Success);
    assert_eq!(r.message, "Converted to mp3!");
    assert_eq!(r.output.as_deref(), Some("converted.mp3"));
    assert_eq!(r.size_bytes, None);
}

#[test]
fn failed_conversion_reply() {
    let r = conversion_reply(Format::Flac, false, Some(99));
    assert_eq!(r.status, Status::Failed);
    assert_eq!(r.status.as_str(), "failed");
    assert_eq!(r.message, "Conversion failed");
    assert_eq!(r.output, None);
    assert_eq!(r.size_bytes, None);
}

#[test]
fn same_format_requests_share_output() {
    let mut a = Upload::new();
    a.file_stored(upload_name(1));
    a.format_field("ogg");
    let mut b = Upload::new();
    b.file_stored(upload_name(2));
    b.format_field("OGG");
    let ia = finish_invoke(a);
    let ib = finish_invoke(b);
    assert_ne!(ia.input(), ib.input());
    assert_eq!(ia.output(), ib.output());
    assert_eq!(ia.output(), "converted.ogg");
}

#[test]
fn upload_names() {
    assert_eq!(upload_name(0), "upload_0");
    assert_eq!(upload_name(42), "upload_42");
    assert_eq!(upload_name(-17), "upload_-17");
    assert_eq!(upload_name(i64::MAX), "upload_9223372036854775807");
    assert_eq!(upload_name(i64::MIN), "upload_-9223372036854775808");
    assert_ne!(upload_name(10), upload_name(100));
}

#[test]
fn fresh_upload_name_is_stamped() {
    let n = fresh_upload_name();
    let rest = n.strip_prefix("upload_").expect("prefix");
    assert!(!rest.is_empty());
    assert!(rest.trim_start_matches('-').chars().all(|c| c.is_ascii_digit()));
}

#[test]
fn output_paths() {
    assert_eq!(output_path(Format::Wav), "converted.wav");
    assert_eq!(output_path(Format::Mp3), "converted.mp3");
    assert_eq!(output_path(Format::M4a), "converted.m4a");
    assert_eq!(output_path(Format::Ogg), "converted.ogg");
    assert_eq!(output_path(Format::Flac), "converted.flac");
    assert_eq!(output_path(Format::Aac), "converted.aac");
}

#[test]
fn transcoder_args_order() {
    assert_eq!(
        transcoder_args("in", "out.mp3"),
        vec!["-y".to_string(), "-i".to_string(), "in".to_string(), "out.mp3".to_string()]
    );
}

#[test]
fn status_texts() {
    assert_eq!(Status::Ready.as_str(), "ok");
    assert_eq!(Status::Success.as_str(), "success");
    assert_eq!(Status::Failed.as_str(), "failed");
    assert_eq!(Status::Error.as_str(), "error");
}

#[test]
fn abandon_hands_back_upload() {
    let mut u = Upload::new();
    u.format_field("aac");
    assert_eq!(Upload::new().abandon(), None);
    u.file_stored("upload_9".to_string());
    assert_eq!(u.abandon(), Some("upload_9".to_string()));
}
