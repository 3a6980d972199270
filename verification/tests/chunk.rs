use clipwhisper::template::has_format_spec;
use clipwhisper::{ClipCommand, CommandChunk, TargetTimeStamp};
use clipwhisper::args::Args;

fn chunk(flag: &str, value: &str) -> CommandChunk {
    CommandChunk { flag: flag.to_string(), value: value.to_string() }
}

fn command_for(offset: u32, duration: u32) -> ClipCommand {
    Args { input: "in.mp4".to_string(), output: "out.mp4".to_string(), duration, offset }.into()
}

#[test]
fn test_arguments_are_formatted() {
    let windows: [(u32, u32); 6] =
        [(0, 10), (2, 10), (0, 0), (59, 3600), (4294967290, 100), (u32::MAX, 1)];
    for (offset, duration) in windows {
        let command = command_for(offset, duration);
        let target = command.target;
        let start = target.start;
        let end = target.end;

        let video_expected =
            format!("select='between(t,{},{})',setpts=N/FRAME_RATE/TB", start, end);
        assert_eq!(video_expected, command.video_filter.format_chunk(&target).value);

        let audio_expected = format!("aselect='between(t,{},{})',asetpts=N/SR/TB", start, end);
        assert_eq!(audio_expected, command.audio_filter.format_chunk(&target).value);
    }
}

#[test]
fn format_chunk_fills_in_both_seconds() {
    let target = TargetTimeStamp { start: 2, end: 12 };
    let formatted = chunk("-vf", "between(t,{start},{end})").format_chunk(&target);
    assert_eq!(formatted, chunk("-vf", "between(t,2,12)"));
}

#[test]
fn format_chunk_copies_the_flag() {
    let target = TargetTimeStamp { start: 1, end: 2 };
    let formatted = chunk("{start}", "{end}").format_chunk(&target);
    assert_eq!(formatted.flag, "{start}");
    assert_eq!(formatted.value, "2");
}

#[test]
fn format_chunk_fills_in_every_occurrence() {
    let target = TargetTimeStamp { start: 3, end: 40 };
    let formatted = chunk("-x", "{end}{start}-{start}/{end}.{start}").format_chunk(&target);
    assert_eq!(formatted.value, "403-3/40.3");
}

#[test]
fn format_chunk_writes_plain_decimals() {
    let target = TargetTimeStamp { start: 0, end: 4294967295 };
    let formatted = chunk("-x", "[{start}|{end}]").format_chunk(&target);
    assert_eq!(formatted.value, "[0|4294967295]");
    let target = TargetTimeStamp { start: 1000000, end: 10 };
    let formatted = chunk("-x", "{start},{end}").format_chunk(&target);
    assert_eq!(formatted.value, "1000000,10");
}

#[test]
fn format_chunk_keeps_text_without_placeholders() {
    let target = TargetTimeStamp { start: 2, end: 12 };
    assert_eq!(chunk("-i", "in.mp4").format_chunk(&target), chunk("-i", "in.mp4"));
    assert_eq!(chunk("-i", "").format_chunk(&target), chunk("-i", ""));
    assert_eq!(chunk("-vf", "scale=iw:ih,fps=30").format_chunk(&target).value, "scale=iw:ih,fps=30");
}

#[test]
fn format_chunk_takes_a_colon_outside_braces() {
    let target = TargetTimeStamp { start: 2, end: 12 };
    let formatted = chunk("-vf", "trim={start}:{end},scale=iw:ih").format_chunk(&target);
    assert_eq!(formatted.value, "trim=2:12,scale=iw:ih");
}

#[test]
fn format_chunk_gives_the_same_twice() {
    let target = TargetTimeStamp { start: 7, end: 70 };
    let template = chunk("-af", "aselect='between(t,{start},{end})',asetpts=N/SR/TB");
    let first = template.format_chunk(&target);
    let second = template.format_chunk(&target);
    assert_eq!(first, second);
    assert_eq!(first.value, "aselect='between(t,7,70)',asetpts=N/SR/TB");
    assert_eq!(template.value, "aselect='between(t,{start},{end})',asetpts=N/SR/TB");
}

#[test]
fn try_format_chunk_agrees_with_format_chunk() {
    let target = TargetTimeStamp { start: 5, end: 6 };
    let template = chunk("-vf", "a{start}b{end}c");
    assert!(template.can_format(&target));
    assert_eq!(template.try_format_chunk(&target), Some(template.format_chunk(&target)));
    assert_eq!(template.try_format_chunk(&target), Some(chunk("-vf", "a5b6c")));
}

#[test]
fn try_format_chunk_refuses_an_unknown_placeholder() {
    let target = TargetTimeStamp { start: 5, end: 6 };
    for value in ["{middle}", "{start}{stop}", "{}", "{Start}", "{ start }", "{end }"] {
        let template = chunk("-vf", value);
        assert!(!template.can_format(&target));
        assert_eq!(template.try_format_chunk(&target), None);
    }
}

#[test]
fn try_format_chunk_refuses_an_open_brace() {
    let target = TargetTimeStamp { start: 5, end: 6 };
    for value in ["{start", "{", "between({start},{end"] {
        let template = chunk("-vf", value);
        assert!(!template.can_format(&target));
        assert_eq!(template.try_format_chunk(&target), None);
    }
}

#[test]
fn try_format_chunk_refuses_a_format_spec() {
    let target = TargetTimeStamp { start: 5, end: 6 };
    for value in ["{start:05}", "{start:+#", "{end:x", "{start:}", "{start:>70000}", "{{a:b}}"] {
        let template = chunk("-vf", value);
        assert!(has_format_spec(value));
        assert!(!template.can_format(&target));
        assert_eq!(template.try_format_chunk(&target), None);
    }
}

#[test]
fn has_format_spec_looks_inside_braces_only() {
    assert!(!has_format_spec(""));
    assert!(!has_format_spec("select='between(t,{start},{end})',setpts=N/FRAME_RATE/TB"));
    assert!(!has_format_spec("a:b"));
    assert!(!has_format_spec(":{start}"));
    assert!(!has_format_spec("{start}:{end}"));
    assert!(!has_format_spec("}:"));
    assert!(has_format_spec("{:"));
    assert!(has_format_spec("{start:}"));
    assert!(has_format_spec("{start}{end:"));
    assert!(has_format_spec("{a{b:c"));
    assert!(has_format_spec("{é:"));
    assert!(!has_format_spec("{é}:"));
}

#[test]
fn with_value_replaces_the_value_only() {
    let template = chunk("-vf", "{start}");
    assert_eq!(template.with_value("x{end}".to_string()), chunk("-vf", "x{end}"));
    assert_eq!(template, chunk("-vf", "{start}"));
}

#[test]
fn format_chunk_takes_doubled_braces_as_text() {
    let target = TargetTimeStamp { start: 5, end: 6 };
    assert_eq!(chunk("-vf", "{{start}}").format_chunk(&target).value, "{start}");
    assert_eq!(chunk("-vf", "{{{end}}}").format_chunk(&target).value, "{6}");
    assert_eq!(chunk("-vf", "a}b").format_chunk(&target).value, "a}b");
}

#[test]
fn format_chunk_skips_blanks_before_a_name() {
    let target = TargetTimeStamp { start: 5, end: 6 };
    assert_eq!(chunk("-vf", "{ start}-{\tend}").format_chunk(&target).value, "5-6");
}
