use gfyupload::{cut_file, encoder_args, CutPlan, ENCODER_PROGRAM};

fn s(v: &str) -> String {
    v.to_string()
}

#[test]
fn no_bounds_means_plain_copy() {
    let plan = cut_file("clip.mp4", "out.mp4", None, None);
    assert!(matches!(plan, CutPlan::Copy));
}

#[test]
fn both_bounds_give_full_argument_list() {
    let start = s("00:00:05");
    let end = s("00:00:10");
    let plan = cut_file("clip.mp4", "out.mp4", Some(&start), Some(&end));
    match plan {
        CutPlan::Encode { args } => assert_eq!(
            args,
            vec!["-y", "-i", "clip.mp4", "-ss", "00:00:05", "-to", "00:00:10", "-c", "copy", "out.mp4"]
        ),
        CutPlan::Copy => panic!("expected an encoder run"),
    }
}

#[test]
fn start_only_omits_end_flag() {
    let start = s("1.5");
    let args = encoder_args("in.mkv", "o.mkv", Some(&start), None);
    assert_eq!(args, vec!["-y", "-i", "in.mkv", "-ss", "1.5", "-c", "copy", "o.mkv"]);
    assert!(!args.iter().any(|a| a == "-to"));
}

#[test]
fn end_only_omits_start_flag() {
    let end = s("00:01:00");
    let plan = cut_file("a.mp4", "b.mp4", None, Some(&end));
    match plan {
        CutPlan::Encode { args } => {
            assert_eq!(args, vec!["-y", "-i", "a.mp4", "-to", "00:01:00", "-c", "copy", "b.mp4"]);
            assert!(!args.iter().any(|a| a == "-ss"));
        },
        CutPlan::Copy => panic!("expected an encoder run"),
    }
}

#[test]
fn encoder_is_ffmpeg() {
    assert_eq!(ENCODER_PROGRAM, "ffmpeg");
}
