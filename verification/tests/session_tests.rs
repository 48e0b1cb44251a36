use mp4gif::{Action, ConvertError, Event, Phase, Session, Tool};

fn started_session(temp_dir: &str) -> Session {
    let mut s = Session::new(String::from("out.gif"), String::from(temp_dir), 10);
    let a = s.step(Event::ToolExited { success: true });
    match a {
        Action::ProbeFrame { path } => {
            assert_eq!(path, format!("{}/frame1.png", temp_dir));
        },
        _ => panic!("expected a probe after successful extraction"),
    }
    s
}

#[test]
fn new_session_starts_extracting() {
    let s = Session::new(String::from("o.gif"), String::from("/tmp/t"), 1);
    assert_eq!(s.phase, Phase::Extracting);
    assert_eq!(s.frames.len(), 0);
    assert_eq!(s.next_index, 1);
    assert_eq!(s.fps, 1);
}

#[test]
fn extraction_failure_aborts_before_encoding() {
    let mut s = Session::new(String::from("o.gif"), String::from("/tmp/t"), 10);
    let a = s.step(Event::ToolExited { success: false });
    match a {
        Action::Fail { error } => {
            assert_eq!(error, ConvertError::ExternalToolFailure { tool: Tool::Extraction });
        },
        _ => panic!("expected the run to fail"),
    }
    assert_eq!(s.phase, Phase::Failed);
}

#[test]
fn extraction_spawn_failure_reports_tool_not_found() {
    let mut s = Session::new(String::from("o.gif"), String::from("/tmp/t"), 10);
    let a = s.step(Event::SpawnFailed);
    match a {
        Action::Fail { error } => {
            assert_eq!(error, ConvertError::ExternalToolNotFound { tool: Tool::Extraction });
        },
        _ => panic!("expected the run to fail"),
    }
    assert_eq!(s.phase, Phase::Failed);
}

#[test]
fn zero_frames_is_a_distinct_failure() {
    let mut s = started_session("/tmp/t");
    let a = s.step(Event::ProbeResult { exists: false });
    match a {
        Action::Fail { error } => {
            assert_eq!(error, ConvertError::NoFramesProduced);
        },
        _ => panic!("expected the run to fail"),
    }
    assert_eq!(s.phase, Phase::Failed);
}

#[test]
fn probe_error_is_an_io_failure() {
    let mut s = started_session("/tmp/t");
    let a = s.step(Event::ProbeFailed);
    match a {
        Action::Fail { error } => {
            assert_eq!(error, ConvertError::IoFailure);
        },
        _ => panic!("expected the run to fail"),
    }
    assert_eq!(s.phase, Phase::Failed);
}

#[test]
fn gap_truncates_enumeration() {
    // Frames exist at indices 1, 2, 3 and 5; index 4 is missing. The
    // enumeration stops at the gap and collects exactly frames 1..3.
    let present = [1u32, 2, 3, 5];
    let mut s = started_session("/d");
    let mut probed: u32 = 1;
    loop {
        let exists = present.contains(&probed);
        let a = s.step(Event::ProbeResult { exists });
        match a {
            Action::ProbeFrame { path } => {
                probed += 1;
                assert_eq!(path, format!("/d/frame{}.png", probed));
            },
            Action::RunEncoding { .. } => break,
            _ => panic!("expected probing to end in encoding"),
        }
    }
    assert_eq!(probed, 4);
    assert_eq!(
        s.frames,
        vec![
            String::from("/d/frame1.png"),
            String::from("/d/frame2.png"),
            String::from("/d/frame3.png"),
        ]
    );
}

#[test]
fn encoding_failure_reports_no_success() {
    let mut s = started_session("/d");
    let a = s.step(Event::ProbeResult { exists: true });
    assert!(matches!(a, Action::ProbeFrame { .. }));
    let a = s.step(Event::ProbeResult { exists: false });
    assert!(matches!(a, Action::RunEncoding { .. }));
    let a = s.step(Event::ToolExited { success: false });
    match a {
        Action::Fail { error } => {
            assert_eq!(error, ConvertError::ExternalToolFailure { tool: Tool::Encoding });
        },
        _ => panic!("expected the run to fail, not to report success"),
    }
    assert_eq!(s.phase, Phase::Failed);
}

#[test]
fn encoding_spawn_failure_reports_tool_not_found() {
    let mut s = started_session("/d");
    let a = s.step(Event::ProbeResult { exists: true });
    assert!(matches!(a, Action::ProbeFrame { .. }));
    let a = s.step(Event::ProbeResult { exists: false });
    assert!(matches!(a, Action::RunEncoding { .. }));
    let a = s.step(Event::SpawnFailed);
    match a {
        Action::Fail { error } => {
            assert_eq!(error, ConvertError::ExternalToolNotFound { tool: Tool::Encoding });
        },
        _ => panic!("expected the run to fail"),
    }
}

#[test]
fn two_second_video_at_ten_fps_yields_twenty_frames() {
    // A 2-second input sampled at 10 frames per second: the extractor
    // writes exactly 20 frames, and the final report states 20.
    let mut s = started_session("/work");
    let mut found: u32 = 0;
    let args = loop {
        let exists = found < 20;
        let a = s.step(Event::ProbeResult { exists });
        match a {
            Action::ProbeFrame { path } => {
                found += 1;
                assert_eq!(path, format!("/work/frame{}.png", found + 1));
            },
            Action::RunEncoding { args } => break args,
            _ => panic!("expected probing to end in encoding"),
        }
    };
    assert_eq!(found, 20);
    assert_eq!(args.len(), 8 + 20);
    assert_eq!(
        &args[0..8],
        &[
            String::from("--quality"),
            String::from("100"),
            String::from("--fps"),
            String::from("10"),
            String::from("--width"),
            String::from("1280"),
            String::from("-o"),
            String::from("out.gif"),
        ]
    );
    for i in 0..20u32 {
        assert_eq!(args[8 + i as usize], format!("/work/frame{}.png", i + 1));
    }
    let a = s.step(Event::ToolExited { success: true });
    match a {
        Action::Report { frame_count } => assert_eq!(frame_count, 20),
        _ => panic!("expected a success report"),
    }
    assert_eq!(s.phase, Phase::Done);
}

#[test]
fn frames_are_collected_in_ascending_order_without_gaps() {
    let mut s = started_session("/a");
    for _ in 0..5 {
        let a = s.step(Event::ProbeResult { exists: true });
        assert!(matches!(a, Action::ProbeFrame { .. }));
    }
    let a = s.step(Event::ProbeResult { exists: false });
    assert!(matches!(a, Action::RunEncoding { .. }));
    assert_eq!(s.frames.len(), 5);
    for (i, f) in s.frames.iter().enumerate() {
        assert_eq!(*f, format!("/a/frame{}.png", i + 1));
    }
}
