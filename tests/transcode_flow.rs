use screen_recorder::transcode::{
    encoder_args, encoder_program, EncoderOutcome, TranscodeAction, TranscodeError, TranscodeEvent,
    TranscodeJob, TranscodeStage,
};

fn job() -> TranscodeJob {
    let (j, first) = TranscodeJob::new("/tmp/in.webm".to_string(), "/tmp/out.mp4".to_string());
    assert_eq!(first, TranscodeAction::CheckInput("/tmp/in.webm".to_string()));
    j
}

#[test]
fn missing_input_never_runs_encoder() {
    let mut j = job();
    let a = j.advance(TranscodeEvent::InputChecked(false));
    assert_eq!(
        a,
        Some(TranscodeAction::Finish(Err(TranscodeError::MissingInput("/tmp/in.webm".to_string()))))
    );
    assert_eq!(j.stage(), TranscodeStage::Finished);
    assert_eq!(j.advance(TranscodeEvent::InputChecked(true)), None);
    assert_eq!(j.advance(TranscodeEvent::EncoderFinished(EncoderOutcome::Succeeded)), None);
    assert_eq!(
        TranscodeError::MissingInput("/tmp/in.webm".to_string()).message(),
        "输入文件不存在: /tmp/in.webm"
    );
}

#[test]
fn encoder_absent_is_tool_unavailable() {
    let mut j = job();
    assert!(matches!(j.advance(TranscodeEvent::InputChecked(true)), Some(TranscodeAction::RunEncoder(_))));
    let a = j.advance(TranscodeEvent::EncoderFinished(EncoderOutcome::NotFound));
    assert_eq!(a, Some(TranscodeAction::Finish(Err(TranscodeError::EncoderUnavailable))));
    assert_ne!(
        TranscodeError::EncoderUnavailable.message(),
        TranscodeError::EncoderError("permission denied".to_string()).message()
    );
    assert_eq!(
        TranscodeError::EncoderUnavailable.message(),
        "FFmpeg未安装或不在系统PATH中。请安装FFmpeg以支持MP4格式转换。"
    );
}

#[test]
fn encoder_launch_error_and_failure() {
    let mut j = job();
    j.advance(TranscodeEvent::InputChecked(true));
    let a = j.advance(TranscodeEvent::EncoderFinished(EncoderOutcome::LaunchError("denied".to_string())));
    assert_eq!(a, Some(TranscodeAction::Finish(Err(TranscodeError::EncoderError("denied".to_string())))));
    assert_eq!(TranscodeError::EncoderError("denied".to_string()).message(), "FFmpeg执行错误: denied");

    let mut j = job();
    j.advance(TranscodeEvent::InputChecked(true));
    let a = j.advance(TranscodeEvent::EncoderFinished(EncoderOutcome::Failed("bad codec".to_string())));
    assert_eq!(a, Some(TranscodeAction::Finish(Err(TranscodeError::EncoderFailed("bad codec".to_string())))));
    assert_eq!(TranscodeError::EncoderFailed("bad codec".to_string()).message(), "FFmpeg转换失败: bad codec");
    assert_eq!(TranscodeError::WorkerFailed("lost".to_string()).message(), "异步任务错误: lost");
}

#[test]
fn success_removes_input_and_reports_output() {
    for removed in [true, false] {
        let mut j = job();
        j.advance(TranscodeEvent::InputChecked(true));
        let a = j.advance(TranscodeEvent::EncoderFinished(EncoderOutcome::Succeeded));
        assert_eq!(a, Some(TranscodeAction::RemoveInput("/tmp/in.webm".to_string())));
        let a = j.advance(TranscodeEvent::InputRemoved(removed));
        assert_eq!(a, Some(TranscodeAction::Finish(Ok("/tmp/out.mp4".to_string()))));
        assert_eq!(j.stage(), TranscodeStage::Finished);
    }
}

#[test]
fn unexpected_event_is_ignored() {
    let mut j = job();
    assert_eq!(j.advance(TranscodeEvent::InputRemoved(true)), None);
    assert_eq!(j.stage(), TranscodeStage::CheckingInput);
}

#[test]
fn encoder_command_line() {
    assert_eq!(encoder_program(), "ffmpeg");
    let args = encoder_args("a.webm", "b.mp4");
    let expected = [
        "-i", "a.webm", "-c:v", "libx264", "-c:a", "aac", "-preset", "fast", "-crf", "23",
        "-movflags", "+faststart", "-y", "b.mp4",
    ];
    assert_eq!(args, expected.iter().map(|s| s.to_string()).collect::<Vec<String>>());
}
