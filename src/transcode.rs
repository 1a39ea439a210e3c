//! The transcode flow: check the input, run the encoder, remove the input.
//! The steps that touch the file system or start a process are carried out by
//! the caller; this module decides what comes next from what they reported.
use vstd::prelude::*;

verus! {

/// The encoder program, looked up on the execution path.
pub fn encoder_program() -> (r: &'static str)
    ensures
        r@ == "ffmpeg"@,
{
    "ffmpeg"
}

/// The encoder's arguments, with the input and output paths in place.
pub open spec fn spec_encoder_args(input: Seq<char>, output: Seq<char>) -> Seq<Seq<char>> {
    seq![
        "-i"@, input,
        "-c:v"@, "libx264"@,
        "-c:a"@, "aac"@,
        "-preset"@, "fast"@,
        "-crf"@, "23"@,
        "-movflags"@, "+faststart"@,
        "-y"@, output,
    ]
}

/// The views of a list of strings.
pub open spec fn texts(v: Seq<String>) -> Seq<Seq<char>> {
    v.map_values(|s: String| s@)
}

/// H.264 video, AAC audio, fast preset, quality 23, index at the front for web
/// playback, and the output overwritten if it exists.
pub fn encoder_args(input: &str, output: &str) -> (r: Vec<String>)
    ensures
        texts(r@) == spec_encoder_args(input@, output@),
{
    let mut v: Vec<String> = Vec::new();
    v.push("-i".to_owned());
    v.push(input.to_owned());
    v.push("-c:v".to_owned());
    v.push("libx264".to_owned());
    v.push("-c:a".to_owned());
    v.push("aac".to_owned());
    v.push("-preset".to_owned());
    v.push("fast".to_owned());
    v.push("-crf".to_owned());
    v.push("23".to_owned());
    v.push("-movflags".to_owned());
    v.push("+faststart".to_owned());
    v.push("-y".to_owned());
    v.push(output.to_owned());
    assert(texts(v@) =~= spec_encoder_args(input@, output@));
    v
}

/// How a transcode failed.
#[derive(Debug, Clone, PartialEq, Eq)]
pub enum TranscodeError {
    /// The input file does not exist; holds its path.
    MissingInput(String),
    /// The encoder is not installed or not on the execution path.
    EncoderUnavailable,
    /// The encoder ran and reported failure; holds its diagnostic output.
    EncoderFailed(String),
    /// The encoder could not be started for another reason; holds that reason.
    EncoderError(String),
    /// The worker that ran the transcode was lost; holds the reason.
    WorkerFailed(String),
}

/// The message shown for each error.
pub open spec fn spec_error_message(e: TranscodeError) -> Seq<char> {
    match e {
        TranscodeError::MissingInput(p) => "输入文件不存在: "@ + p@,
        TranscodeError::EncoderUnavailable =>
            "FFmpeg未安装或不在系统PATH中。请安装FFmpeg以支持MP4格式转换。"@,
        TranscodeError::EncoderFailed(d) => "FFmpeg转换失败: "@ + d@,
        TranscodeError::EncoderError(d) => "FFmpeg执行错误: "@ + d@,
        TranscodeError::WorkerFailed(d) => "异步任务错误: "@ + d@,
    }
}

impl TranscodeError {
    /// The message reported to the frontend.
    pub fn message(&self) -> (r: String)
        ensures
            r@ == spec_error_message(*self),
    {
        match self {
            TranscodeError::MissingInput(p) => "输入文件不存在: ".to_owned().concat(p.as_str()),
            TranscodeError::EncoderUnavailable =>
                "FFmpeg未安装或不在系统PATH中。请安装FFmpeg以支持MP4格式转换。".to_owned(),
            TranscodeError::EncoderFailed(d) => "FFmpeg转换失败: ".to_owned().concat(d.as_str()),
            TranscodeError::EncoderError(d) => "FFmpeg执行错误: ".to_owned().concat(d.as_str()),
            TranscodeError::WorkerFailed(d) => "异步任务错误: ".to_owned().concat(d.as_str()),
        }
    }
}

/// What the encoder's run came to.
#[derive(Debug, Clone, PartialEq, Eq)]
pub enum EncoderOutcome {
    /// It exited with success.
    Succeeded,
    /// It exited with failure; holds its diagnostic output.
    Failed(String),
    /// It could not be started because it is not on the execution path.
    NotFound,
    /// It could not be started for another reason; holds that reason.
    LaunchError(String),
}

/// What the caller reports back after carrying out an action.
#[derive(Debug, Clone, PartialEq, Eq)]
pub enum TranscodeEvent {
    /// Whether the input file exists.
    InputChecked(bool),
    /// The encoder has run, or failed to start.
    EncoderFinished(EncoderOutcome),
    /// Whether removing the input file succeeded.
    InputRemoved(bool),
}

/// What the caller is to do next.
#[derive(Debug, PartialEq, Eq)]
pub enum TranscodeAction {
    /// Check that the file at this path exists.
    CheckInput(String),
    /// Run the encoder with these arguments and wait for it.
    RunEncoder(Vec<String>),
    /// Remove the file at this path; a failure is only logged.
    RemoveInput(String),
    /// The transcode is over: the output path, or why it failed.
    Finish(Result<String, TranscodeError>),
}

/// Where a transcode stands.
#[derive(Debug, Clone, Copy, PartialEq, Eq, Structural)]
pub enum TranscodeStage {
    CheckingInput,
    Encoding,
    RemovingInput,
    Finished,
}

/// One transcode of an input file into an output file.
#[derive(Debug)]
pub struct TranscodeJob {
    input_path: String,
    output_path: String,
    stage: TranscodeStage,
}

impl TranscodeJob {
    pub closed spec fn spec_input(&self) -> String {
        self.input_path
    }

    pub closed spec fn spec_output(&self) -> String {
        self.output_path
    }

    pub closed spec fn spec_stage(&self) -> TranscodeStage {
        self.stage
    }

    /// The stage that follows `st` on the event `ev`; `None` where `st` does
    /// not await `ev`.
    pub open spec fn next_stage(st: TranscodeStage, ev: TranscodeEvent) -> Option<TranscodeStage> {
        match (st, ev) {
            (TranscodeStage::CheckingInput, TranscodeEvent::InputChecked(true)) =>
                Some(TranscodeStage::Encoding),
            (TranscodeStage::CheckingInput, TranscodeEvent::InputChecked(false)) =>
                Some(TranscodeStage::Finished),
            (TranscodeStage::Encoding, TranscodeEvent::EncoderFinished(EncoderOutcome::Succeeded)) =>
                Some(TranscodeStage::RemovingInput),
            (TranscodeStage::Encoding, TranscodeEvent::EncoderFinished(_)) =>
                Some(TranscodeStage::Finished),
            (TranscodeStage::RemovingInput, TranscodeEvent::InputRemoved(_)) =>
                Some(TranscodeStage::Finished),
            _ => None,
        }
    }

    /// The action that goes with the step from `self` on `ev`, where there is one.
    pub open spec fn action_on(&self, ev: TranscodeEvent, a: TranscodeAction) -> bool {
        match (self.spec_stage(), ev) {
            (TranscodeStage::CheckingInput, TranscodeEvent::InputChecked(true)) =>
                (a matches TranscodeAction::RunEncoder(args)
                    && texts(args@) == spec_encoder_args(self.spec_input()@, self.spec_output()@)),
            (TranscodeStage::CheckingInput, TranscodeEvent::InputChecked(false)) =>
                a == TranscodeAction::Finish(Err(TranscodeError::MissingInput(self.spec_input()))),
            (TranscodeStage::Encoding, TranscodeEvent::EncoderFinished(o)) => match o {
                EncoderOutcome::Succeeded => a == TranscodeAction::RemoveInput(self.spec_input()),
                EncoderOutcome::Failed(d) =>
                    a == TranscodeAction::Finish(Err(TranscodeError::EncoderFailed(d))),
                EncoderOutcome::NotFound =>
                    a == TranscodeAction::Finish(Err(TranscodeError::EncoderUnavailable)),
                EncoderOutcome::LaunchError(d) =>
                    a == TranscodeAction::Finish(Err(TranscodeError::EncoderError(d))),
            },
            (TranscodeStage::RemovingInput, TranscodeEvent::InputRemoved(_)) =>
                a == TranscodeAction::Finish(Ok(self.spec_output())),
            _ => false,
        }
    }

    /// Starts a transcode: the first action is to check that the input exists.
    pub fn new(input_path: String, output_path: String) -> (r: (TranscodeJob, TranscodeAction))
        ensures
            r.0.spec_input() == input_path,
            r.0.spec_output() == output_path,
            r.0.spec_stage() == TranscodeStage::CheckingInput,
            r.1 == TranscodeAction::CheckInput(input_path),
    {
        let check = TranscodeAction::CheckInput(input_path.clone());
        (TranscodeJob { input_path, output_path, stage: TranscodeStage::CheckingInput }, check)
    }

    /// The current stage.
    pub fn stage(&self) -> (r: TranscodeStage)
        ensures
            r == self.spec_stage(),
    {
        self.stage
    }

    /// Takes the report of the last action and returns the next one. An event
    /// that the current stage does not await changes nothing and gives `None`.
    pub fn advance(&mut self, ev: TranscodeEvent) -> (r: Option<TranscodeAction>)
        ensures
            final(self).spec_input() == old(self).spec_input(),
            final(self).spec_output() == old(self).spec_output(),
            match Self::next_stage(old(self).spec_stage(), ev) {
                Some(st) => {
                    &&& final(self).spec_stage() == st
                    &&& r matches Some(a) && old(self).action_on(ev, a)
                },
                None => final(self).spec_stage() == old(self).spec_stage() && r is None,
            },
    {
        match (self.stage, ev) {
            (TranscodeStage::CheckingInput, TranscodeEvent::InputChecked(exists)) => {
                if exists {
                    self.stage = TranscodeStage::Encoding;
                    Some(TranscodeAction::RunEncoder(
                        encoder_args(self.input_path.as_str(), self.output_path.as_str()),
                    ))
                } else {
                    self.stage = TranscodeStage::Finished;
                    Some(TranscodeAction::Finish(Err(TranscodeError::MissingInput(self.input_path.clone()))))
                }
            },
            (TranscodeStage::Encoding, TranscodeEvent::EncoderFinished(o)) => {
                match o {
                    EncoderOutcome::Succeeded => {
                        self.stage = TranscodeStage::RemovingInput;
                        Some(TranscodeAction::RemoveInput(self.input_path.clone()))
                    },
                    EncoderOutcome::Failed(d) => {
                        self.stage = TranscodeStage::Finished;
                        Some(TranscodeAction::Finish(Err(TranscodeError::EncoderFailed(d))))
                    },
                    EncoderOutcome::NotFound => {
                        self.stage = TranscodeStage::Finished;
                        Some(TranscodeAction::Finish(Err(TranscodeError::EncoderUnavailable)))
                    },
                    EncoderOutcome::LaunchError(d) => {
                        self.stage = TranscodeStage::Finished;
                        Some(TranscodeAction::Finish(Err(TranscodeError::EncoderError(d))))
                    },
                }
            },
            (TranscodeStage::RemovingInput, TranscodeEvent::InputRemoved(_)) => {
                self.stage = TranscodeStage::Finished;
                Some(TranscodeAction::Finish(Ok(self.output_path.clone())))
            },
            _ => None,
        }
    }
}

/// The encoder runs only once the input has been found: the one step whose
/// action is to run it is the answer "exists" to the input check. When the
/// input is missing the transcode ends with that error and takes no further
/// event.
pub proof fn lemma_encoder_needs_input(job: TranscodeJob, ev: TranscodeEvent, a: TranscodeAction)
    ensures
        job.action_on(ev, a) && a is RunEncoder ==> job.spec_stage()
            == TranscodeStage::CheckingInput && ev == TranscodeEvent::InputChecked(true),
        job.spec_stage() == TranscodeStage::CheckingInput ==> (TranscodeJob::next_stage(
            job.spec_stage(),
            TranscodeEvent::InputChecked(false),
        ) == Some(TranscodeStage::Finished) && (job.action_on(TranscodeEvent::InputChecked(false), a)
            <==> a == TranscodeAction::Finish(
            Err(TranscodeError::MissingInput(job.spec_input())),
        ))),
        TranscodeJob::next_stage(TranscodeStage::Finished, ev) is None,
{
}

/// An encoder that is not on the execution path gives its own error, which
/// differs, in value and in message, from every other failure to start it.
pub proof fn lemma_missing_encoder_is_distinct(job: TranscodeJob, a: TranscodeAction, d: String)
    requires
        job.spec_stage() == TranscodeStage::Encoding,
        job.action_on(TranscodeEvent::EncoderFinished(EncoderOutcome::NotFound), a),
    ensures
        a == TranscodeAction::Finish(Err(TranscodeError::EncoderUnavailable)),
        a != TranscodeAction::Finish(Err(TranscodeError::EncoderError(d))),
        spec_error_message(TranscodeError::EncoderUnavailable) != spec_error_message(
            TranscodeError::EncoderError(d),
        ),
{
    let m1 = spec_error_message(TranscodeError::EncoderUnavailable);
    let m2 = spec_error_message(TranscodeError::EncoderError(d));
    reveal_strlit("FFmpeg未安装或不在系统PATH中。请安装FFmpeg以支持MP4格式转换。");
    reveal_strlit("FFmpeg执行错误: ");
    assert(m2[6] == "FFmpeg执行错误: "@[6]);
    assert(m1[6] != m2[6]);
}

/// After the encoder succeeds the input is removed, and the transcode then
/// reports the output path whether or not the removal succeeded.
pub proof fn lemma_success_reports_output(job: TranscodeJob, removed: bool)
    ensures
        job.spec_stage() == TranscodeStage::Encoding ==> (TranscodeJob::next_stage(
            job.spec_stage(),
            TranscodeEvent::EncoderFinished(EncoderOutcome::Succeeded),
        ) == Some(TranscodeStage::RemovingInput) && job.action_on(
            TranscodeEvent::EncoderFinished(EncoderOutcome::Succeeded),
            TranscodeAction::RemoveInput(job.spec_input()),
        )),
        job.spec_stage() == TranscodeStage::RemovingInput ==> (TranscodeJob::next_stage(
            job.spec_stage(),
            TranscodeEvent::InputRemoved(removed),
        ) == Some(TranscodeStage::Finished) && job.action_on(
            TranscodeEvent::InputRemoved(removed),
            TranscodeAction::Finish(Ok(job.spec_output())),
        )),
{
}

} // verus!
