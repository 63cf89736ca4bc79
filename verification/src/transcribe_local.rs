//! The computing parts of a local transcription with whisper.cpp: the model's
//! file name and download address, the name and place of the whisper.cpp
//! binary, its command line, and what its output means.
use vstd::prelude::*;
use vstd::string::*;
use vstd::utf8::{decode_utf8, valid_utf8};

use crate::text::{
    trim_end, trim_start,
    first_line, first_line_of, int_text, joined, push_int, trim_text, trimmed,
};

verus! {

/// A `Result` of strings, seen through the strings' characters.
pub open spec fn text_result(r: Result<String, String>) -> Result<Seq<char>, Seq<char>> {
    match r {
        Ok(s) => Ok(s@),
        Err(e) => Err(e@),
    }
}

/// The file name under which the whisper model of the given size is stored.
pub open spec fn model_file_name(model_size: Seq<char>) -> Seq<char> {
    "ggml-"@ + model_size + ".bin"@
}

/// The address from which the whisper model of the given size is downloaded.
pub open spec fn model_address(model_size: Seq<char>) -> Seq<char> {
    "https://huggingface.co/ggerganov/whisper.cpp/resolve/main/ggml-"@ + model_size + ".bin"@
}

/// The directory on the model host that holds every model file.
pub open spec fn model_host_dir() -> Seq<char> {
    "https://huggingface.co/ggerganov/whisper.cpp/resolve/main/"@
}

/// File name of the whisper model of the given size, e.g. `ggml-small.bin`.
pub fn model_filename(model_size: &str) -> (r: String)
    ensures
        r@ == model_file_name(model_size@),
{
    let mut name = String::from_str("ggml-");
    name.append(model_size);
    name.append(".bin");
    name
}

/// Address from which the whisper model of the given size is downloaded.
pub fn model_download_url(model_size: &str) -> (r: String)
    ensures
        r@ == model_address(model_size@),
{
    let mut url = String::from_str(
        "https://huggingface.co/ggerganov/whisper.cpp/resolve/main/ggml-",
    );
    url.append(model_size);
    url.append(".bin");
    url
}

/// The download address of a model is the host directory followed by the
/// model's file name: what is downloaded is stored under the name that a
/// transcription later looks for.
pub proof fn lemma_download_url_names_model_file(model_size: Seq<char>)
    ensures
        model_address(model_size) == model_host_dir() + model_file_name(model_size),
{
    reveal_strlit("https://huggingface.co/ggerganov/whisper.cpp/resolve/main/ggml-");
    reveal_strlit("https://huggingface.co/ggerganov/whisper.cpp/resolve/main/");
    reveal_strlit("ggml-");
    assert(model_address(model_size) =~= model_host_dir() + model_file_name(model_size));
}

/// Different model sizes are stored under different file names.
pub proof fn lemma_model_filenames_distinct(a: Seq<char>, b: Seq<char>)
    requires
        a != b,
    ensures
        model_file_name(a) != model_file_name(b),
{
    reveal_strlit("ggml-");
    reveal_strlit(".bin");
    let p = "ggml-"@;
    let q = ".bin"@;
    if model_file_name(a) == model_file_name(b) {
        assert(model_file_name(a).len() == p.len() + a.len() + q.len());
        assert(model_file_name(b).len() == p.len() + b.len() + q.len());
        assert(a.len() == b.len());
        assert forall|i: int| 0 <= i < a.len() implies a[i] == b[i] by {
            assert(model_file_name(a)[p.len() + i] == a[i]);
            assert(model_file_name(b)[p.len() + i] == b[i]);
        }
        assert(a =~= b);
    }
}

/// The platforms for which a whisper.cpp binary is shipped.
#[derive(PartialEq, Eq, Structural, Clone, Copy, Debug)]
pub enum TargetPlatform {
    Windows,
    MacAppleSilicon,
    MacIntel,
    Linux,
}

/// The target triple in the name of the binary for a platform.
pub open spec fn target_triple(p: TargetPlatform) -> Seq<char> {
    match p {
        TargetPlatform::Windows => "x86_64-pc-windows-msvc"@,
        TargetPlatform::MacAppleSilicon => "aarch64-apple-darwin"@,
        TargetPlatform::MacIntel => "x86_64-apple-darwin"@,
        TargetPlatform::Linux => "x86_64-unknown-linux-gnu"@,
    }
}

/// The executable file suffix of a platform.
pub open spec fn executable_suffix(p: TargetPlatform) -> Seq<char> {
    match p {
        TargetPlatform::Windows => ".exe"@,
        _ => ""@,
    }
}

/// The file name of the whisper.cpp binary for a platform.
pub open spec fn binary_file_name(p: TargetPlatform) -> Seq<char> {
    "whisper-cpp-"@ + target_triple(p) + executable_suffix(p)
}

/// File name of the whisper.cpp binary for a platform, such as
/// `whisper-cpp-aarch64-apple-darwin`.
pub fn whisper_binary_name(p: TargetPlatform) -> (r: String)
    ensures
        r@ == binary_file_name(p),
{
    let triple = match p {
        TargetPlatform::Windows => "x86_64-pc-windows-msvc",
        TargetPlatform::MacAppleSilicon => "aarch64-apple-darwin",
        TargetPlatform::MacIntel => "x86_64-apple-darwin",
        TargetPlatform::Linux => "x86_64-unknown-linux-gnu",
    };
    let suffix = match p {
        TargetPlatform::Windows => ".exe",
        _ => "",
    };
    let mut name = String::from_str("whisper-cpp-");
    name.append(triple);
    name.append(suffix);
    name
}

/// Where the whisper.cpp binary was found.
#[derive(PartialEq, Eq, Structural, Clone, Copy, Debug)]
pub enum BinaryDir {
    /// The `binaries` directory of the package directory (development runs).
    Development,
    /// The application's bundled resource directory (installed runs).
    Resources,
}

/// The message given when no whisper.cpp binary was found.
pub open spec fn binary_missing_message(name: Seq<char>) -> Seq<char> {
    "whisper-cpp binary not found (looked for "@ + name + ")"@
}

/// Picks the whisper.cpp binary: the development copy when it exists,
/// otherwise the bundled copy when the resource directory is known and holds
/// it. `in_resources` is `None` when the resource directory is unknown.
pub fn choose_whisper_binary(name: &str, in_development: bool, in_resources: Option<bool>) -> (r:
    Result<BinaryDir, String>)
    ensures
        in_development ==> r == Ok::<BinaryDir, String>(BinaryDir::Development),
        !in_development && in_resources == Some(true) ==> r == Ok::<BinaryDir, String>(
            BinaryDir::Resources,
        ),
        !in_development && in_resources != Some(true) ==> r is Err && r->Err_0@
            == binary_missing_message(name@),
{
    if in_development {
        return Ok(BinaryDir::Development);
    }
    match in_resources {
        Some(true) => Ok(BinaryDir::Resources),
        _ => {
            let mut msg = String::from_str("whisper-cpp binary not found (looked for ");
            msg.append(name);
            msg.append(")");
            Err(msg)
        },
    }
}

/// Fails with the message that asks for a model download when the model
/// file is absent.
pub fn check_model_present(model_exists: bool) -> (r: Result<(), String>)
    ensures
        model_exists <==> r is Ok,
        !model_exists ==> r->Err_0@ == "Whisper model not found. Please download a model first."@,
{
    if model_exists {
        Ok(())
    } else {
        Err(String::from_str("Whisper model not found. Please download a model first."))
    }
}

/// The command-line arguments given to whisper.cpp for a model and a
/// recording.
pub open spec fn whisper_command_line(model: Seq<char>, audio: Seq<char>) -> Seq<Seq<char>> {
    seq![
        "-m"@,
        model,
        "-f"@,
        audio,
        "--no-timestamps"@,
        "-l"@,
        "en"@,
        "--no-gpu"@,
        "--no-flash-attn"@,
    ]
}

/// The command-line arguments for transcribing `audio` with `model`, in
/// English, without timestamps, GPU or flash attention.
pub fn whisper_args(model: &str, audio: &str) -> (r: Vec<String>)
    ensures
        r@.map_values(|s: String| s@) == whisper_command_line(model@, audio@),
{
    let mut args: Vec<String> = Vec::new();
    args.push(String::from_str("-m"));
    args.push(String::from_str(model));
    args.push(String::from_str("-f"));
    args.push(String::from_str(audio));
    args.push(String::from_str("--no-timestamps"));
    args.push(String::from_str("-l"));
    args.push(String::from_str("en"));
    args.push(String::from_str("--no-gpu"));
    args.push(String::from_str("--no-flash-attn"));
    assert(args@.map_values(|s: String| s@) =~= whisper_command_line(model@, audio@));
    args
}

/// The message for a whisper.cpp process that could not be started.
pub fn launch_failure_message(detail: &str) -> (r: String)
    ensures
        r@ == "Failed to launch whisper.cpp: "@ + detail@,
{
    joined("Failed to launch whisper.cpp: ", detail)
}

/// The message for a background task that ended abnormally.
pub fn task_failure_message(detail: &str) -> (r: String)
    ensures
        r@ == "Task join error: "@ + detail@,
{
    joined("Task join error: ", detail)
}

/// How an exit code is written in messages (`Debug` of `Option<i32>`).
pub open spec fn exit_code_text(code: Option<i32>) -> Seq<char> {
    match code {
        Some(c) => "Some("@ + int_text(c as int) + ")"@,
        None => "None"@,
    }
}

/// What a whisper.cpp run yields, given its exit code and its decoded
/// standard output and error: the trimmed output when it is not empty;
/// otherwise a failure naming the exit code and the first line of the error
/// output when the exit code is not 0; otherwise the failure that nothing was
/// transcribed.
pub open spec fn whisper_outcome_spec(code: Option<i32>, out: Seq<char>, err: Seq<char>) -> Result<
    Seq<char>,
    Seq<char>,
> {
    let text = trimmed(out);
    if text.len() > 0 {
        Ok(text)
    } else if code != Some(0i32) {
        Err(
            "whisper.cpp failed (exit "@ + exit_code_text(code) + "): "@ + match first_line(err) {
                Some(line) => line,
                None => "no output"@,
            },
        )
    } else {
        Err("whisper.cpp produced no transcription"@)
    }
}

/// Interprets a finished whisper.cpp run from its exit code and its decoded
/// standard output and standard error.
pub fn whisper_outcome(exit_code: Option<i32>, stdout_text: &str, stderr_text: &str) -> (r: Result<
    String,
    String,
>)
    ensures
        text_result(r) == whisper_outcome_spec(exit_code, stdout_text@, stderr_text@),
{
    let text = trim_text(stdout_text);
    if text.unicode_len() > 0 {
        return Ok(text);
    }
    let failed = match exit_code {
        Some(c) => c != 0,
        None => true,
    };
    if failed {
        let mut msg = String::from_str("whisper.cpp failed (exit ");
        match exit_code {
            Some(c) => {
                msg.append("Some(");
                push_int(&mut msg, c);
                msg.append(")");
            },
            None => {
                msg.append("None");
            },
        }
        msg.append("): ");
        match first_line_of(stderr_text) {
            Some(line) => {
                msg.append(line.as_str());
            },
            None => {
                msg.append("no output");
            },
        }
        proof {
            let code_text = exit_code_text(exit_code);
            let tail = match first_line(stderr_text@) {
                Some(line) => line,
                None => "no output"@,
            };
            assert(msg@ =~= "whisper.cpp failed (exit "@ + code_text + "): "@ + tail);
        }
        Err(msg)
    } else {
        Err(String::from_str("whisper.cpp produced no transcription"))
    }
}

/// What `String::from_utf8_lossy` makes of the given bytes.
pub uninterp spec fn utf8_lossy(bytes: Seq<u8>) -> Seq<char>;

/// Calls `String::from_utf8_lossy` and takes the text as an owned `String`.
/// Its result is named `utf8_lossy`; of it the contract states only what the
/// documentation promises for valid UTF-8 input: the decoded text, unchanged.
/// How invalid sequences are replaced is left unsaid.
#[verifier::external_body]
fn decode_lossy(bytes: &[u8]) -> (r: String)
    ensures
        r@ == utf8_lossy(bytes@),
        valid_utf8(bytes@) ==> r@ == decode_utf8(bytes@),
{
    String::from_utf8_lossy(bytes).into_owned()
}

/// Interprets a finished whisper.cpp run from its exit code and the raw bytes
/// of its standard output and standard error.
pub fn whisper_result(exit_code: Option<i32>, stdout: &[u8], stderr: &[u8]) -> (r: Result<
    String,
    String,
>)
    ensures
        text_result(r) == whisper_outcome_spec(
            exit_code,
            utf8_lossy(stdout@),
            utf8_lossy(stderr@),
        ),
{
    let out = decode_lossy(stdout);
    let err = decode_lossy(stderr);
    whisper_outcome(exit_code, out.as_str(), err.as_str())
}


/// When whisper.cpp printed any text, the transcript is the whole of its
/// standard output with leading and trailing white space removed, every line
/// included, whatever the exit code and the error output.
pub proof fn lemma_transcript_is_whole_trimmed_output(
    code: Option<i32>,
    out: Seq<char>,
    err: Seq<char>,
)
    requires
        trim_end(trim_start(out)).len() > 0,
    ensures
        whisper_outcome_spec(code, out, err) == Ok::<Seq<char>, Seq<char>>(
            trim_end(trim_start(out)),
        ),
{
}

/// A run that printed nothing but white space is a failure; with exit code 0
/// it is the failure that nothing was transcribed, otherwise a failure that
/// names the run.
pub proof fn lemma_blank_output_fails(code: Option<i32>, out: Seq<char>, err: Seq<char>)
    requires
        trim_end(trim_start(out)).len() == 0,
    ensures
        whisper_outcome_spec(code, out, err) is Err,
        code == Some(0i32) ==> whisper_outcome_spec(code, out, err) == Err::<Seq<char>, Seq<char>>(
            "whisper.cpp produced no transcription"@,
        ),
        code != Some(0i32) ==> whisper_outcome_spec(code, out, err)->Err_0.take(
            "whisper.cpp failed (exit "@.len() as int,
        ) == "whisper.cpp failed (exit "@,
{
    if code != Some(0i32) {
        let tail = exit_code_text(code) + "): "@ + match first_line(err) {
            Some(line) => line,
            None => "no output"@,
        };
        assert(("whisper.cpp failed (exit "@ + tail).take("whisper.cpp failed (exit "@.len() as int)
            =~= "whisper.cpp failed (exit "@);
        assert(whisper_outcome_spec(code, out, err)->Err_0 =~= "whisper.cpp failed (exit "@ + tail);
    }
}


/// A failed run with output but no text is reported with the first line of
/// its error output (or "no output" when there is none) at the end of the
/// message.
pub proof fn lemma_failure_ends_with_first_error_line(code: Option<i32>, out: Seq<char>, err: Seq<char>)
    requires
        trim_end(trim_start(out)).len() == 0,
        code != Some(0i32),
    ensures
        ({
            let msg = whisper_outcome_spec(code, out, err)->Err_0;
            let line = match first_line(err) {
                Some(l) => l,
                None => "no output"@,
            };
            &&& whisper_outcome_spec(code, out, err) is Err
            &&& line.len() <= msg.len()
            &&& msg.skip(msg.len() - line.len()) == line
        }),
{
    let line = match first_line(err) {
        Some(l) => l,
        None => "no output"@,
    };
    let head = "whisper.cpp failed (exit "@ + exit_code_text(code) + "): "@;
    let msg = whisper_outcome_spec(code, out, err)->Err_0;
    assert(msg =~= head + line);
    assert((head + line).skip(head.len() as int) =~= line);
}

} // verus!
