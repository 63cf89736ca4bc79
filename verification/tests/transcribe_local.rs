use typr::transcribe_local::{
    check_model_present, choose_whisper_binary, launch_failure_message, model_download_url,
    model_filename, task_failure_message, whisper_args, whisper_binary_name, whisper_outcome,
    whisper_result, BinaryDir, TargetPlatform,
};

#[test]
fn test_model_filename() {
    assert_eq!(model_filename("small"), "ggml-small.bin");
    assert_eq!(model_filename("medium"), "ggml-medium.bin");
}

#[test]
fn test_model_download_url() {
    assert_eq!(
        model_download_url("small"),
        "https://huggingface.co/ggerganov/whisper.cpp/resolve/main/ggml-small.bin"
    );
}

#[test]
fn download_url_ends_with_model_file() {
    for size in ["tiny", "base.en", "large-v3"] {
        let url = model_download_url(size);
        let file = model_filename(size);
        assert_eq!(
            url,
            format!("https://huggingface.co/ggerganov/whisper.cpp/resolve/main/{}", file)
        );
    }
}

#[test]
fn binary_names_per_platform() {
    assert_eq!(
        whisper_binary_name(TargetPlatform::Windows),
        "whisper-cpp-x86_64-pc-windows-msvc.exe"
    );
    assert_eq!(
        whisper_binary_name(TargetPlatform::MacAppleSilicon),
        "whisper-cpp-aarch64-apple-darwin"
    );
    assert_eq!(whisper_binary_name(TargetPlatform::MacIntel), "whisper-cpp-x86_64-apple-darwin");
    assert_eq!(
        whisper_binary_name(TargetPlatform::Linux),
        "whisper-cpp-x86_64-unknown-linux-gnu"
    );
}

#[test]
fn binary_search_order() {
    assert_eq!(choose_whisper_binary("w", true, Some(true)), Ok(BinaryDir::Development));
    assert_eq!(choose_whisper_binary("w", true, None), Ok(BinaryDir::Development));
    assert_eq!(choose_whisper_binary("w", false, Some(true)), Ok(BinaryDir::Resources));
    assert_eq!(
        choose_whisper_binary("whisper-cpp-x", false, Some(false)),
        Err("whisper-cpp binary not found (looked for whisper-cpp-x)".to_string())
    );
    assert_eq!(
        choose_whisper_binary("whisper-cpp-x", false, None),
        Err("whisper-cpp binary not found (looked for whisper-cpp-x)".to_string())
    );
}

#[test]
fn missing_model_message() {
    assert_eq!(check_model_present(true), Ok(()));
    assert_eq!(
        check_model_present(false),
        Err("Whisper model not found. Please download a model first.".to_string())
    );
}

#[test]
fn command_line_arguments() {
    let args = whisper_args("/m/ggml-small.bin", "/tmp/a.wav");
    assert_eq!(
        args,
        vec![
            "-m",
            "/m/ggml-small.bin",
            "-f",
            "/tmp/a.wav",
            "--no-timestamps",
            "-l",
            "en",
            "--no-gpu",
            "--no-flash-attn"
        ]
    );
}

#[test]
fn failure_messages() {
    assert_eq!(launch_failure_message("not found"), "Failed to launch whisper.cpp: not found");
    assert_eq!(task_failure_message("panicked"), "Task join error: panicked");
}

#[test]
fn output_is_trimmed() {
    assert_eq!(whisper_outcome(Some(0), "  Hello there.\n", ""), Ok("Hello there.".to_string()));
    // Text wins even when the exit code is not zero.
    assert_eq!(whisper_outcome(Some(3), "\u{3000}ok\u{a0}", "boom"), Ok("ok".to_string()));
}

#[test]
fn failure_names_exit_code_and_first_error_line() {
    assert_eq!(
        whisper_outcome(Some(1), "   \n", "error: bad model\r\nmore\n"),
        Err("whisper.cpp failed (exit Some(1)): error: bad model".to_string())
    );
    assert_eq!(
        whisper_outcome(Some(-11), "", ""),
        Err("whisper.cpp failed (exit Some(-11)): no output".to_string())
    );
    assert_eq!(
        whisper_outcome(None, "", "killed"),
        Err("whisper.cpp failed (exit None): killed".to_string())
    );
    assert_eq!(
        whisper_outcome(Some(i32::MIN), "", "\nsecond"),
        Err("whisper.cpp failed (exit Some(-2147483648)): ".to_string())
    );
}

#[test]
fn success_without_text() {
    assert_eq!(
        whisper_outcome(Some(0), " \t ", "log line"),
        Err("whisper.cpp produced no transcription".to_string())
    );
}

#[test]
fn raw_output_is_decoded() {
    assert_eq!(
        whisper_result(Some(0), b"  caf\xc3\xa9 \n", b""),
        Ok("caf\u{e9}".to_string())
    );
    assert_eq!(
        whisper_result(Some(2), b"", b"bad \xff byte\nrest"),
        Err("whisper.cpp failed (exit Some(2)): bad \u{fffd} byte".to_string())
    );
}
