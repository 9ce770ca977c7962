use lightwhisper::config::AppConfig;
use lightwhisper::models::{
    all_present, files_exist, get_model_path_for_config, model_exists_for_engine, parakeet_file_path,
    parakeet_files, required_model_files,
    parakeet_file_url, parakeet_local_name, parakeet_model_dir, parakeet_model_exists,
    parakeet_remote_name, whisper_model_exists, whisper_model_filename,
    whisper_model_path, whisper_model_url, PARAKEET_FILE_COUNT,
};
use lightwhisper::paths::{
    child, config_dir, config_dir_under, config_path, models_dir, parakeet_models_dir, temp_dir,
};

#[test]
fn application_directory_lies_in_the_home_directory() {
    assert_eq!(config_dir_under("/home/ada"), "/home/ada/lightwhisper");
    assert_eq!(child("/a", "b"), "/a/b");
    if let Some(dir) = config_dir() {
        assert!(dir.ends_with("/lightwhisper"));
        assert!(dir.len() > "/lightwhisper".len());
    }
}

#[test]
fn files_lie_below_the_application_directory() {
    let root = "/home/ada/lightwhisper";
    assert_eq!(config_path(root), "/home/ada/lightwhisper/config.json");
    assert_eq!(models_dir(root), "/home/ada/lightwhisper/models");
    assert_eq!(parakeet_models_dir(root), "/home/ada/lightwhisper/models/parakeet-tdt");
    assert_eq!(temp_dir(root), "/home/ada/lightwhisper/temp");
    assert_eq!(parakeet_model_dir(root), "/home/ada/lightwhisper/models/parakeet-tdt");
}

#[test]
fn whisper_model_file_names() {
    assert_eq!(whisper_model_filename("tiny"), "ggml-tiny.bin");
    assert_eq!(whisper_model_filename("base"), "ggml-base.bin");
    assert_eq!(whisper_model_filename("small"), "ggml-small.bin");
    assert_eq!(whisper_model_filename("medium"), "ggml-medium.bin");
    assert_eq!(whisper_model_filename("large"), "ggml-base.bin");
    assert_eq!(whisper_model_filename(""), "ggml-base.bin");
    assert_eq!(whisper_model_filename("Tiny"), "ggml-base.bin");
    assert_eq!(whisper_model_path("/r", "small"), "/r/models/ggml-small.bin");
}

#[test]
fn parakeet_model_files() {
    assert_eq!(PARAKEET_FILE_COUNT, 3);
    assert_eq!(parakeet_remote_name(0), "encoder-model.int8.onnx");
    assert_eq!(parakeet_remote_name(1), "decoder_joint-model.int8.onnx");
    assert_eq!(parakeet_remote_name(2), "vocab.txt");
    assert_eq!(parakeet_local_name(0), "encoder-model.onnx");
    assert_eq!(parakeet_local_name(1), "decoder_joint-model.onnx");
    assert_eq!(parakeet_local_name(2), "vocab.txt");
    assert_eq!(
        parakeet_file_path("/r", 1),
        "/r/models/parakeet-tdt/decoder_joint-model.onnx"
    );
}

#[test]
fn download_addresses() {
    assert_eq!(
        whisper_model_url("tiny"),
        "https://huggingface.co/ggerganov/whisper.cpp/resolve/main/ggml-tiny.bin"
    );
    assert_eq!(
        whisper_model_url("unknown"),
        "https://huggingface.co/ggerganov/whisper.cpp/resolve/main/ggml-base.bin"
    );
    assert_eq!(
        parakeet_file_url(0),
        "https://huggingface.co/istupakov/parakeet-tdt-0.6b-v3-onnx/resolve/main/encoder-model.int8.onnx"
    );
    assert_eq!(
        parakeet_file_url(2),
        "https://huggingface.co/istupakov/parakeet-tdt-0.6b-v3-onnx/resolve/main/vocab.txt"
    );
}

#[test]
fn required_files_follow_the_engine() {
    let parakeet = vec![
        "/r/models/parakeet-tdt/encoder-model.onnx".to_string(),
        "/r/models/parakeet-tdt/decoder_joint-model.onnx".to_string(),
        "/r/models/parakeet-tdt/vocab.txt".to_string(),
    ];
    assert_eq!(parakeet_files("/r"), parakeet);
    assert_eq!(required_model_files("/r", "parakeet", "tiny"), parakeet);
    assert_eq!(
        required_model_files("/r", "whisper", "tiny"),
        vec!["/r/models/ggml-tiny.bin".to_string()]
    );
    assert_eq!(
        required_model_files("/r", "anything", "medium"),
        vec!["/r/models/ggml-medium.bin".to_string()]
    );
}

#[test]
fn model_is_complete_when_no_answer_is_no() {
    assert!(all_present(&[true, true, true]));
    assert!(!all_present(&[true, false, true]));
    assert!(!all_present(&[true, true, false]));
    assert!(!all_present(&[false]));
    assert!(all_present(&[]));
}

#[test]
fn files_are_looked_for_on_disk() {
    assert!(files_exist(&vec![]));
    assert!(files_exist(&vec!["/".to_string()]));
    assert!(!files_exist(&vec!["/".to_string(), "/nowhere/at/all".to_string()]));
    assert!(!files_exist(&vec!["/nowhere/at/all".to_string()]));
}

#[test]
fn nothing_exists_below_a_missing_directory() {
    let root = "/nowhere/at/all/lightwhisper";
    assert!(!whisper_model_exists(root, "base"));
    assert!(!parakeet_model_exists(root));
    assert!(!model_exists_for_engine(root, "parakeet", "base"));
    assert!(!model_exists_for_engine(root, "whisper", "tiny"));
}

#[test]
fn settings_select_the_model_path() {
    let mut cfg = AppConfig::default();
    assert_eq!(get_model_path_for_config("/r", &cfg), "/r/models/ggml-base.bin");
    cfg.model_size = "medium".to_string();
    assert_eq!(get_model_path_for_config("/r", &cfg), "/r/models/ggml-medium.bin");
    cfg.engine = "parakeet".to_string();
    assert_eq!(get_model_path_for_config("/r", &cfg), "/r/models/parakeet-tdt");
    cfg.engine = "other".to_string();
    assert_eq!(get_model_path_for_config("/r", &cfg), "/r/models/ggml-medium.bin");
}

#[test]
fn default_settings() {
    let cfg = AppConfig::default();
    assert_eq!(cfg.audio_device, "default");
    assert_eq!(cfg.model_size, "base");
    assert_eq!(cfg.language, "auto");
    assert_eq!(cfg.engine, "whisper");
    assert_eq!(cfg.duplicate(), cfg);
}
