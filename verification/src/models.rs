//! Where the models of the two backends lie on disk, and where they are
//! downloaded from.

use vstd::prelude::*;
use crate::config::AppConfig;
use crate::paths::{child, child_path, models_dir, models_dir_spec, parakeet_models_dir, parakeet_models_dir_spec, path_exists};
use crate::stt::{engine_kind_of, kind_of_name, EngineKind};
use crate::text::{join3, str_eq};

verus! {

/// The file name of the general-purpose model of the given size; an unknown
/// size stands for `"base"`.
pub open spec fn whisper_filename_spec(model_size: Seq<char>) -> Seq<char> {
    if model_size == "tiny"@ {
        "ggml-tiny.bin"@
    } else if model_size == "small"@ {
        "ggml-small.bin"@
    } else if model_size == "medium"@ {
        "ggml-medium.bin"@
    } else {
        "ggml-base.bin"@
    }
}

/// The file name of the general-purpose model of the given size.
pub fn whisper_model_filename(model_size: &str) -> (name: String)
    ensures
        name@ == whisper_filename_spec(model_size@),
{
    if str_eq(model_size, "tiny") {
        String::from_str("ggml-tiny.bin")
    } else if str_eq(model_size, "small") {
        String::from_str("ggml-small.bin")
    } else if str_eq(model_size, "medium") {
        String::from_str("ggml-medium.bin")
    } else {
        String::from_str("ggml-base.bin")
    }
}

/// The path of the general-purpose model of the given size below `root`.
pub open spec fn whisper_path_spec(root: Seq<char>, model_size: Seq<char>) -> Seq<char> {
    child_path(models_dir_spec(root), whisper_filename_spec(model_size))
}

/// The path of the general-purpose model of the given size inside the
/// application's directory `root`.
pub fn whisper_model_path(root: &str, model_size: &str) -> (path: String)
    ensures
        path@ == whisper_path_spec(root@, model_size@),
{
    let dir: String = models_dir(root);
    let name: String = whisper_model_filename(model_size);
    child(dir.as_str(), name.as_str())
}

/// Whether the general-purpose model of the given size is on disk.
pub fn whisper_model_exists(root: &str, model_size: &str) -> (found: bool) {
    let path: String = whisper_model_path(root, model_size);
    path_exists(path.as_str())
}

/// The directory of the streaming model inside the application's directory
/// `root`.
pub fn parakeet_model_dir(root: &str) -> (path: String)
    ensures
        path@ == parakeet_models_dir_spec(root@),
{
    parakeet_models_dir(root)
}

/// Number of files the streaming model consists of.
pub const PARAKEET_FILE_COUNT: usize = 3;

/// The name under which file `i` of the streaming model is downloaded.
pub open spec fn parakeet_remote_spec(i: int) -> Seq<char> {
    if i == 0 {
        "encoder-model.int8.onnx"@
    } else if i == 1 {
        "decoder_joint-model.int8.onnx"@
    } else {
        "vocab.txt"@
    }
}

/// The name under which file `i` of the streaming model is kept on disk.
pub open spec fn parakeet_local_spec(i: int) -> Seq<char> {
    if i == 0 {
        "encoder-model.onnx"@
    } else if i == 1 {
        "decoder_joint-model.onnx"@
    } else {
        "vocab.txt"@
    }
}

/// The name under which file `i` of the streaming model is downloaded.
pub fn parakeet_remote_name(i: usize) -> (name: String)
    requires
        i < PARAKEET_FILE_COUNT,
    ensures
        name@ == parakeet_remote_spec(i as int),
{
    if i == 0 {
        String::from_str("encoder-model.int8.onnx")
    } else if i == 1 {
        String::from_str("decoder_joint-model.int8.onnx")
    } else {
        String::from_str("vocab.txt")
    }
}

/// The name under which file `i` of the streaming model is kept on disk.
pub fn parakeet_local_name(i: usize) -> (name: String)
    requires
        i < PARAKEET_FILE_COUNT,
    ensures
        name@ == parakeet_local_spec(i as int),
{
    if i == 0 {
        String::from_str("encoder-model.onnx")
    } else if i == 1 {
        String::from_str("decoder_joint-model.onnx")
    } else {
        String::from_str("vocab.txt")
    }
}

/// The path of file `i` of the streaming model below `root`.
pub fn parakeet_file_path(root: &str, i: usize) -> (path: String)
    requires
        i < PARAKEET_FILE_COUNT,
    ensures
        path@ == child_path(parakeet_models_dir_spec(root@), parakeet_local_spec(i as int)),
{
    let dir: String = parakeet_model_dir(root);
    let name: String = parakeet_local_name(i);
    child(dir.as_str(), name.as_str())
}

/// The paths of the files of the streaming model below `root`, in their order.
pub open spec fn parakeet_files_spec(root: Seq<char>) -> Seq<Seq<char>> {
    Seq::new(
        PARAKEET_FILE_COUNT as nat,
        |i: int| child_path(parakeet_models_dir_spec(root), parakeet_local_spec(i)),
    )
}

/// The files that have to be on disk for the named backend to load its
/// model: the three files of the streaming model for `"parakeet"`, the
/// weights file of the given size for every other name.
pub open spec fn required_files_spec(
    root: Seq<char>,
    engine: Seq<char>,
    model_size: Seq<char>,
) -> Seq<Seq<char>> {
    if kind_of_name(engine) == EngineKind::Parakeet {
        parakeet_files_spec(root)
    } else {
        seq![whisper_path_spec(root, model_size)]
    }
}

/// The characters of each string of a list.
pub open spec fn path_views(paths: Seq<String>) -> Seq<Seq<char>> {
    paths.map_values(|path: String| path@)
}

/// The paths of the files of the streaming model inside the application's
/// directory `root`.
pub fn parakeet_files(root: &str) -> (paths: Vec<String>)
    ensures
        path_views(paths@) == parakeet_files_spec(root@),
{
    let mut paths: Vec<String> = Vec::new();
    let mut i: usize = 0;
    while i < PARAKEET_FILE_COUNT
        invariant
            i <= PARAKEET_FILE_COUNT,
            paths@.len() == i,
            forall|j: int|
                0 <= j < i ==> (#[trigger] paths@[j])@ == child_path(
                    parakeet_models_dir_spec(root@),
                    parakeet_local_spec(j),
                ),
        decreases PARAKEET_FILE_COUNT - i,
    {
        paths.push(parakeet_file_path(root, i));
        i = i + 1;
    }
    proof {
        assert(path_views(paths@) =~= parakeet_files_spec(root@));
    }
    paths
}

/// The files that have to be on disk for the named backend to load its model.
pub fn required_model_files(root: &str, engine: &str, model_size: &str) -> (paths: Vec<String>)
    ensures
        path_views(paths@) == required_files_spec(root@, engine@, model_size@),
{
    match engine_kind_of(engine) {
        EngineKind::Parakeet => parakeet_files(root),
        EngineKind::Whisper => {
            let mut paths: Vec<String> = Vec::new();
            paths.push(whisper_model_path(root, model_size));
            proof {
                assert(path_views(paths@) =~= seq![whisper_path_spec(root@, model_size@)]);
            }
            paths
        },
    }
}

/// Whether every one of the given files is on disk: each is looked for in
/// its turn, and the answers are joined by `all_present`.
pub fn files_exist(paths: &Vec<String>) -> (found: bool)
    ensures
        exists|answers: Seq<bool>| answers.len() == paths@.len() && found == all_set(answers),
{
    let mut answers: Vec<bool> = Vec::new();
    let mut i: usize = 0;
    while i < paths.len()
        invariant
            i <= paths@.len(),
            answers@.len() == i,
        decreases paths@.len() - i,
    {
        answers.push(path_exists(paths[i].as_str()));
        i = i + 1;
    }
    let found: bool = all_present(answers.as_slice());
    assert(answers@.len() == paths@.len() && found == all_set(answers@));
    found
}

/// Whether all files of the streaming model are on disk.
pub fn parakeet_model_exists(root: &str) -> (found: bool) {
    let paths: Vec<String> = parakeet_files(root);
    files_exist(&paths)
}

/// Whether the model that the named backend needs is on disk.
pub fn model_exists_for_engine(root: &str, engine: &str, model_size: &str) -> (found: bool) {
    let paths: Vec<String> = required_model_files(root, engine, model_size);
    files_exist(&paths)
}

/// Whether every answer is yes.
pub open spec fn all_set(answers: Seq<bool>) -> bool {
    forall|i: int| 0 <= i < answers.len() ==> answers[i]
}

/// Whether every file of a model is there, given the answer for each: true
/// exactly when no answer is no, so also when there is no file to ask for.
pub fn all_present(answers: &[bool]) -> (complete: bool)
    ensures
        complete == all_set(answers@),
{
    let n: usize = answers.len();
    let mut i: usize = 0;
    while i < n
        invariant
            i <= n,
            n == answers@.len(),
            forall|j: int| 0 <= j < i ==> answers@[j],
        decreases n - i,
    {
        if !answers[i] {
            return false;
        }
        i = i + 1;
    }
    true
}

/// The path of the model that the settings select.
pub open spec fn model_path_spec(root: Seq<char>, cfg: &AppConfig) -> Seq<char> {
    if kind_of_name(cfg.engine@) == EngineKind::Parakeet {
        parakeet_models_dir_spec(root)
    } else {
        whisper_path_spec(root, cfg.model_size@)
    }
}

/// The path of the model that the settings select: the streaming model's
/// directory, or the weights file of the configured size.
pub fn get_model_path_for_config(root: &str, cfg: &AppConfig) -> (path: String)
    ensures
        path@ == model_path_spec(root@, cfg),
{
    match engine_kind_of(cfg.engine.as_str()) {
        EngineKind::Parakeet => parakeet_model_dir(root),
        EngineKind::Whisper => whisper_model_path(root, cfg.model_size.as_str()),
    }
}

/// Where the general-purpose models are downloaded from.
pub open spec fn whisper_base_url() -> Seq<char> {
    "https://huggingface.co/ggerganov/whisper.cpp/resolve/main"@
}

/// Where the streaming model's files are downloaded from.
pub open spec fn parakeet_base_url() -> Seq<char> {
    "https://huggingface.co/istupakov/parakeet-tdt-0.6b-v3-onnx/resolve/main"@
}

/// The address of the general-purpose model of the given size.
pub fn whisper_model_url(model_size: &str) -> (url: String)
    ensures
        url@ == whisper_base_url() + "/"@ + whisper_filename_spec(model_size@),
{
    let name: String = whisper_model_filename(model_size);
    join3("https://huggingface.co/ggerganov/whisper.cpp/resolve/main", "/", name.as_str())
}

/// The address of file `i` of the streaming model.
pub fn parakeet_file_url(i: usize) -> (url: String)
    requires
        i < PARAKEET_FILE_COUNT,
    ensures
        url@ == parakeet_base_url() + "/"@ + parakeet_remote_spec(i as int),
{
    let name: String = parakeet_remote_name(i);
    join3(
        "https://huggingface.co/istupakov/parakeet-tdt-0.6b-v3-onnx/resolve/main",
        "/",
        name.as_str(),
    )
}

} // verus!
