//! The demo runs: which model, tokenizer and voice they load, what they say,
//! where they write the audio, and whether they play it.
use vstd::prelude::*;
use crate::config::{GraphOptimizationLevel, TTSConfig};
use crate::text::{lowercase, to_lowercase, underscore_separators, underscored};

verus! {

/// An execution provider that a demo asks the inference runtime for.
#[derive(Clone, Copy, Debug, PartialEq, Eq, Structural)]
pub enum ExecutionProviderKind {
    /// Apple's Core ML.
    CoreML,
}

/// The configuration that every demo starts from: the Kokoro model and
/// tokenizer under "models/kokoro", no graph optimization, at most 512
/// tokens, 24000 Hz audio, and no execution provider given.
pub open spec fn is_demo_config<P>(config: TTSConfig<P>) -> bool {
    &&& config.model_path@ == "models/kokoro/kokoro.onnx"@
    &&& config.tokenizer_path@ == "models/kokoro/tokenizer.json"@
    &&& config.graph_level == GraphOptimizationLevel::Disable
    &&& config.max_length == 512
    &&& config.sample_rate == 24000
}

/// The configuration that every demo starts from.
pub fn demo_config<P>() -> (config: TTSConfig<P>)
    ensures
        is_demo_config(config),
        config.execution_provider@ == Seq::<P>::empty(),
{
    TTSConfig::new("models/kokoro/kokoro.onnx", "models/kokoro/tokenizer.json")
        .with_graph_optimization_level(GraphOptimizationLevel::Disable)
        .with_max_tokens_length(512)
        .with_sample_rate(24000)
}

/// The voice that the demos speak with unless told otherwise.
pub open spec fn default_voice_path() -> Seq<char> {
    "models/kokoro/af.bin"@
}

/// The voice file to load: the one given, or the default voice.
pub fn voice_path_or_default(voice_path: Option<&str>) -> (path: &str)
    ensures
        voice_path matches Some(p) ==> path@ == p@,
        voice_path is None ==> path@ == default_voice_path(),
{
    match voice_path {
        Some(p) => p,
        None => "models/kokoro/af.bin",
    }
}

/// A run of the Kokoro demo: the engine configuration, the voice file, the
/// text to speak, the file the audio goes to, and whether to play it.
pub struct KokoroRun {
    pub config: TTSConfig<ExecutionProviderKind>,
    pub voice_path: String,
    pub text: String,
    pub output_path: String,
    pub play: bool,
}

/// The Kokoro demo run that speaks `text`: the demo configuration with Core
/// ML as execution provider, the default voice, output to
/// "kokoro_test_output.wav", played unless `no_play`.
pub open spec fn is_kokoro_run(run: KokoroRun, text: Seq<char>, no_play: bool) -> bool {
    &&& is_demo_config(run.config)
    &&& run.config.execution_provider@ == seq![ExecutionProviderKind::CoreML]
    &&& run.voice_path@ == default_voice_path()
    &&& run.text@ == text
    &&& run.output_path@ == "kokoro_test_output.wav"@
    &&& run.play == !no_play
}

/// The Kokoro demo run that speaks `text`, played unless `no_play`.
pub fn run_kokoro_with_text(text: &str, no_play: bool) -> (run: KokoroRun)
    ensures
        is_kokoro_run(run, text@, no_play),
{
    let mut providers: Vec<ExecutionProviderKind> = Vec::new();
    providers.push(ExecutionProviderKind::CoreML);
    assert(providers@ =~= seq![ExecutionProviderKind::CoreML]);
    KokoroRun {
        config: demo_config().with_execution_providers(providers),
        voice_path: String::from_str("models/kokoro/af.bin"),
        text: String::from_str(text),
        output_path: String::from_str("kokoro_test_output.wav"),
        play: !no_play,
    }
}

/// The Kokoro demo run that says "Hello world, how are you today?", played
/// unless `no_play`.
pub fn run_kokoro(no_play: bool) -> (run: KokoroRun)
    ensures
        is_kokoro_run(run, "Hello world, how are you today?"@, no_play),
{
    run_kokoro_with_text("Hello world, how are you today?", no_play)
}

/// The phoneme strings that the direct-phoneme demo speaks, each with its
/// description.
pub fn phoneme_test_cases() -> (cases: Vec<(String, String)>)
    ensures
        cases@.len() == 4,
        cases@[0].0@ == "Kokoro g2p - Japanese anime"@,
        cases@[0].1@ == "ʤˌæpənˈiz klˈʌbz ɑɹ ðə bˈɛst plˈʌs ˈænəmA ɪz əmˈAzɪŋ"@,
        cases@[1].0@ == "Our system - Japanese anime"@,
        cases@[1].1@ == "ʤˌæpənˈiz klˈʌbz ɑɹ ðə bˈɛst plˈʌs ˈænɪmˌA ɪz ɐmˈAzɪŋ"@,
        cases@[2].0@ == "Our system phonemes (short)"@,
        cases@[2].1@ == "ɪt wʌzə spɹˈɔl vˈYs ænd ə spɹˈɔl ʤˈOk"@,
        cases@[3].0@ == "Kokoro Python phonemes (short)"@,
        cases@[3].1@ == "ˌɪt wʌz ɐ spɹˈɔl vˈYs ænd ɐ spɹˈɔl ʤˈOk"@,
{
    let mut cases: Vec<(String, String)> = Vec::new();
    cases.push(
        (
            String::from_str("Kokoro g2p - Japanese anime"),
            String::from_str("ʤˌæpənˈiz klˈʌbz ɑɹ ðə bˈɛst plˈʌs ˈænəmA ɪz əmˈAzɪŋ"),
        ),
    );
    cases.push(
        (
            String::from_str("Our system - Japanese anime"),
            String::from_str("ʤˌæpənˈiz klˈʌbz ɑɹ ðə bˈɛst plˈʌs ˈænɪmˌA ɪz ɐmˈAzɪŋ"),
        ),
    );
    cases.push(
        (
            String::from_str("Our system phonemes (short)"),
            String::from_str("ɪt wʌzə spɹˈɔl vˈYs ænd ə spɹˈɔl ʤˈOk"),
        ),
    );
    cases.push(
        (
            String::from_str("Kokoro Python phonemes (short)"),
            String::from_str("ˌɪt wʌz ɐ spɹˈɔl vˈYs ænd ɐ spɹˈɔl ʤˈOk"),
        ),
    );
    cases
}

/// The file that the direct-phoneme demo writes the case `description` to:
/// "test_phonemes_", the description lower-cased with spaces and '-' made
/// '_', and ".wav".
pub open spec fn phoneme_output_name(description: Seq<char>) -> Seq<char> {
    "test_phonemes_"@ + underscored(lowercase(description)) + ".wav"@
}

/// The file that the direct-phoneme demo writes the case `description` to.
pub fn phoneme_test_filename(description: &str) -> (name: String)
    ensures
        name@ == phoneme_output_name(description@),
{
    let lowered = to_lowercase(description);
    let stem = underscore_separators(lowered.as_str());
    let mut name = String::from_str("test_phonemes_");
    name.append(stem.as_str());
    name.append(".wav");
    name
}

} // verus!
