use kokoroxide::demo::{demo_config, phoneme_test_cases, phoneme_test_filename, voice_path_or_default, ExecutionProviderKind};
use kokoroxide::{run_kokoro, run_kokoro_with_text, GraphOptimizationLevel, TTSConfig};

#[test]
fn kokoro_run_says_hello() {
    let run = run_kokoro(false);
    assert_eq!(run.text, "Hello world, how are you today?");
    assert_eq!(run.voice_path, "models/kokoro/af.bin");
    assert_eq!(run.output_path, "kokoro_test_output.wav");
    assert!(run.play);
    assert_eq!(run.config.model_path, "models/kokoro/kokoro.onnx");
    assert_eq!(run.config.tokenizer_path, "models/kokoro/tokenizer.json");
    assert_eq!(run.config.graph_level, GraphOptimizationLevel::Disable);
    assert_eq!(run.config.max_length, 512);
    assert_eq!(run.config.sample_rate, 24000);
    assert_eq!(run.config.execution_provider, vec![ExecutionProviderKind::CoreML]);
    assert!(!run_kokoro(true).play);
}

#[test]
fn kokoro_run_with_text() {
    let run = run_kokoro_with_text("Speak faster!", true);
    assert_eq!(run.text, "Speak faster!");
    assert!(!run.play);
}

#[test]
fn demo_config_and_voice() {
    let config: TTSConfig<()> = demo_config();
    assert_eq!(config.graph_level, GraphOptimizationLevel::Disable);
    assert_eq!(config.sample_rate, 24000);
    assert!(config.execution_provider.is_empty());
    assert_eq!(voice_path_or_default(None), "models/kokoro/af.bin");
    assert_eq!(voice_path_or_default(Some("voices/bf.bin")), "voices/bf.bin");
}

#[test]
fn phoneme_cases_and_files() {
    let cases = phoneme_test_cases();
    assert_eq!(cases.len(), 4);
    assert_eq!(cases[0].0, "Kokoro g2p - Japanese anime");
    assert_eq!(cases[3].1, "ˌɪt wʌz ɐ spɹˈɔl vˈYs ænd ɐ spɹˈɔl ʤˈOk");
    assert_eq!(phoneme_test_filename(&cases[0].0), "test_phonemes_kokoro_g2p___japanese_anime.wav");
    assert_eq!(
        phoneme_test_filename("Our system phonemes (short)"),
        "test_phonemes_our_system_phonemes_(short).wav"
    );
}
