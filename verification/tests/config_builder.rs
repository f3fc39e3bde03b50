use kokoroxide::{GraphOptimizationLevel, TTSConfig};

#[test]
fn new_config_has_the_documented_defaults() {
    let config: TTSConfig<u8> = TTSConfig::new("path/to/kokoro.onnx", "path/to/tokenizer.json");
    assert_eq!(config.model_path, "path/to/kokoro.onnx");
    assert_eq!(config.tokenizer_path, "path/to/tokenizer.json");
    assert_eq!(config.max_length, 512);
    assert_eq!(config.sample_rate, 24000);
    assert_eq!(config.graph_level, GraphOptimizationLevel::Level3);
    assert!(config.execution_provider.is_empty());
}

#[test]
fn builders_set_only_their_field() {
    let config: TTSConfig<&str> = TTSConfig::new("m.onnx", "t.json")
        .with_sample_rate(24000)
        .with_max_tokens_length(128)
        .with_graph_optimization_level(GraphOptimizationLevel::Disable)
        .with_execution_providers(vec!["coreml", "cpu"]);
    assert_eq!(config.model_path, "m.onnx");
    assert_eq!(config.tokenizer_path, "t.json");
    assert_eq!(config.max_length, 128);
    assert_eq!(config.sample_rate, 24000);
    assert_eq!(config.graph_level, GraphOptimizationLevel::Disable);
    assert_eq!(config.execution_provider, vec!["coreml", "cpu"]);

    let config = config.with_sample_rate(16000).with_graph_optimization_level(GraphOptimizationLevel::All);
    assert_eq!(config.sample_rate, 16000);
    assert_eq!(config.max_length, 128);
    assert_eq!(config.graph_level, GraphOptimizationLevel::All);
    assert_eq!(config.execution_provider, vec!["coreml", "cpu"]);
}
