//! The configuration of the speech engine and its builder methods.
use vstd::prelude::*;

verus! {

/// How much the inference runtime may rewrite the model graph before running
/// it, from no rewriting at all to every optimization it has.
#[derive(Clone, Copy, Debug, PartialEq, Eq, Structural)]
pub enum GraphOptimizationLevel {
    Disable,
    Level1,
    Level2,
    Level3,
    All,
}

/// Where the engine finds its model and tokenizer, how long a token sequence
/// may be, the rate of the audio it produces, how far the model graph is
/// optimized, and which execution providers run it (`P` names a provider).
pub struct TTSConfig<P> {
    pub model_path: String,
    pub tokenizer_path: String,
    pub max_length: usize,
    pub sample_rate: u32,
    pub graph_level: GraphOptimizationLevel,
    pub execution_provider: Vec<P>,
}

/// The longest token sequence the engine accepts unless configured otherwise.
pub const DEFAULT_MAX_LENGTH: usize = 512;

/// The rate of the produced audio unless configured otherwise, in Hz.
pub const DEFAULT_SAMPLE_RATE: u32 = 24000;

impl<P> TTSConfig<P> {
    /// The configuration for the given model and tokenizer files: at most 512
    /// tokens, 24000 Hz audio, graph optimization level 3, and no execution
    /// provider besides the default one.
    pub fn new(model_path: &str, tokenizer_path: &str) -> (config: Self)
        ensures
            config.model_path@ == model_path@,
            config.tokenizer_path@ == tokenizer_path@,
            config.max_length == DEFAULT_MAX_LENGTH,
            config.sample_rate == DEFAULT_SAMPLE_RATE,
            config.graph_level == GraphOptimizationLevel::Level3,
            config.execution_provider@ == Seq::<P>::empty(),
    {
        TTSConfig {
            model_path: String::from_str(model_path),
            tokenizer_path: String::from_str(tokenizer_path),
            max_length: DEFAULT_MAX_LENGTH,
            sample_rate: DEFAULT_SAMPLE_RATE,
            graph_level: GraphOptimizationLevel::Level3,
            execution_provider: Vec::new(),
        }
    }

    /// The same configuration with the longest token sequence set to
    /// `max_length`.
    pub fn with_max_tokens_length(self, max_length: usize) -> (config: Self)
        ensures
            config.max_length == max_length,
            config.model_path == self.model_path,
            config.tokenizer_path == self.tokenizer_path,
            config.sample_rate == self.sample_rate,
            config.graph_level == self.graph_level,
            config.execution_provider == self.execution_provider,
    {
        let mut config = self;
        config.max_length = max_length;
        config
    }

    /// The same configuration with the audio rate set to `sample_rate`.
    pub fn with_sample_rate(self, sample_rate: u32) -> (config: Self)
        ensures
            config.sample_rate == sample_rate,
            config.model_path == self.model_path,
            config.tokenizer_path == self.tokenizer_path,
            config.max_length == self.max_length,
            config.graph_level == self.graph_level,
            config.execution_provider == self.execution_provider,
    {
        let mut config = self;
        config.sample_rate = sample_rate;
        config
    }

    /// The same configuration with the graph optimization level set to
    /// `level`.
    pub fn with_graph_optimization_level(self, level: GraphOptimizationLevel) -> (config: Self)
        ensures
            config.graph_level == level,
            config.model_path == self.model_path,
            config.tokenizer_path == self.tokenizer_path,
            config.max_length == self.max_length,
            config.sample_rate == self.sample_rate,
            config.execution_provider == self.execution_provider,
    {
        let mut config = self;
        config.graph_level = level;
        config
    }

    /// The same configuration with its execution providers replaced by
    /// `providers`, in that order.
    pub fn with_execution_providers(self, providers: Vec<P>) -> (config: Self)
        ensures
            config.execution_provider == providers,
            config.model_path == self.model_path,
            config.tokenizer_path == self.tokenizer_path,
            config.max_length == self.max_length,
            config.sample_rate == self.sample_rate,
            config.graph_level == self.graph_level,
    {
        let mut config = self;
        config.execution_provider = providers;
        config
    }
}

} // verus!
