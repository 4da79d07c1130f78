//! Where the provider is and which model answers.
use vstd::prelude::*;

verus! {

/// The models on offer.
#[derive(Debug, Clone, Copy, PartialEq, Eq)]
pub enum GeminiModel {
    Gemini15,
    Gemini20,
}

impl GeminiModel {
    /// The name under which the provider knows the model.
    pub open spec fn name(self) -> Seq<char> {
        match self {
            GeminiModel::Gemini15 => "gemini-1.5-flash"@,
            GeminiModel::Gemini20 => "gemini-2.0-flash-001"@,
        }
    }

    /// The name under which the provider knows the model.
    pub fn to_string(&self) -> (text: String)
        ensures
            text@ == self.name(),
    {
        match self {
            GeminiModel::Gemini15 => "gemini-1.5-flash".to_owned(),
            GeminiModel::Gemini20 => "gemini-2.0-flash-001".to_owned(),
        }
    }
}

/// Why a configuration could not be built.
#[derive(Debug, Clone, Copy, PartialEq, Eq)]
pub enum ConfigError {
    /// The API key is empty.
    MissingApiKey,
}

impl ConfigError {
    /// The message of the error.
    pub fn to_string(&self) -> (text: String)
        ensures
            text@ == "API key must be set"@,
    {
        "API key must be set".to_owned()
    }
}

/// The settings of a provider.
#[derive(Debug, PartialEq)]
pub struct GeminiConfig {
    api_base: String,
    api_key: String,
    model: GeminiModel,
    is_json_response: bool,
}

pub struct GeminiConfigView {
    pub api_base: Seq<char>,
    pub api_key: Seq<char>,
    pub model: GeminiModel,
    pub is_json_response: bool,
}

impl DeepView for GeminiConfig {
    type V = GeminiConfigView;

    closed spec fn deep_view(&self) -> GeminiConfigView {
        GeminiConfigView {
            api_base: self.api_base@,
            api_key: self.api_key@,
            model: self.model,
            is_json_response: self.is_json_response,
        }
    }
}

/// The settings that a provider has unless told otherwise.
pub open spec fn default_config() -> GeminiConfigView {
    GeminiConfigView {
        api_base: "https://generativelanguage.googleapis.com/v1beta/openai"@,
        api_key: Seq::empty(),
        model: GeminiModel::Gemini15,
        is_json_response: false,
    }
}

impl Clone for GeminiConfig {
    fn clone(&self) -> (copy: Self)
        ensures
            copy.deep_view() == self.deep_view(),
    {
        GeminiConfig {
            api_base: self.api_base.clone(),
            api_key: self.api_key.clone(),
            model: self.model,
            is_json_response: self.is_json_response,
        }
    }
}

impl Default for GeminiConfig {
    fn default() -> (config: Self)
        ensures
            config.deep_view() == default_config(),
    {
        GeminiConfig {
            api_base: "https://generativelanguage.googleapis.com/v1beta/openai".to_owned(),
            api_key: String::new(),
            model: GeminiModel::Gemini15,
            is_json_response: false,
        }
    }
}

impl GeminiConfig {
    /// The address of the provider, without the path of a call.
    pub fn api_base(&self) -> (text: &str)
        ensures
            text@ == self.deep_view().api_base,
    {
        self.api_base.as_str()
    }

    /// The key sent with each call.
    pub fn api_key(&self) -> (text: &str)
        ensures
            text@ == self.deep_view().api_key,
    {
        self.api_key.as_str()
    }

    /// The model that answers.
    pub fn model(&self) -> (model: &GeminiModel)
        ensures
            *model == self.deep_view().model,
    {
        &self.model
    }

    /// Whether the provider is asked to answer in JSON.
    pub fn is_json_response(&self) -> (flag: bool)
        ensures
            flag == self.deep_view().is_json_response,
    {
        self.is_json_response
    }
}

/// Collects the settings of a provider.
pub struct GeminiConfigBuilder {
    config: GeminiConfig,
}

impl DeepView for GeminiConfigBuilder {
    type V = GeminiConfigView;

    closed spec fn deep_view(&self) -> GeminiConfigView {
        self.config.deep_view()
    }
}

impl GeminiConfigBuilder {
    /// A builder that holds the default settings.
    pub fn new() -> (builder: GeminiConfigBuilder)
        ensures
            builder.deep_view() == default_config(),
    {
        GeminiConfigBuilder { config: GeminiConfig::default() }
    }

    /// Sets the address of the provider.
    pub fn with_api_base(self, api_base: &str) -> (builder: GeminiConfigBuilder)
        ensures
            builder.deep_view() == (GeminiConfigView { api_base: api_base@, ..self.deep_view() }),
    {
        let mut builder = self;
        builder.config.api_base = api_base.to_owned();
        builder
    }

    /// Sets the key sent with each call.
    pub fn with_api_key(self, api_key: &str) -> (builder: GeminiConfigBuilder)
        ensures
            builder.deep_view() == (GeminiConfigView { api_key: api_key@, ..self.deep_view() }),
    {
        let mut builder = self;
        builder.config.api_key = api_key.to_owned();
        builder
    }

    /// Sets the model that answers.
    pub fn with_model(self, model: GeminiModel) -> (builder: GeminiConfigBuilder)
        ensures
            builder.deep_view() == (GeminiConfigView { model, ..self.deep_view() }),
    {
        let mut builder = self;
        builder.config.model = model;
        builder
    }

    /// Asks the provider to answer in JSON.
    pub fn with_json_response(self) -> (builder: GeminiConfigBuilder)
        ensures
            builder.deep_view() == (GeminiConfigView {
                is_json_response: true,
                ..self.deep_view()
            }),
    {
        let mut builder = self;
        builder.config.is_json_response = true;
        builder
    }

    /// The settings, unless the API key is empty.
    pub fn build(self) -> (outcome: Result<GeminiConfig, ConfigError>)
        ensures
            match outcome {
                Ok(config) => self.deep_view().api_key.len() > 0 && config.deep_view()
                    == self.deep_view(),
                Err(error) => self.deep_view().api_key.len() == 0 && error
                    == ConfigError::MissingApiKey,
            },
    {
        if self.config.api_key.as_str().is_empty() {
            return Err(ConfigError::MissingApiKey);
        }
        Ok(self.config)
    }
}

} // verus!
