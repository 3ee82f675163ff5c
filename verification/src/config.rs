use vstd::prelude::*;
use vstd::string::*;

verus! {

/// The fields of a chat-completion provider's configuration.
#[derive(Clone, Copy, Debug, PartialEq, Eq, Structural)]
pub enum ConfigKey {
    Model,
    Temperature,
    MaxTokens,
    TopP,
    FrequencyPenalty,
    PresencePenalty,
}

impl ConfigKey {
    pub open spec fn spec_name(self) -> Seq<char> {
        match self {
            ConfigKey::Model => "model"@,
            ConfigKey::Temperature => "temperature"@,
            ConfigKey::MaxTokens => "max_tokens"@,
            ConfigKey::TopP => "top_p"@,
            ConfigKey::FrequencyPenalty => "frequency_penalty"@,
            ConfigKey::PresencePenalty => "presence_penalty"@,
        }
    }

    /// The field's name in a configuration map and in the request body.
    pub fn name(&self) -> (s: &'static str)
        ensures
            s@ == self.spec_name(),
    {
        match self {
            ConfigKey::Model => "model",
            ConfigKey::Temperature => "temperature",
            ConfigKey::MaxTokens => "max_tokens",
            ConfigKey::TopP => "top_p",
            ConfigKey::FrequencyPenalty => "frequency_penalty",
            ConfigKey::PresencePenalty => "presence_penalty",
        }
    }
}

/// Why a provider could not be set up. Fatal: raised before any dispatch.
#[derive(Clone, Copy, Debug, PartialEq, Eq, Structural)]
pub enum ConfigError {
    UnsupportedProvider,
    MissingKey(ConfigKey),
}

impl ConfigError {
    pub open spec fn spec_message(self) -> Seq<char> {
        match self {
            ConfigError::UnsupportedProvider => "Unsupported provider"@,
            ConfigError::MissingKey(key) => "Missing required key: "@ + key.spec_name(),
        }
    }

    /// The text of the error; a missing field is named in it.
    pub fn message(&self) -> (s: String)
        ensures
            s@ == self.spec_message(),
    {
        match self {
            ConfigError::UnsupportedProvider => String::from_str("Unsupported provider"),
            ConfigError::MissingKey(key) => String::from_str("Missing required key: ").concat(
                key.name(),
            ),
        }
    }
}

/// A configuration as the caller supplied it: each field present or not.
/// `R` is the type of the sampling numbers, which are passed on untouched.
#[derive(Clone, Debug)]
pub struct RawConfig<R> {
    pub model: Option<String>,
    pub temperature: Option<R>,
    pub max_tokens: Option<usize>,
    pub top_p: Option<R>,
    pub frequency_penalty: Option<R>,
    pub presence_penalty: Option<R>,
}

/// A checked configuration: model and temperature are there. An empty
/// model means that the endpoint's default is used.
#[derive(Clone, Debug)]
pub struct OpenAIConfig<R> {
    pub model: String,
    pub temperature: R,
    pub max_tokens: Option<usize>,
    pub top_p: Option<R>,
    pub frequency_penalty: Option<R>,
    pub presence_penalty: Option<R>,
}

/// A required field: its value, or the error that names it.
pub fn get_required_value<T>(value: Option<T>, key: ConfigKey) -> (r: Result<T, ConfigError>)
    ensures
        r == match value {
            Some(v) => Ok::<T, ConfigError>(v),
            None => Err::<T, ConfigError>(ConfigError::MissingKey(key)),
        },
{
    match value {
        Some(v) => Ok(v),
        None => Err(ConfigError::MissingKey(key)),
    }
}

impl<R> RawConfig<R> {
    /// The first required field that is absent, if any: the model is
    /// looked for before the temperature.
    pub open spec fn first_missing(self) -> Option<ConfigKey> {
        if self.model.is_none() {
            Some(ConfigKey::Model)
        } else if self.temperature.is_none() {
            Some(ConfigKey::Temperature)
        } else {
            None
        }
    }

    pub open spec fn checked(self) -> OpenAIConfig<R>
        recommends
            self.first_missing().is_none(),
    {
        OpenAIConfig {
            model: self.model.unwrap(),
            temperature: self.temperature.unwrap(),
            max_tokens: self.max_tokens,
            top_p: self.top_p,
            frequency_penalty: self.frequency_penalty,
            presence_penalty: self.presence_penalty,
        }
    }
}

impl<R> OpenAIConfig<R> {
    /// Checks the required fields. Optional fields are kept as found:
    /// never defaulted.
    pub fn from_raw(raw: RawConfig<R>) -> (r: Result<Self, ConfigError>)
        ensures
            r == match raw.first_missing() {
                Some(key) => Err::<Self, ConfigError>(ConfigError::MissingKey(key)),
                None => Ok::<Self, ConfigError>(raw.checked()),
            },
    {
        let model = match get_required_value(raw.model, ConfigKey::Model) {
            Ok(v) => v,
            Err(e) => {
                return Err(e);
            },
        };
        let temperature = match get_required_value(raw.temperature, ConfigKey::Temperature) {
            Ok(v) => v,
            Err(e) => {
                return Err(e);
            },
        };
        Ok(
            OpenAIConfig {
                model,
                temperature,
                max_tokens: raw.max_tokens,
                top_p: raw.top_p,
                frequency_penalty: raw.frequency_penalty,
                presence_penalty: raw.presence_penalty,
            },
        )
    }
}

/// The provider kinds that the engine knows.
#[derive(Clone, Copy, Debug, PartialEq, Eq, Structural)]
pub enum ProviderKind {
    OpenAI,
}

impl ProviderKind {
    pub open spec fn spec_name(self) -> Seq<char> {
        "openai"@
    }

    /// The stable tag of the kind.
    pub fn name(&self) -> (s: &'static str)
        ensures
            s@ == self.spec_name(),
    {
        "openai"
    }

    /// The kind with the given tag, if there is one.
    pub fn parse(tag: &str) -> (r: Result<ProviderKind, ConfigError>)
        ensures
            r == if tag@ == "openai"@ {
                Ok::<ProviderKind, ConfigError>(ProviderKind::OpenAI)
            } else {
                Err::<ProviderKind, ConfigError>(ConfigError::UnsupportedProvider)
            },
    {
        let given = String::from_str(tag);
        let known = String::from_str("openai");
        if given == known {
            Ok(ProviderKind::OpenAI)
        } else {
            Err(ConfigError::UnsupportedProvider)
        }
    }
}

/// What one provider instance is made of, the transport aside.
#[derive(Clone, Debug)]
pub struct ProviderSettings<R> {
    pub kind: ProviderKind,
    pub api_key: String,
    pub base_url: String,
    pub config: OpenAIConfig<R>,
    pub test_mode: bool,
}

pub open spec fn default_base_url() -> Seq<char> {
    "https://api.openai.com"@
}

/// The error with which setting up a provider fails, if it does: an
/// unknown kind comes before a missing field.
pub open spec fn configure_error<R>(tag: Seq<char>, raw: RawConfig<R>) -> Option<ConfigError> {
    if tag != "openai"@ {
        Some(ConfigError::UnsupportedProvider)
    } else {
        match raw.first_missing() {
            Some(key) => Some(ConfigError::MissingKey(key)),
            None => None,
        }
    }
}

/// Sets up one provider from what the caller supplied. Without a base
/// URL the public endpoint is used.
pub fn configure_provider<R>(
    tag: &str,
    api_key: String,
    base_url: Option<String>,
    raw: RawConfig<R>,
    test_mode: bool,
) -> (r: Result<ProviderSettings<R>, ConfigError>)
    ensures
        match configure_error(tag@, raw) {
            Some(e) => r == Err::<ProviderSettings<R>, ConfigError>(e),
            None => r.is_ok() && r.unwrap().kind == ProviderKind::OpenAI && r.unwrap().api_key
                == api_key && r.unwrap().base_url@ == (match base_url {
                Some(url) => url@,
                None => default_base_url(),
            }) && r.unwrap().config == raw.checked() && r.unwrap().test_mode == test_mode,
        },
{
    let kind = match ProviderKind::parse(tag) {
        Ok(k) => k,
        Err(e) => {
            return Err(e);
        },
    };
    let config = match OpenAIConfig::from_raw(raw) {
        Ok(c) => c,
        Err(e) => {
            return Err(e);
        },
    };
    let base_url = match base_url {
        Some(url) => url,
        None => String::from_str("https://api.openai.com"),
    };
    Ok(ProviderSettings { kind, api_key, base_url, config, test_mode })
}

} // verus!
