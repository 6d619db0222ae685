//! The configuration of the assistant.
//!
//! The values come from the environment; reading the environment is the
//! caller's work, which hands over each variable that is set. The threshold
//! of confidence is a number with a fraction and is kept and checked by the
//! caller.

use vstd::prelude::*;
use vstd::string::*;
use crate::text::{
    lower, lowercase, parse_u64, parse_usize, parsed_u64, parsed_usize, str_eq,
};

verus! {

/// The configuration of the assistant.
#[derive(Clone, Debug, PartialEq, Eq)]
pub struct AiConfig {
    /// Whether the assistant is in use.
    pub enabled: bool,
    /// The most rows that one operation takes.
    pub max_rows_per_operation: usize,
    /// The largest context for an analysis.
    pub max_context_size: usize,
    /// Whether operations are logged in detail.
    pub debug_mode: bool,
    /// After how many seconds an operation is given up.
    pub operation_timeout_secs: u64,
    /// The key for an outside service.
    pub api_key: Option<String>,
    /// The address of an outside service.
    pub api_endpoint: Option<String>,
    /// The name of the model.
    pub model_name: String,
    /// Whether the analyses beyond the basic ones are open.
    pub enable_advanced_analytics: bool,
    /// Whether transformations are open.
    pub enable_transformations: bool,
}

/// The mathematical value of an [`AiConfig`].
pub struct AiConfigView {
    pub enabled: bool,
    pub max_rows_per_operation: usize,
    pub max_context_size: usize,
    pub debug_mode: bool,
    pub operation_timeout_secs: u64,
    pub api_key: Option<Seq<char>>,
    pub api_endpoint: Option<Seq<char>>,
    pub model_name: Seq<char>,
    pub enable_advanced_analytics: bool,
    pub enable_transformations: bool,
}

impl DeepView for AiConfig {
    type V = AiConfigView;

    open spec fn deep_view(&self) -> AiConfigView {
        AiConfigView {
            enabled: self.enabled,
            max_rows_per_operation: self.max_rows_per_operation,
            max_context_size: self.max_context_size,
            debug_mode: self.debug_mode,
            operation_timeout_secs: self.operation_timeout_secs,
            api_key: self.api_key.deep_view(),
            api_endpoint: self.api_endpoint.deep_view(),
            model_name: self.model_name@,
            enable_advanced_analytics: self.enable_advanced_analytics,
            enable_transformations: self.enable_transformations,
        }
    }
}

/// What is wrong with a configuration.
#[derive(Clone, Copy, Debug, PartialEq, Eq, Structural)]
pub enum ConfigError {
    NoRows,
    NoContext,
    NoTimeout,
}

/// The configuration where nothing is set.
pub open spec fn default_config() -> AiConfigView {
    AiConfigView {
        enabled: true,
        max_rows_per_operation: 10000,
        max_context_size: 100000,
        debug_mode: false,
        operation_timeout_secs: 30,
        api_key: None,
        api_endpoint: None,
        model_name: "local"@,
        enable_advanced_analytics: false,
        enable_transformations: true,
    }
}

/// Whether a value switches something on: `true` in any case of the
/// letters, or `1`.
pub open spec fn is_on(value: Seq<char>) -> bool {
    lowercase(value) == "true"@ || value == "1"@
}

/// The configuration after the variable `name` was found set to `value`.
/// A number that cannot be read and a text that is empty change nothing,
/// and so does a variable that the configuration does not know.
pub open spec fn with_variable(config: AiConfigView, name: Seq<char>, value: Seq<char>) -> AiConfigView {
    if name == "AI_ENABLED"@ {
        AiConfigView { enabled: is_on(value), ..config }
    } else if name == "AI_MAX_ROWS_PER_OPERATION"@ {
        match parsed_usize(value) {
            Some(n) => AiConfigView { max_rows_per_operation: n, ..config },
            None => config,
        }
    } else if name == "AI_MAX_CONTEXT_SIZE"@ {
        match parsed_usize(value) {
            Some(n) => AiConfigView { max_context_size: n, ..config },
            None => config,
        }
    } else if name == "AI_DEBUG_MODE"@ {
        AiConfigView { debug_mode: is_on(value), ..config }
    } else if name == "AI_OPERATION_TIMEOUT_SECS"@ {
        match parsed_u64(value) {
            Some(n) => AiConfigView { operation_timeout_secs: n, ..config },
            None => config,
        }
    } else if name == "AI_API_KEY"@ {
        if value.len() > 0 {
            AiConfigView { api_key: Some(value), ..config }
        } else {
            config
        }
    } else if name == "AI_API_ENDPOINT"@ {
        if value.len() > 0 {
            AiConfigView { api_endpoint: Some(value), ..config }
        } else {
            config
        }
    } else if name == "AI_MODEL_NAME"@ {
        if value.len() > 0 {
            AiConfigView { model_name: value, ..config }
        } else {
            config
        }
    } else if name == "AI_ENABLE_ADVANCED_ANALYTICS"@ {
        AiConfigView { enable_advanced_analytics: is_on(value), ..config }
    } else if name == "AI_ENABLE_TRANSFORMATIONS"@ {
        AiConfigView { enable_transformations: is_on(value), ..config }
    } else {
        config
    }
}

/// What is wrong with a configuration, if anything: the limits and the
/// timeout must not be 0.
pub open spec fn config_fault(config: AiConfigView) -> Option<ConfigError> {
    if config.max_rows_per_operation == 0 {
        Some(ConfigError::NoRows)
    } else if config.max_context_size == 0 {
        Some(ConfigError::NoContext)
    } else if config.operation_timeout_secs == 0 {
        Some(ConfigError::NoTimeout)
    } else {
        None
    }
}

/// Whether a value switches something on.
pub fn switch_is_on(value: &str) -> (on: bool)
    ensures
        on == is_on(value@),
{
    let folded = lower(value);
    str_eq(folded.as_str(), "true") || str_eq(value, "1")
}

impl Default for AiConfig {
    fn default() -> (config: AiConfig)
        ensures
            config.deep_view() == default_config(),
    {
        AiConfig {
            enabled: true,
            max_rows_per_operation: 10000,
            max_context_size: 100000,
            debug_mode: false,
            operation_timeout_secs: 30,
            api_key: None,
            api_endpoint: None,
            model_name: String::from_str("local"),
            enable_advanced_analytics: false,
            enable_transformations: true,
        }
    }
}

impl AiConfig {
    /// The configuration after the variable `name` was found set to
    /// `value`.
    pub fn with_variable(self, name: &str, value: &str) -> (config: AiConfig)
        ensures
            config.deep_view() == with_variable(self.deep_view(), name@, value@),
    {
        let mut config = self;
        if str_eq(name, "AI_ENABLED") {
            config.enabled = switch_is_on(value);
        } else if str_eq(name, "AI_MAX_ROWS_PER_OPERATION") {
            if let Some(n) = parse_usize(value) {
                config.max_rows_per_operation = n;
            }
        } else if str_eq(name, "AI_MAX_CONTEXT_SIZE") {
            if let Some(n) = parse_usize(value) {
                config.max_context_size = n;
            }
        } else if str_eq(name, "AI_DEBUG_MODE") {
            config.debug_mode = switch_is_on(value);
        } else if str_eq(name, "AI_OPERATION_TIMEOUT_SECS") {
            if let Some(n) = parse_u64(value) {
                config.operation_timeout_secs = n;
            }
        } else if str_eq(name, "AI_API_KEY") {
            if !value.is_empty() {
                config.api_key = Some(String::from_str(value));
            }
        } else if str_eq(name, "AI_API_ENDPOINT") {
            if !value.is_empty() {
                config.api_endpoint = Some(String::from_str(value));
            }
        } else if str_eq(name, "AI_MODEL_NAME") {
            if !value.is_empty() {
                config.model_name = String::from_str(value);
            }
        } else if str_eq(name, "AI_ENABLE_ADVANCED_ANALYTICS") {
            config.enable_advanced_analytics = switch_is_on(value);
        } else if str_eq(name, "AI_ENABLE_TRANSFORMATIONS") {
            config.enable_transformations = switch_is_on(value);
        }
        config
    }

    /// The configuration that the variables `variables` give, each a name
    /// and a value, taken in their order from the configuration where
    /// nothing is set.
    pub fn from_variables(variables: &Vec<(String, String)>) -> (config: AiConfig)
        ensures
            config.deep_view() == configured(variables.deep_view(), variables.len() as int),
    {
        let mut config = AiConfig::default();
        let mut i: usize = 0;
        while i < variables.len()
            invariant
                i <= variables.len(),
                config.deep_view() == configured(variables.deep_view(), i as int),
            decreases variables.len() - i,
        {
            config = config.with_variable(variables[i].0.as_str(), variables[i].1.as_str());
            i += 1;
        }
        config
    }

    /// Checks the limits and the timeout.
    pub fn validate(&self) -> (r: Result<(), ConfigError>)
        ensures
            match config_fault(self.deep_view()) {
                Some(e) => r == Err::<(), ConfigError>(e),
                None => r is Ok,
            },
    {
        if self.max_rows_per_operation == 0 {
            return Err(ConfigError::NoRows);
        }
        if self.max_context_size == 0 {
            return Err(ConfigError::NoContext);
        }
        if self.operation_timeout_secs == 0 {
            return Err(ConfigError::NoTimeout);
        }
        Ok(())
    }

    /// Whether the assistant is in use.
    pub fn is_enabled(&self) -> (b: bool)
        ensures
            b == self.enabled,
    {
        self.enabled
    }

    /// Whether an outside service is configured: both its key and its
    /// address.
    pub fn has_external_api(&self) -> (b: bool)
        ensures
            b == (self.api_key is Some && self.api_endpoint is Some),
    {
        self.api_key.is_some() && self.api_endpoint.is_some()
    }

    /// The key for the outside service.
    pub fn get_api_key(&self) -> (key: Option<&str>)
        ensures
            crate::json::opt_str_view(key) == self.api_key.deep_view(),
    {
        match &self.api_key {
            Some(k) => Some(k.as_str()),
            None => None,
        }
    }

    /// The address of the outside service.
    pub fn get_api_endpoint(&self) -> (address: Option<&str>)
        ensures
            crate::json::opt_str_view(address) == self.api_endpoint.deep_view(),
    {
        match &self.api_endpoint {
            Some(a) => Some(a.as_str()),
            None => None,
        }
    }
}

/// The configuration that the first `upto` variables give.
pub open spec fn configured(variables: Seq<(Seq<char>, Seq<char>)>, upto: int) -> AiConfigView
    decreases upto,
{
    if upto <= 0 || upto > variables.len() {
        default_config()
    } else {
        with_variable(
            configured(variables, upto - 1),
            variables[upto - 1].0,
            variables[upto - 1].1,
        )
    }
}

impl ConfigError {
    /// The message of the fault.
    pub open spec fn message_of(self) -> Seq<char> {
        match self {
            ConfigError::NoRows => "max_rows_per_operation must be greater than 0"@,
            ConfigError::NoContext => "max_context_size must be greater than 0"@,
            ConfigError::NoTimeout => "operation_timeout_secs must be greater than 0"@,
        }
    }

    /// The message of the fault.
    pub fn message(&self) -> (m: String)
        ensures
            m@ == self.message_of(),
    {
        match self {
            ConfigError::NoRows => String::from_str("max_rows_per_operation must be greater than 0"),
            ConfigError::NoContext => String::from_str("max_context_size must be greater than 0"),
            ConfigError::NoTimeout => String::from_str(
                "operation_timeout_secs must be greater than 0",
            ),
        }
    }
}

} // verus!
