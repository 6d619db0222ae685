//! The assistant: which service it asks, what it allows, and what it shows
//! of a transformation before the user confirms it.

use vstd::prelude::*;
use vstd::string::*;
use crate::ai::analyzer::{
    distribution_found, duplicates_details, duplicates_summary, repeat_entries, AnalysisError,
    AnalysisResult, DataAnalyzer,
};
use crate::ai::config::{AiConfig, AiConfigView};
use crate::ai::intent::{
    detect_intent, intent_of, AnalysisType, Intent, IntentError, IntentType, IntentTypeView,
};
use crate::ai::llm_client::LlmProvider;
use crate::ai::transformer::{
    target_columns, transformed, DataTransformer, TransformError, TransformErrorView,
};
use crate::ai_script::models::{DataChange, DataChangeView};
use crate::text::{
    chars_contain, chars_start_with, contains, lowercase, starts_with, to_chars,
};

verus! {

/// One changed cell as shown to the user before a transformation is
/// applied.
#[derive(Clone, Debug, PartialEq, Eq)]
pub struct ChangePreview {
    pub row_index: usize,
    pub column_index: usize,
    pub old_value: String,
    pub new_value: String,
}

impl DeepView for ChangePreview {
    type V = DataChangeView;

    open spec fn deep_view(&self) -> DataChangeView {
        DataChangeView {
            row_index: self.row_index,
            column_index: self.column_index,
            old_value: self.old_value@,
            new_value: self.new_value@,
        }
    }
}

/// Why the assistant does not carry out an intent.
#[derive(Clone, Debug, PartialEq, Eq)]
pub enum AssistantError {
    /// The assistant is switched off.
    Disabled,
    /// The analysis is beyond the basic ones, which alone are open.
    AdvancedAnalyticsDisabled,
    /// Transformations are not open.
    TransformationsDisabled,
    /// The analysis computes with numbers that have a fractional part.
    AnalysisNotHere,
    /// The operation failed.
    Transform(TransformError),
    /// The request was not understood.
    Intent(IntentError),
}

/// The mathematical value of an [`AssistantError`].
pub enum AssistantErrorView {
    Disabled,
    AdvancedAnalyticsDisabled,
    TransformationsDisabled,
    AnalysisNotHere,
    Transform(TransformErrorView),
    Intent(IntentError),
}

impl DeepView for AssistantError {
    type V = AssistantErrorView;

    open spec fn deep_view(&self) -> AssistantErrorView {
        match self {
            AssistantError::Disabled => AssistantErrorView::Disabled,
            AssistantError::AdvancedAnalyticsDisabled => AssistantErrorView::AdvancedAnalyticsDisabled,
            AssistantError::TransformationsDisabled => AssistantErrorView::TransformationsDisabled,
            AssistantError::AnalysisNotHere => AssistantErrorView::AnalysisNotHere,
            AssistantError::Transform(e) => AssistantErrorView::Transform(e.deep_view()),
            AssistantError::Intent(e) => AssistantErrorView::Intent(*e),
        }
    }
}

/// The service that a configuration asks for, by the name of its model and
/// by its address. Without a key the work is done locally.
pub open spec fn provider_for(config: AiConfigView) -> LlmProvider {
    if config.api_key is None {
        LlmProvider::Local
    } else if starts_with(config.model_name, "gpt"@) || (config.api_endpoint is Some && contains(
        config.api_endpoint->Some_0,
        "openai"@,
    )) {
        LlmProvider::OpenAI
    } else if starts_with(config.model_name, "gemini"@) || (config.api_endpoint is Some
        && contains(config.api_endpoint->Some_0, "googleapis"@)) {
        LlmProvider::Gemini
    } else {
        LlmProvider::Local
    }
}

/// The service that a configuration asks for when scripts are generated:
/// by the name of its model alone.
pub open spec fn generator_for(config: AiConfigView) -> LlmProvider {
    if config.api_key is None {
        LlmProvider::Local
    } else if starts_with(config.model_name, "gpt"@) {
        LlmProvider::OpenAI
    } else if starts_with(config.model_name, "gemini"@) {
        LlmProvider::Gemini
    } else {
        LlmProvider::Local
    }
}

/// Whether an analysis is one of the basic ones.
pub open spec fn is_basic(analysis_type: AnalysisType) -> bool {
    analysis_type == AnalysisType::Statistics || analysis_type == AnalysisType::Summary
        || analysis_type == AnalysisType::Missing
}

/// Why an intent is not allowed, if it is not.
pub open spec fn refusal(config: AiConfigView, intent_type: IntentTypeView) -> Option<
    AssistantErrorView,
> {
    if !config.enabled {
        Some(AssistantErrorView::Disabled)
    } else {
        match intent_type {
            IntentTypeView::Analysis { analysis_type } => if !config.enable_advanced_analytics
                && !is_basic(analysis_type) {
                Some(AssistantErrorView::AdvancedAnalyticsDisabled)
            } else {
                None
            },
            IntentTypeView::Transformation { operation } => if !config.enable_transformations {
                Some(AssistantErrorView::TransformationsDisabled)
            } else {
                None
            },
        }
    }
}

/// How many of `count` rows an operation takes.
pub open spec fn limited(config: AiConfigView, count: nat) -> nat {
    if config.max_rows_per_operation < count {
        config.max_rows_per_operation as nat
    } else {
        count
    }
}

/// The first changes, ten at most.
pub open spec fn previewed(changes: Seq<DataChangeView>) -> Seq<DataChangeView> {
    if changes.len() > 10 {
        changes.subrange(0, 10)
    } else {
        changes
    }
}

/// What a transformation proposes: its changes, and the first of them for
/// the user to see.
#[derive(Clone, Debug, PartialEq, Eq)]
pub struct Proposal {
    pub changes: Vec<DataChange>,
    pub preview: Vec<ChangePreview>,
}

/// What the assistant answers.
#[derive(Debug, PartialEq, Eq)]
pub enum AiResponse {
    Analysis(AnalysisResult),
    Transformation(Proposal),
}

/// The assistant.
pub struct AiAssistant {
    analyzer: DataAnalyzer,
    transformer: DataTransformer,
    config: AiConfig,
}

impl AiAssistant {
    /// The configuration of the assistant.
    pub closed spec fn settings(&self) -> AiConfigView {
        self.config.deep_view()
    }

    /// An assistant with the given configuration.
    pub fn with_config(config: AiConfig) -> (assistant: AiAssistant)
        ensures
            assistant.settings() == config.deep_view(),
    {
        AiAssistant { analyzer: DataAnalyzer::new(), transformer: DataTransformer::new(), config }
    }

    /// The configuration of the assistant.
    pub fn config(&self) -> (config: &AiConfig)
        ensures
            config.deep_view() == self.settings(),
    {
        &self.config
    }

    /// Whether the assistant is in use.
    pub fn is_enabled(&self) -> (b: bool)
        ensures
            b == self.settings().enabled,
    {
        self.config.is_enabled()
    }

    /// The service that a configuration asks for.
    pub fn choose_provider(config: &AiConfig) -> (provider: LlmProvider)
        ensures
            provider == provider_for(config.deep_view()),
    {
        if config.api_key.is_none() {
            return LlmProvider::Local;
        }
        let model = to_chars(config.model_name.as_str());
        let endpoint: Vec<char> = match &config.api_endpoint {
            Some(e) => to_chars(e.as_str()),
            None => Vec::new(),
        };
        let has_endpoint = config.api_endpoint.is_some();
        if chars_start_with(&model, &to_chars("gpt")) || (has_endpoint && chars_contain(
            &endpoint,
            &to_chars("openai"),
        )) {
            LlmProvider::OpenAI
        } else if chars_start_with(&model, &to_chars("gemini")) || (has_endpoint && chars_contain(
            &endpoint,
            &to_chars("googleapis"),
        )) {
            LlmProvider::Gemini
        } else {
            LlmProvider::Local
        }
    }

    /// The service that a configuration asks for when scripts are
    /// generated.
    pub fn choose_generator(config: &AiConfig) -> (provider: LlmProvider)
        ensures
            provider == generator_for(config.deep_view()),
    {
        if config.api_key.is_none() {
            return LlmProvider::Local;
        }
        let model = to_chars(config.model_name.as_str());
        if chars_start_with(&model, &to_chars("gpt")) {
            LlmProvider::OpenAI
        } else if chars_start_with(&model, &to_chars("gemini")) {
            LlmProvider::Gemini
        } else {
            LlmProvider::Local
        }
    }

    /// The intent of a request, read from its keywords, where the assistant
    /// is in use.
    pub fn detect_intent(&self, prompt: &str) -> (r: Result<Intent, AssistantError>)
        ensures
            !self.settings().enabled ==> r is Err && r->Err_0.deep_view()
                == AssistantErrorView::Disabled,
            self.settings().enabled ==> match intent_of(prompt@, lowercase(prompt@)) {
                Some(intent) => r is Ok && r->Ok_0.deep_view() == intent,
                None => r is Err && r->Err_0.deep_view() == AssistantErrorView::Intent(
                    IntentError::NotUnderstood,
                ),
            },
    {
        if !self.config.enabled {
            return Err(AssistantError::Disabled);
        }
        match detect_intent(prompt) {
            Ok(intent) => Ok(intent),
            Err(e) => Err(AssistantError::Intent(e)),
        }
    }

    /// Checks that the assistant allows an intent.
    pub fn allow(&self, intent: &Intent) -> (r: Result<(), AssistantError>)
        ensures
            match refusal(self.settings(), intent.intent_type.deep_view()) {
                Some(e) => r is Err && r->Err_0.deep_view() == e,
                None => r is Ok,
            },
    {
        if !self.config.enabled {
            return Err(AssistantError::Disabled);
        }
        match &intent.intent_type {
            IntentType::Analysis { analysis_type } => {
                if !self.config.enable_advanced_analytics {
                    match analysis_type {
                        AnalysisType::Statistics => {},
                        AnalysisType::Summary => {},
                        AnalysisType::Missing => {},
                        _ => {
                            return Err(AssistantError::AdvancedAnalyticsDisabled);
                        },
                    }
                }
                Ok(())
            },
            IntentType::Transformation { .. } => {
                if !self.config.enable_transformations {
                    return Err(AssistantError::TransformationsDisabled);
                }
                Ok(())
            },
        }
    }

    /// How many of `count` rows an operation takes.
    pub fn row_limit(&self, count: usize) -> (limit: usize)
        ensures
            limit == limited(self.settings(), count as nat),
    {
        if self.config.max_rows_per_operation < count {
            self.config.max_rows_per_operation
        } else {
            count
        }
    }

    /// The first changes, ten at most, for the user to see.
    pub fn generate_preview(&self, changes: &Vec<DataChange>) -> (preview: Vec<ChangePreview>)
        ensures
            preview.deep_view() == previewed(changes.deep_view()),
    {
        let count: usize = if changes.len() > 10 {
            10
        } else {
            changes.len()
        };
        let mut preview: Vec<ChangePreview> = Vec::new();
        let mut i: usize = 0;
        while i < count
            invariant
                i <= count <= changes.len(),
                preview.len() == i,
                forall|k: int| 0 <= k < i ==> (#[trigger] preview[k]).deep_view() == changes[k].deep_view(),
            decreases count - i,
        {
            let change = &changes[i];
            preview.push(
                ChangePreview {
                    row_index: change.row_index,
                    column_index: change.column_index,
                    old_value: change.old_value.clone(),
                    new_value: change.new_value.clone(),
                },
            );
            i += 1;
        }
        assert(preview.deep_view() =~= previewed(changes.deep_view()));
        preview
    }

    /// The first rows of a table, as many as an operation takes.
    pub fn take_rows(&self, rows: &Vec<Vec<String>>) -> (taken: Vec<Vec<String>>)
        ensures
            taken.deep_view() == rows.deep_view().subrange(
                0,
                limited(self.settings(), rows.len() as nat) as int,
            ),
    {
        let limit = self.row_limit(rows.len());
        let mut taken: Vec<Vec<String>> = Vec::new();
        let mut i: usize = 0;
        while i < limit
            invariant
                i <= limit <= rows.len(),
                taken.len() == i,
                forall|k: int| 0 <= k < i ==> (#[trigger] taken[k]).deep_view() == rows[k].deep_view(),
            decreases limit - i,
        {
            let copy = rows[i].clone();
            assert(copy.deep_view() =~= rows[i as int].deep_view());
            taken.push(copy);
            i += 1;
        }
        assert(taken.deep_view() =~= rows.deep_view().subrange(0, limit as int));
        taken
    }

    /// Carries out an intent that the assistant allows, on as many rows as
    /// an operation takes: a transformation gives its changes and the first
    /// of them for the user to see, an analysis its report.
    pub fn execute_intent(&self, intent: &Intent, headers: &Vec<String>, rows: &Vec<Vec<String>>) -> (r:
        Result<AiResponse, AssistantError>)
        ensures
            match refusal(self.settings(), intent.intent_type.deep_view()) {
                Some(e) => r is Err && r->Err_0.deep_view() == e,
                None => {
                    let taken = rows.deep_view().subrange(
                        0,
                        limited(self.settings(), rows.len() as nat) as int,
                    );
                    match intent.intent_type.deep_view() {
                        IntentTypeView::Analysis { analysis_type } => match analysis_type {
                            AnalysisType::Duplicates => r is Ok && r->Ok_0 is Analysis
                                && r->Ok_0->Analysis_0.details@ == duplicates_details(taken)
                                && r->Ok_0->Analysis_0.summary@ == duplicates_summary(
                                repeat_entries(taken, taken.len() as int).len(),
                                taken.len(),
                            ),
                            AnalysisType::Summary | AnalysisType::Correlation => r is Err
                                && r->Err_0.deep_view() == AssistantErrorView::AnalysisNotHere,
                            AnalysisType::Distribution => match target_columns(
                                headers.deep_view(),
                                intent.target_scope.deep_view(),
                            ) {
                                Ok(columns) => r is Ok && r->Ok_0 is Analysis && distribution_found(
                                    r->Ok_0->Analysis_0,
                                    headers.deep_view(),
                                    taken,
                                    columns,
                                ),
                                Err(e) => r is Err && r->Err_0.deep_view()
                                    == AssistantErrorView::Transform(e),
                            },
                            _ => match target_columns(
                                headers.deep_view(),
                                intent.target_scope.deep_view(),
                            ) {
                                Ok(columns) => r is Err && r->Err_0.deep_view()
                                    == AssistantErrorView::AnalysisNotHere,
                                Err(e) => r is Err && r->Err_0.deep_view()
                                    == AssistantErrorView::Transform(e),
                            },
                        },
                        IntentTypeView::Transformation { operation } => match transformed(
                            operation,
                            headers.deep_view(),
                            taken,
                            intent.target_scope.deep_view(),
                        ) {
                            Ok(changes) => r is Ok && r->Ok_0 is Transformation
                                && r->Ok_0->Transformation_0.changes.deep_view() == changes
                                && r->Ok_0->Transformation_0.preview.deep_view() == previewed(
                                changes,
                            ),
                            Err(e) => r is Err && r->Err_0.deep_view()
                                == AssistantErrorView::Transform(e),
                        },
                    }
                },
            },
    {
        match self.allow(intent) {
            Err(e) => {
                return Err(e);
            },
            Ok(()) => {},
        }
        let taken = self.take_rows(rows);
        match &intent.intent_type {
            IntentType::Analysis { analysis_type } => {
                match self.analyzer.analyze(
                    analysis_type,
                    headers.as_slice(),
                    taken.as_slice(),
                    &intent.target_scope,
                ) {
                    Ok(result) => Ok(AiResponse::Analysis(result)),
                    Err(AnalysisError::NotHere) => Err(AssistantError::AnalysisNotHere),
                    Err(AnalysisError::Columns(e)) => Err(AssistantError::Transform(e)),
                }
            },
            IntentType::Transformation { operation } => {
                match self.transformer.transform(
                    operation,
                    headers.as_slice(),
                    taken.as_slice(),
                    &intent.target_scope,
                ) {
                    Ok(changes) => {
                        let preview = self.generate_preview(&changes);
                        Ok(AiResponse::Transformation(Proposal { changes, preview }))
                    },
                    Err(e) => Err(AssistantError::Transform(e)),
                }
            },
        }
    }
}

impl AssistantError {
    /// The message of the failure.
    pub open spec fn message_of(self) -> Seq<char> {
        match self {
            AssistantError::Disabled => "AI features are disabled"@,
            AssistantError::AdvancedAnalyticsDisabled => "Advanced analytics are disabled. Enable AI_ENABLE_ADVANCED_ANALYTICS in configuration."@,
            AssistantError::TransformationsDisabled => "Data transformations are disabled. Enable AI_ENABLE_TRANSFORMATIONS in configuration."@,
            AssistantError::AnalysisNotHere => "The analysis needs arithmetic on fractional numbers"@,
            AssistantError::Transform(e) => e.message_of(),
            AssistantError::Intent(e) => e.message_of(),
        }
    }

    /// The message of the failure.
    pub fn message(&self) -> (m: String)
        ensures
            m@ == self.message_of(),
    {
        match self {
            AssistantError::Disabled => String::from_str("AI features are disabled"),
            AssistantError::AdvancedAnalyticsDisabled => String::from_str(
                "Advanced analytics are disabled. Enable AI_ENABLE_ADVANCED_ANALYTICS in configuration.",
            ),
            AssistantError::TransformationsDisabled => String::from_str(
                "Data transformations are disabled. Enable AI_ENABLE_TRANSFORMATIONS in configuration.",
            ),
            AssistantError::AnalysisNotHere => String::from_str(
                "The analysis needs arithmetic on fractional numbers",
            ),
            AssistantError::Transform(e) => e.message(),
            AssistantError::Intent(e) => e.message(),
        }
    }
}

} // verus!
