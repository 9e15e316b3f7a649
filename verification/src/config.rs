//! Application settings and their defaults.

use vstd::prelude::*;
use vstd::string::*;

verus! {

/// Settings of the text-polishing service.
#[derive(Debug, Clone)]
pub struct LlmConfig {
    /// Address of the chat-completion endpoint.
    pub endpoint: String,
    /// Name of the model.
    pub model: String,
    /// Bearer token; empty until the user supplies one.
    pub api_key: String,
    /// Instruction handed to the model before the transcript.
    pub system_prompt: String,
}

/// Settings of the whole application.
#[derive(Debug, Clone)]
pub struct AppConfig {
    /// Bearer token of the primary recognition backend.
    pub dashscope_api_key: String,
    /// Bearer token of the secondary backend; empty disables the fallback.
    pub siliconflow_api_key: String,
    /// Whether audio is streamed while it is recorded.
    pub use_realtime_asr: bool,
    /// Whether transcripts are polished after recognition.
    pub enable_llm_post_process: bool,
    /// Settings of the polishing service.
    pub llm_config: LlmConfig,
}

/// The endpoint used when none is configured.
pub open spec fn llm_endpoint_default() -> Seq<char> {
    "https://open.bigmodel.cn/api/paas/v4/chat/completions"@
}

/// The model used when none is configured.
pub open spec fn llm_model_default() -> Seq<char> {
    "glm-4-flash-250414"@
}

/// The system prompt used when none is configured.
pub open spec fn llm_system_prompt_default() -> Seq<char> {
    "你是一个语音转写润色助手。请在不改变原意的前提下：1）删除重复或意义相近的句子；2）合并同一主题的内容；3）去除「嗯」「啊」等口头禅；4）保留数字与关键信息；5）相关数字和时间不要使用中文；6）整理成自然的段落。输出纯文本即可。"@
}

pub fn default_llm_endpoint() -> (endpoint: String)
    ensures
        endpoint@ == llm_endpoint_default(),
{
    String::from_str("https://open.bigmodel.cn/api/paas/v4/chat/completions")
}

pub fn default_llm_model() -> (model: String)
    ensures
        model@ == llm_model_default(),
{
    String::from_str("glm-4-flash-250414")
}

pub fn default_llm_system_prompt() -> (prompt: String)
    ensures
        prompt@ == llm_system_prompt_default(),
{
    String::from_str(
        "你是一个语音转写润色助手。请在不改变原意的前提下：1）删除重复或意义相近的句子；2）合并同一主题的内容；3）去除「嗯」「啊」等口头禅；4）保留数字与关键信息；5）相关数字和时间不要使用中文；6）整理成自然的段落。输出纯文本即可。",
    )
}

/// Streaming recognition is the default mode.
pub fn default_use_realtime_asr() -> (enabled: bool)
    ensures
        enabled,
{
    true
}

impl LlmConfig {
    /// Whether every field holds its default.
    pub open spec fn is_default(&self) -> bool {
        &&& self.endpoint@ == llm_endpoint_default()
        &&& self.model@ == llm_model_default()
        &&& self.api_key@ == Seq::<char>::empty()
        &&& self.system_prompt@ == llm_system_prompt_default()
    }
}

impl Default for LlmConfig {
    fn default() -> (config: LlmConfig)
        ensures
            config.is_default(),
    {
        LlmConfig {
            endpoint: default_llm_endpoint(),
            model: default_llm_model(),
            api_key: String::new(),
            system_prompt: default_llm_system_prompt(),
        }
    }
}

impl AppConfig {
    /// Whether this is the configuration of a fresh installation.
    pub open spec fn is_initial(&self) -> bool {
        &&& self.dashscope_api_key@ == Seq::<char>::empty()
        &&& self.siliconflow_api_key@ == Seq::<char>::empty()
        &&& self.use_realtime_asr
        &&& !self.enable_llm_post_process
        &&& self.llm_config.is_default()
    }

    /// Whether a secondary backend is configured.
    pub open spec fn has_fallback(&self) -> bool {
        self.siliconflow_api_key@.len() > 0
    }

    /// The configuration that the front end's settings stand for: the two
    /// credentials, streaming recognition unless it is switched off, and
    /// polishing off with its defaults.
    pub fn from_settings(api_key: String, fallback_api_key: String, use_realtime: Option<bool>) -> (config:
        AppConfig)
        ensures
            config.dashscope_api_key@ == api_key@,
            config.siliconflow_api_key@ == fallback_api_key@,
            config.use_realtime_asr == (use_realtime != Some(false)),
            !config.enable_llm_post_process,
            config.llm_config.is_default(),
            config.has_fallback() == (fallback_api_key@.len() > 0),
    {
        AppConfig {
            dashscope_api_key: api_key,
            siliconflow_api_key: fallback_api_key,
            use_realtime_asr: match use_realtime {
                Some(flag) => flag,
                None => default_use_realtime_asr(),
            },
            enable_llm_post_process: false,
            llm_config: LlmConfig::default(),
        }
    }

    /// Tests whether a secondary backend is configured.
    pub fn fallback_enabled(&self) -> (enabled: bool)
        ensures
            enabled == self.has_fallback(),
    {
        !self.siliconflow_api_key.as_str().is_empty()
    }

    /// The configuration of a fresh installation: no credentials, streaming
    /// recognition on, polishing off.
    pub fn new() -> (config: AppConfig)
        ensures
            config.is_initial(),
            !config.has_fallback(),
    {
        AppConfig {
            dashscope_api_key: String::new(),
            siliconflow_api_key: String::new(),
            use_realtime_asr: default_use_realtime_asr(),
            enable_llm_post_process: false,
            llm_config: LlmConfig::default(),
        }
    }
}

} // verus!
