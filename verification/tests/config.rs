use push_to_talk::config::{
    default_llm_endpoint, default_llm_model, default_llm_system_prompt, default_use_realtime_asr,
    AppConfig, LlmConfig,
};

#[test]
fn realtime_is_the_default_mode() {
    assert!(default_use_realtime_asr());
}

#[test]
fn llm_defaults_name_endpoint_and_model() {
    assert_eq!(
        default_llm_endpoint(),
        "https://open.bigmodel.cn/api/paas/v4/chat/completions"
    );
    assert_eq!(default_llm_model(), "glm-4-flash-250414");
    assert!(default_llm_system_prompt().starts_with("你是一个语音转写润色助手"));
}

#[test]
fn default_llm_config_has_no_key() {
    let config = LlmConfig::default();
    assert_eq!(config.endpoint, default_llm_endpoint());
    assert_eq!(config.model, default_llm_model());
    assert_eq!(config.api_key, "");
    assert_eq!(config.system_prompt, default_llm_system_prompt());
}

#[test]
fn new_config_is_empty_and_streams() {
    let config = AppConfig::new();
    assert_eq!(config.dashscope_api_key, "");
    assert_eq!(config.siliconflow_api_key, "");
    assert!(config.use_realtime_asr);
    assert!(!config.enable_llm_post_process);
    assert_eq!(config.llm_config.model, "glm-4-flash-250414");
}
