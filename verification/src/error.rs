//! The failures that cross the pipeline's boundary.

use crate::encoding::{decimal, push_decimal};
use vstd::prelude::*;
use vstd::string::*;

verus! {

/// Why an utterance produced no transcript.
#[derive(Debug, Clone)]
pub enum PipelineError {
    /// No input device, or the device refused the configuration.
    Device(String),
    /// The streaming connection could not be opened, or broke.
    Connect(String),
    /// The backend refused the credentials.
    Auth(String),
    /// No result arrived within the time allowed.
    Timeout,
    /// A batch backend answered with a status outside the success range.
    Api { status: u16, body: String },
    /// A backend said something that the protocol does not allow for: an
    /// error event, an answer without a transcript, a stream that ended
    /// before any result.
    Protocol(String),
    /// An internal queue was closed while it was still needed.
    ChannelClosed,
}

/// The mathematical value of a [`PipelineError`].
pub enum ErrorModel {
    Device(Seq<char>),
    Connect(Seq<char>),
    Auth(Seq<char>),
    Timeout,
    Api { status: u16, body: Seq<char> },
    Protocol(Seq<char>),
    ChannelClosed,
}

impl View for PipelineError {
    type V = ErrorModel;

    open spec fn view(&self) -> ErrorModel {
        match self {
            PipelineError::Device(m) => ErrorModel::Device(m@),
            PipelineError::Connect(m) => ErrorModel::Connect(m@),
            PipelineError::Auth(m) => ErrorModel::Auth(m@),
            PipelineError::Timeout => ErrorModel::Timeout,
            PipelineError::Api { status, body } => ErrorModel::Api { status: *status, body: body@ },
            PipelineError::Protocol(m) => ErrorModel::Protocol(m@),
            PipelineError::ChannelClosed => ErrorModel::ChannelClosed,
        }
    }
}

/// The mathematical value of a transcription's outcome.
pub open spec fn outcome_view(outcome: Result<String, PipelineError>) -> Result<
    Seq<char>,
    ErrorModel,
> {
    match outcome {
        Ok(text) => Ok(text@),
        Err(error) => Err(error@),
    }
}

impl ErrorModel {
    /// The text that the failure carries, empty where it carries none.
    pub open spec fn detail(self) -> Seq<char> {
        match self {
            ErrorModel::Device(m) => m,
            ErrorModel::Connect(m) => m,
            ErrorModel::Auth(m) => m,
            ErrorModel::Timeout => Seq::empty(),
            ErrorModel::Api { status, body } => body,
            ErrorModel::Protocol(m) => m,
            ErrorModel::ChannelClosed => Seq::empty(),
        }
    }
}

impl ErrorModel {
    /// The failure in words.
    pub open spec fn description(self) -> Seq<char> {
        match self {
            ErrorModel::Device(m) => "音频设备错误: "@ + m,
            ErrorModel::Connect(m) => "连接失败: "@ + m,
            ErrorModel::Auth(m) => "认证失败: "@ + m,
            ErrorModel::Timeout => "请求超时"@,
            ErrorModel::Api { status, body } => "API 请求失败 ("@ + decimal(status as nat) + "): "@
                + body,
            ErrorModel::Protocol(m) => "协议错误: "@ + m,
            ErrorModel::ChannelClosed => "通道已关闭"@,
        }
    }
}

impl PipelineError {
    /// The failure in words.
    pub fn describe(&self) -> (text: String)
        ensures
            text@ == self@.description(),
    {
        match self {
            PipelineError::Device(m) => String::from_str("音频设备错误: ").concat(m.as_str()),
            PipelineError::Connect(m) => String::from_str("连接失败: ").concat(m.as_str()),
            PipelineError::Auth(m) => String::from_str("认证失败: ").concat(m.as_str()),
            PipelineError::Timeout => String::from_str("请求超时"),
            PipelineError::Api { status, body } => {
                let mut text = String::from_str("API 请求失败 (");
                push_decimal(&mut text, *status as u128);
                text.append("): ");
                text.append(body.as_str());
                text
            },
            PipelineError::Protocol(m) => String::from_str("协议错误: ").concat(m.as_str()),
            PipelineError::ChannelClosed => String::from_str("通道已关闭"),
        }
    }

    /// A copy of this failure.
    pub fn duplicate(&self) -> (copy: PipelineError)
        ensures
            copy@ == self@,
    {
        match self {
            PipelineError::Device(m) => PipelineError::Device(m.clone()),
            PipelineError::Connect(m) => PipelineError::Connect(m.clone()),
            PipelineError::Auth(m) => PipelineError::Auth(m.clone()),
            PipelineError::Timeout => PipelineError::Timeout,
            PipelineError::Api { status, body } => PipelineError::Api {
                status: *status,
                body: body.clone(),
            },
            PipelineError::Protocol(m) => PipelineError::Protocol(m.clone()),
            PipelineError::ChannelClosed => PipelineError::ChannelClosed,
        }
    }

    /// The text that the failure carries, empty where it carries none.
    pub fn detail(&self) -> (text: String)
        ensures
            text@ == self@.detail(),
    {
        match self {
            PipelineError::Device(m) => m.clone(),
            PipelineError::Connect(m) => m.clone(),
            PipelineError::Auth(m) => m.clone(),
            PipelineError::Timeout => String::new(),
            PipelineError::Api { status, body } => body.clone(),
            PipelineError::Protocol(m) => m.clone(),
            PipelineError::ChannelClosed => String::new(),
        }
    }
}

} // verus!
