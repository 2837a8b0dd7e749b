//! The errors that the components report.

use vstd::prelude::*;
use vstd::string::StringExecFns;
use crate::text::concat2;

verus! {

/// What went wrong. Where the cause came from the network, the disk or a
/// decoder, the variant holds its description.
#[derive(Debug)]
pub enum AppError {
    LoginRequired(String),
    HttpError(String),
    JsonError(String),
    IoError(String),
    ConfigError(String),
    ParseError(String),
    ApiError(String),
    Timeout(String),
    Cancelled,
    ProxyError(String),
    Other(String),
}

pub enum AppErrorView {
    LoginRequired(Seq<char>),
    HttpError(Seq<char>),
    JsonError(Seq<char>),
    IoError(Seq<char>),
    ConfigError(Seq<char>),
    ParseError(Seq<char>),
    ApiError(Seq<char>),
    Timeout(Seq<char>),
    Cancelled,
    ProxyError(Seq<char>),
    Other(Seq<char>),
}

impl View for AppError {
    type V = AppErrorView;

    open spec fn view(&self) -> AppErrorView {
        match *self {
            AppError::LoginRequired(m) => AppErrorView::LoginRequired(m@),
            AppError::HttpError(m) => AppErrorView::HttpError(m@),
            AppError::JsonError(m) => AppErrorView::JsonError(m@),
            AppError::IoError(m) => AppErrorView::IoError(m@),
            AppError::ConfigError(m) => AppErrorView::ConfigError(m@),
            AppError::ParseError(m) => AppErrorView::ParseError(m@),
            AppError::ApiError(m) => AppErrorView::ApiError(m@),
            AppError::Timeout(m) => AppErrorView::Timeout(m@),
            AppError::Cancelled => AppErrorView::Cancelled,
            AppError::ProxyError(m) => AppErrorView::ProxyError(m@),
            AppError::Other(m) => AppErrorView::Other(m@),
        }
    }
}

impl DeepView for AppError {
    type V = AppErrorView;

    open spec fn deep_view(&self) -> AppErrorView {
        self@
    }
}

impl AppErrorView {
    /// The message for the log: the kind of the error, then its detail.
    pub open spec fn display(self) -> Seq<char> {
        match self {
            AppErrorView::LoginRequired(m) => "Login required: "@ + m,
            AppErrorView::HttpError(m) => "HTTP request failed: "@ + m,
            AppErrorView::JsonError(m) => "JSON parse error: "@ + m,
            AppErrorView::IoError(m) => "IO error: "@ + m,
            AppErrorView::ConfigError(m) => "Configuration error: "@ + m,
            AppErrorView::ParseError(m) => "Parse error: "@ + m,
            AppErrorView::ApiError(m) => "API error: "@ + m,
            AppErrorView::Timeout(m) => "Timeout: "@ + m,
            AppErrorView::Cancelled => "Cancelled"@,
            AppErrorView::ProxyError(m) => "Proxy error: "@ + m,
            AppErrorView::Other(m) => m,
        }
    }

    /// The message for the user.
    pub open spec fn frontend(self) -> Seq<char> {
        match self {
            AppErrorView::LoginRequired(_) => "登录已失效，请重新扫码"@,
            AppErrorView::HttpError(m) => "网络请求失败: "@ + m,
            AppErrorView::JsonError(m) => "数据解析失败: "@ + m,
            AppErrorView::IoError(m) => "文件操作失败: "@ + m,
            AppErrorView::ConfigError(m) => "配置错误: "@ + m,
            AppErrorView::ParseError(m) => "解析错误: "@ + m,
            AppErrorView::ApiError(m) => "API 错误: "@ + m,
            AppErrorView::Timeout(m) => "超时: "@ + m,
            AppErrorView::Cancelled => "操作已取消"@,
            AppErrorView::ProxyError(m) => "代理错误: "@ + m,
            AppErrorView::Other(m) => m,
        }
    }
}

impl From<String> for AppError {
    /// An error of no particular kind that holds `message`.
    fn from(message: String) -> (r: AppError) {
        AppError::Other(message)
    }
}

impl vstd::std_specs::convert::FromSpecImpl<String> for AppError {
    open spec fn obeys_from_spec() -> bool {
        true
    }

    open spec fn from_spec(message: String) -> AppError {
        AppError::Other(message)
    }
}

impl AppError {
    /// An error of no particular kind that holds `message`.
    pub fn from_message(message: &str) -> (r: AppError)
        ensures
            r@ == AppErrorView::Other(message@),
    {
        AppError::Other(String::from_str(message))
    }

    /// The message for the log.
    pub fn to_display_string(&self) -> (r: String)
        ensures
            r@ == self@.display(),
    {
        match self {
            AppError::LoginRequired(m) => concat2("Login required: ", m.as_str()),
            AppError::HttpError(m) => concat2("HTTP request failed: ", m.as_str()),
            AppError::JsonError(m) => concat2("JSON parse error: ", m.as_str()),
            AppError::IoError(m) => concat2("IO error: ", m.as_str()),
            AppError::ConfigError(m) => concat2("Configuration error: ", m.as_str()),
            AppError::ParseError(m) => concat2("Parse error: ", m.as_str()),
            AppError::ApiError(m) => concat2("API error: ", m.as_str()),
            AppError::Timeout(m) => concat2("Timeout: ", m.as_str()),
            AppError::Cancelled => String::from_str("Cancelled"),
            AppError::ProxyError(m) => concat2("Proxy error: ", m.as_str()),
            AppError::Other(m) => m.clone(),
        }
    }

    /// The message for the user: short, in the user's language.
    pub fn to_frontend_string(&self) -> (r: String)
        ensures
            r@ == self@.frontend(),
    {
        match self {
            AppError::LoginRequired(_) => String::from_str("登录已失效，请重新扫码"),
            AppError::HttpError(m) => concat2("网络请求失败: ", m.as_str()),
            AppError::JsonError(m) => concat2("数据解析失败: ", m.as_str()),
            AppError::IoError(m) => concat2("文件操作失败: ", m.as_str()),
            AppError::ConfigError(m) => concat2("配置错误: ", m.as_str()),
            AppError::ParseError(m) => concat2("解析错误: ", m.as_str()),
            AppError::ApiError(m) => concat2("API 错误: ", m.as_str()),
            AppError::Timeout(m) => concat2("超时: ", m.as_str()),
            AppError::Cancelled => String::from_str("操作已取消"),
            AppError::ProxyError(m) => concat2("代理错误: ", m.as_str()),
            AppError::Other(m) => m.clone(),
        }
    }
}

} // verus!
