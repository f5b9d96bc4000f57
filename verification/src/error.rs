//! The ways a relay call can fail, and the message each failure is
//! reported with.

use crate::foreign::{status_line, status_line_text};
use crate::text::{decimal_digits, push_decimal};
use vstd::prelude::*;

verus! {

/// The relay operation on whose behalf a failure is reported. The wording
/// of a message depends on it.
#[derive(Clone, Copy, Debug, PartialEq, Eq, Structural)]
pub enum Operation {
    /// A single request whose whole response is buffered.
    OneShot,
    /// A request whose response body is forwarded chunk by chunk.
    Streaming,
    /// The probe request that tests a proxy configuration.
    ProxyTest,
}

/// A failed relay call.
#[derive(Clone, Debug, PartialEq, Eq)]
pub enum RelayError {
    /// The proxy type is none of `http`, `https`, `socks5`.
    UnsupportedProxyType,
    /// The client could not be built: the proxy URL is malformed or the
    /// HTTP stack refused the configuration. Holds the cause.
    ClientConstruction(String),
    /// The request method is none of GET, POST, PUT, DELETE.
    UnsupportedMethod,
    /// No response was obtained (DNS, connect, TLS, timeout). Holds the
    /// cause.
    Transport(String),
    /// The response arrived but reading its body failed. Holds the cause.
    BodyRead(String),
    /// The response carried a status that the operation treats as failure.
    HttpStatus(u16),
}

/// The mathematical value of a [`RelayError`].
pub enum ErrorModel {
    UnsupportedProxyType,
    ClientConstruction(Seq<char>),
    UnsupportedMethod,
    Transport(Seq<char>),
    BodyRead(Seq<char>),
    HttpStatus(u16),
}

impl View for RelayError {
    type V = ErrorModel;

    open spec fn view(&self) -> ErrorModel {
        match self {
            RelayError::UnsupportedProxyType => ErrorModel::UnsupportedProxyType,
            RelayError::ClientConstruction(cause) => ErrorModel::ClientConstruction(cause@),
            RelayError::UnsupportedMethod => ErrorModel::UnsupportedMethod,
            RelayError::Transport(cause) => ErrorModel::Transport(cause@),
            RelayError::BodyRead(cause) => ErrorModel::BodyRead(cause@),
            RelayError::HttpStatus(code) => ErrorModel::HttpStatus(*code),
        }
    }
}

/// The text that introduces a client-construction failure.
pub open spec fn construction_prefix(op: Operation) -> Seq<char> {
    match op {
        Operation::OneShot => "创建HTTP客户端失败: "@,
        Operation::Streaming => "创建流式HTTP客户端失败: "@,
        Operation::ProxyTest => "创建代理客户端失败: "@,
    }
}

/// The text that introduces a transport failure.
pub open spec fn transport_prefix(op: Operation) -> Seq<char> {
    match op {
        Operation::OneShot => "HTTP请求失败: "@,
        Operation::Streaming => "流式HTTP请求失败: "@,
        Operation::ProxyTest => "代理连接失败: "@,
    }
}

/// The text that introduces a failure to read the response body.
pub open spec fn body_prefix(op: Operation) -> Seq<char> {
    match op {
        Operation::Streaming => "读取流式数据失败: "@,
        _ => "读取响应体失败: "@,
    }
}

/// How a failing status is worded. The proxy test reports the status line
/// (number and reason phrase) where the code has one; every other
/// operation reports the number.
pub open spec fn status_failure_text(op: Operation, code: u16) -> Seq<char> {
    match op {
        Operation::ProxyTest => "代理测试失败，状态码: "@ + (if 100 <= code <= 999 {
            status_line_text(code as int)
        } else {
            decimal_digits(code as nat)
        }),
        _ => "HTTP error: "@ + decimal_digits(code as nat),
    }
}

/// The message with which `err` is reported to the caller of `op`.
pub open spec fn failure_text(op: Operation, err: ErrorModel) -> Seq<char> {
    match err {
        ErrorModel::UnsupportedProxyType => construction_prefix(op) + "不支持的代理类型"@,
        ErrorModel::ClientConstruction(cause) => construction_prefix(op) + cause,
        ErrorModel::UnsupportedMethod => "不支持的HTTP方法"@,
        ErrorModel::Transport(cause) => transport_prefix(op) + cause,
        ErrorModel::BodyRead(cause) => body_prefix(op) + cause,
        ErrorModel::HttpStatus(code) => status_failure_text(op, code),
    }
}

fn construction_lead(op: Operation) -> (r: &'static str)
    ensures
        r@ == construction_prefix(op),
{
    match op {
        Operation::OneShot => "创建HTTP客户端失败: ",
        Operation::Streaming => "创建流式HTTP客户端失败: ",
        Operation::ProxyTest => "创建代理客户端失败: ",
    }
}

fn transport_lead(op: Operation) -> (r: &'static str)
    ensures
        r@ == transport_prefix(op),
{
    match op {
        Operation::OneShot => "HTTP请求失败: ",
        Operation::Streaming => "流式HTTP请求失败: ",
        Operation::ProxyTest => "代理连接失败: ",
    }
}

fn body_lead(op: Operation) -> (r: &'static str)
    ensures
        r@ == body_prefix(op),
{
    match op {
        Operation::Streaming => "读取流式数据失败: ",
        _ => "读取响应体失败: ",
    }
}

/// Words a failing status for `op`.
pub fn describe_status(op: Operation, code: u16) -> (r: String)
    ensures
        r@ == status_failure_text(op, code),
{
    match op {
        Operation::ProxyTest => {
            let mut out = String::from_str("代理测试失败，状态码: ");
            match status_line(code) {
                Some(line) => {
                    out.append(line.as_str());
                },
                None => {
                    push_decimal(&mut out, code as u64);
                },
            }
            out
        },
        _ => {
            let mut out = String::from_str("HTTP error: ");
            push_decimal(&mut out, code as u64);
            out
        },
    }
}

impl RelayError {
    /// The message with which this failure is reported to the caller of
    /// `op`.
    pub fn describe(&self, op: Operation) -> (r: String)
        ensures
            r@ == failure_text(op, self@),
    {
        match self {
            RelayError::UnsupportedProxyType => {
                let mut out = String::from_str(construction_lead(op));
                out.append("不支持的代理类型");
                out
            },
            RelayError::ClientConstruction(cause) => {
                let mut out = String::from_str(construction_lead(op));
                out.append(cause.as_str());
                out
            },
            RelayError::UnsupportedMethod => String::from_str("不支持的HTTP方法"),
            RelayError::Transport(cause) => {
                let mut out = String::from_str(transport_lead(op));
                out.append(cause.as_str());
                out
            },
            RelayError::BodyRead(cause) => {
                let mut out = String::from_str(body_lead(op));
                out.append(cause.as_str());
                out
            },
            RelayError::HttpStatus(code) => describe_status(op, *code),
        }
    }
}

} // verus!
