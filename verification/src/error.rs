//! Errors of the application, each with a code for programs and a message
//! for people.

use crate::decrypt::error::DecryptError;
use crate::text::{decimal, push_decimal};
use vstd::prelude::*;
use vstd::std_specs::convert::FromSpecImpl;

verus! {

/// Anything that can go wrong in the application: in the file system, in
/// the configuration, in decryption, or in the converter library.
#[derive(Debug, Clone)]
pub enum AppError {
    /// A file that should be decrypted does not exist.
    FileNotFound(String),
    /// A file could not be read.
    FileReadError(String),
    /// A file could not be written.
    FileWriteError(String),
    /// A path lies outside the root folder, or is no path at all.
    InvalidPath(String),
    /// The configuration file could not be parsed.
    ConfigParseError(String),
    /// The configuration could not be serialized.
    ConfigSerializeError(String),
    /// No root folder has been chosen yet.
    RootDirNotSet,
    /// The folder dialog was closed without a choice.
    NoFolderSelected,
    /// The layout of a cache file is not supported.
    UnsupportedDatVersion,
    /// The contents are not a cache file.
    InvalidDatFormat,
    /// The header of a container is incomplete.
    DatHeaderParseError,
    /// The AES region could not be decrypted.
    AesDecryptError(String),
    /// A cache file could not be decrypted.
    DecryptFailed(String),
    /// The converter library is not where it should be.
    DllNotFound(String),
    /// The converter library could not be loaded.
    DllLoadFailed(String),
    /// The converter library was loaded without its entry point.
    DllFunctionNotInitialized,
    /// The converter returned a status other than zero.
    DllDecodeFailed(i64),
    /// An image in the proprietary format could not be converted.
    WxamDecodeFailed(String),
    /// The target format of a conversion is unknown.
    UnsupportedImageFormat(String),
    /// There is nothing to convert.
    EmptyInput,
    /// The converter reported an output size that cannot be.
    InvalidOutputSize,
    /// Any other failure.
    Internal(String),
}

impl AppError {
    /// The code of this error: upper-case words joined by underscores.
    pub open spec fn spec_code(&self) -> Seq<char> {
        match self {
            AppError::FileNotFound(_) => "FILE_NOT_FOUND"@,
            AppError::FileReadError(_) => "FILE_READ_ERROR"@,
            AppError::FileWriteError(_) => "FILE_WRITE_ERROR"@,
            AppError::InvalidPath(_) => "INVALID_PATH"@,
            AppError::ConfigParseError(_) => "CONFIG_PARSE_ERROR"@,
            AppError::ConfigSerializeError(_) => "CONFIG_SERIALIZE_ERROR"@,
            AppError::RootDirNotSet => "ROOT_DIR_NOT_SET"@,
            AppError::NoFolderSelected => "NO_FOLDER_SELECTED"@,
            AppError::UnsupportedDatVersion => "UNSUPPORTED_DAT_VERSION"@,
            AppError::InvalidDatFormat => "INVALID_DAT_FORMAT"@,
            AppError::DatHeaderParseError => "DAT_HEADER_PARSE_ERROR"@,
            AppError::AesDecryptError(_) => "AES_DECRYPT_ERROR"@,
            AppError::DecryptFailed(_) => "DECRYPT_FAILED"@,
            AppError::DllNotFound(_) => "DLL_NOT_FOUND"@,
            AppError::DllLoadFailed(_) => "DLL_LOAD_FAILED"@,
            AppError::DllFunctionNotInitialized => "DLL_FUNCTION_NOT_INITIALIZED"@,
            AppError::DllDecodeFailed(_) => "DLL_DECODE_FAILED"@,
            AppError::WxamDecodeFailed(_) => "WXAM_DECODE_FAILED"@,
            AppError::UnsupportedImageFormat(_) => "UNSUPPORTED_IMAGE_FORMAT"@,
            AppError::EmptyInput => "EMPTY_INPUT"@,
            AppError::InvalidOutputSize => "INVALID_OUTPUT_SIZE"@,
            AppError::Internal(_) => "INTERNAL_ERROR"@,
        }
    }

    /// The message of this error: what went wrong, followed by the detail
    /// that the error carries.
    pub open spec fn spec_message(&self) -> Seq<char> {
        match self {
            AppError::FileNotFound(detail) => "文件不存在: "@ + detail@,
            AppError::FileReadError(detail) => "文件读取失败: "@ + detail@,
            AppError::FileWriteError(detail) => "文件写入失败: "@ + detail@,
            AppError::InvalidPath(detail) => "无效的文件夹路径: "@ + detail@,
            AppError::ConfigParseError(detail) => "配置文件格式错误: "@ + detail@,
            AppError::ConfigSerializeError(detail) => "配置序列化失败: "@ + detail@,
            AppError::RootDirNotSet => "未设置根目录"@,
            AppError::NoFolderSelected => "未选择文件夹"@,
            AppError::UnsupportedDatVersion => "不支持的 DAT 版本"@,
            AppError::InvalidDatFormat => "DAT 文件格式无效"@,
            AppError::DatHeaderParseError => "DAT 文件头解析失败"@,
            AppError::AesDecryptError(detail) => "AES 解密失败: "@ + detail@,
            AppError::DecryptFailed(detail) => "解密失败: "@ + detail@,
            AppError::DllNotFound(detail) => "DLL 文件不存在: "@ + detail@,
            AppError::DllLoadFailed(detail) => "DLL 加载失败: "@ + detail@,
            AppError::DllFunctionNotInitialized => "DLL 函数未正确初始化"@,
            AppError::DllDecodeFailed(status) => "DLL 解码失败,错误代码: "@ + decimal(*status as int),
            AppError::WxamDecodeFailed(detail) => "WXAM 解码失败: "@ + detail@,
            AppError::UnsupportedImageFormat(detail) => "不支持的图片格式: "@ + detail@,
            AppError::EmptyInput => "输入数据不能为空"@,
            AppError::InvalidOutputSize => "输出数据大小无效"@,
            AppError::Internal(detail) => "内部错误: "@ + detail@,
        }
    }

    /// The code and the message of this error, for a caller that shows
    /// structured errors.
    pub fn to_code_and_message(&self) -> (pair: (String, String))
        ensures
            pair.0@ == self.spec_code(),
            pair.1@ == self.spec_message(),
    {
        match self {
            AppError::FileNotFound(detail) => (
                String::from_str("FILE_NOT_FOUND"),
                String::from_str("文件不存在: ").concat(detail.as_str()),
            ),
            AppError::FileReadError(detail) => (
                String::from_str("FILE_READ_ERROR"),
                String::from_str("文件读取失败: ").concat(detail.as_str()),
            ),
            AppError::FileWriteError(detail) => (
                String::from_str("FILE_WRITE_ERROR"),
                String::from_str("文件写入失败: ").concat(detail.as_str()),
            ),
            AppError::InvalidPath(detail) => (
                String::from_str("INVALID_PATH"),
                String::from_str("无效的文件夹路径: ").concat(detail.as_str()),
            ),
            AppError::ConfigParseError(detail) => (
                String::from_str("CONFIG_PARSE_ERROR"),
                String::from_str("配置文件格式错误: ").concat(detail.as_str()),
            ),
            AppError::ConfigSerializeError(detail) => (
                String::from_str("CONFIG_SERIALIZE_ERROR"),
                String::from_str("配置序列化失败: ").concat(detail.as_str()),
            ),
            AppError::RootDirNotSet => (
                String::from_str("ROOT_DIR_NOT_SET"),
                String::from_str("未设置根目录"),
            ),
            AppError::NoFolderSelected => (
                String::from_str("NO_FOLDER_SELECTED"),
                String::from_str("未选择文件夹"),
            ),
            AppError::UnsupportedDatVersion => (
                String::from_str("UNSUPPORTED_DAT_VERSION"),
                String::from_str("不支持的 DAT 版本"),
            ),
            AppError::InvalidDatFormat => (
                String::from_str("INVALID_DAT_FORMAT"),
                String::from_str("DAT 文件格式无效"),
            ),
            AppError::DatHeaderParseError => (
                String::from_str("DAT_HEADER_PARSE_ERROR"),
                String::from_str("DAT 文件头解析失败"),
            ),
            AppError::AesDecryptError(detail) => (
                String::from_str("AES_DECRYPT_ERROR"),
                String::from_str("AES 解密失败: ").concat(detail.as_str()),
            ),
            AppError::DecryptFailed(detail) => (
                String::from_str("DECRYPT_FAILED"),
                String::from_str("解密失败: ").concat(detail.as_str()),
            ),
            AppError::DllNotFound(detail) => (
                String::from_str("DLL_NOT_FOUND"),
                String::from_str("DLL 文件不存在: ").concat(detail.as_str()),
            ),
            AppError::DllLoadFailed(detail) => (
                String::from_str("DLL_LOAD_FAILED"),
                String::from_str("DLL 加载失败: ").concat(detail.as_str()),
            ),
            AppError::DllFunctionNotInitialized => (
                String::from_str("DLL_FUNCTION_NOT_INITIALIZED"),
                String::from_str("DLL 函数未正确初始化"),
            ),
            AppError::DllDecodeFailed(status) => {
                let mut message = String::from_str("DLL 解码失败,错误代码: ");
                push_decimal(&mut message, *status);
                (String::from_str("DLL_DECODE_FAILED"), message)
            },
            AppError::WxamDecodeFailed(detail) => (
                String::from_str("WXAM_DECODE_FAILED"),
                String::from_str("WXAM 解码失败: ").concat(detail.as_str()),
            ),
            AppError::UnsupportedImageFormat(detail) => (
                String::from_str("UNSUPPORTED_IMAGE_FORMAT"),
                String::from_str("不支持的图片格式: ").concat(detail.as_str()),
            ),
            AppError::EmptyInput => (
                String::from_str("EMPTY_INPUT"),
                String::from_str("输入数据不能为空"),
            ),
            AppError::InvalidOutputSize => (
                String::from_str("INVALID_OUTPUT_SIZE"),
                String::from_str("输出数据大小无效"),
            ),
            AppError::Internal(detail) => (
                String::from_str("INTERNAL_ERROR"),
                String::from_str("内部错误: ").concat(detail.as_str()),
            ),
        }
    }

    /// One line for a log or a dialog: the code in square brackets, a
    /// space, and the message.
    pub open spec fn spec_line(&self) -> Seq<char> {
        seq!['['] + self.spec_code() + seq![']', ' '] + self.spec_message()
    }

    /// The line that stands for this error in the log. Writing it there is
    /// left to the caller.
    pub fn log(&self) -> (line: String)
        ensures
            line@ == self.spec_line(),
    {
        let (code, message) = self.to_code_and_message();
        format_line(code.as_str(), message.as_str())
    }
}

/// Joins a code and a message to one line.
fn format_line(code: &str, message: &str) -> (line: String)
    ensures
        line@ == seq!['['] + code@ + seq![']', ' '] + message@,
{
    proof {
        reveal_strlit("[");
        reveal_strlit("] ");
    }
    let mut line = String::from_str("[");
    line.append(code);
    line.append("] ");
    line.append(message);
    assert("["@ =~= seq!['[']);
    assert("] "@ =~= seq![']', ' ']);
    line
}

impl From<AppError> for String {
    /// The line for `err`.
    fn from(err: AppError) -> (line: String)
        ensures
            line@ == err.spec_line(),
    {
        let (code, message) = err.to_code_and_message();
        format_line(code.as_str(), message.as_str())
    }
}

impl FromSpecImpl<AppError> for String {
    open spec fn obeys_from_spec() -> bool {
        false
    }

    open spec fn from_spec(err: AppError) -> String {
        arbitrary()
    }
}

/// An error of reading or writing, as the standard library reports it.
#[verifier::external_type_specification]
#[verifier::external_body]
pub struct ExIoError(std::io::Error);

/// An error of parsing or writing JSON, as `serde_json` reports it.
#[verifier::external_type_specification]
#[verifier::external_body]
pub struct ExJsonError(serde_json::Error);

/// The text of an I/O error, by `ToString::to_string`. Nothing is claimed
/// of it: it comes from the operating system.
#[verifier::external_body]
pub(crate) fn io_error_text(error: &std::io::Error) -> (text: String) {
    error.to_string()
}

/// The text of a JSON error, by `ToString::to_string` of
/// `serde_json::Error`. Nothing is claimed of it.
#[verifier::external_body]
fn json_error_text(error: &serde_json::Error) -> (text: String) {
    error.to_string()
}

impl From<std::io::Error> for AppError {
    /// An internal error with the text of `err`.
    fn from(err: std::io::Error) -> (error: AppError)
        ensures
            error is Internal,
    {
        AppError::Internal(io_error_text(&err))
    }
}

impl FromSpecImpl<std::io::Error> for AppError {
    open spec fn obeys_from_spec() -> bool {
        false
    }

    open spec fn from_spec(err: std::io::Error) -> AppError {
        arbitrary()
    }
}

impl From<serde_json::Error> for AppError {
    /// A configuration error with the text of `err`.
    fn from(err: serde_json::Error) -> (error: AppError)
        ensures
            error is ConfigParseError,
    {
        AppError::ConfigParseError(json_error_text(&err))
    }
}

impl FromSpecImpl<serde_json::Error> for AppError {
    open spec fn obeys_from_spec() -> bool {
        false
    }

    open spec fn from_spec(err: serde_json::Error) -> AppError {
        arbitrary()
    }
}

impl From<DecryptError> for AppError {
    /// The application error for a failed decryption. A read error becomes
    /// an internal error; the others keep their meaning and their message.
    fn from(err: DecryptError) -> (error: AppError)
        ensures
            match err {
                DecryptError::IoError(message) => error matches AppError::Internal(text) && text@
                    == "文件读取失败: "@ + message@,
                DecryptError::InvalidFormat => error == AppError::InvalidDatFormat,
                DecryptError::AesDecryptError(message) => error matches AppError::AesDecryptError(
                    text,
                ) && text@ == message@,
                DecryptError::UnsupportedVersion => error == AppError::UnsupportedDatVersion,
                DecryptError::HeaderParseError => error == AppError::DatHeaderParseError,
            },
    {
        match err {
            DecryptError::IoError(message) => AppError::Internal(
                String::from_str("文件读取失败: ").concat(message.as_str()),
            ),
            DecryptError::InvalidFormat => AppError::InvalidDatFormat,
            DecryptError::AesDecryptError(message) => AppError::AesDecryptError(message),
            DecryptError::UnsupportedVersion => AppError::UnsupportedDatVersion,
            DecryptError::HeaderParseError => AppError::DatHeaderParseError,
        }
    }
}

impl FromSpecImpl<DecryptError> for AppError {
    open spec fn obeys_from_spec() -> bool {
        false
    }

    open spec fn from_spec(err: DecryptError) -> AppError {
        arbitrary()
    }
}

/// An error as it is handed to the user interface.
#[derive(Debug)]
pub struct ErrorResponse {
    code: String,
    message: String,
}

impl ErrorResponse {
    /// The code of this response.
    pub closed spec fn spec_code(&self) -> Seq<char> {
        self.code@
    }

    /// The message of this response.
    pub closed spec fn spec_message(&self) -> Seq<char> {
        self.message@
    }

    /// A response with the given code and message.
    pub fn new(code: String, message: String) -> (response: ErrorResponse)
        ensures
            response.spec_code() == code@,
            response.spec_message() == message@,
    {
        ErrorResponse { code, message }
    }

    /// The code.
    pub fn code(&self) -> (code: &str)
        ensures
            code@ == self.spec_code(),
    {
        self.code.as_str()
    }

    /// The message.
    pub fn message(&self) -> (message: &str)
        ensures
            message@ == self.spec_message(),
    {
        self.message.as_str()
    }

    /// The response on one line: the code in square brackets, a space, and
    /// the message.
    pub fn to_string(&self) -> (line: String)
        ensures
            line@ == seq!['['] + self.spec_code() + seq![']', ' '] + self.spec_message(),
    {
        format_line(self.code.as_str(), self.message.as_str())
    }
}

impl From<AppError> for ErrorResponse {
    /// The response for `err`, with its code and its message.
    fn from(err: AppError) -> (response: ErrorResponse)
        ensures
            response.spec_code() == err.spec_code(),
            response.spec_message() == err.spec_message(),
    {
        let (code, message) = err.to_code_and_message();
        ErrorResponse::new(code, message)
    }
}

impl FromSpecImpl<AppError> for ErrorResponse {
    open spec fn obeys_from_spec() -> bool {
        false
    }

    open spec fn from_spec(err: AppError) -> ErrorResponse {
        arbitrary()
    }
}

} // verus!
