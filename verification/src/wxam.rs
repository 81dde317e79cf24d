//! Conversion of images in the proprietary pixel format.
//!
//! The conversion itself is done by a native library. Here is what is
//! decided around the call: which format is asked for, whether the input
//! may be handed over, and what the answer of the library means.

use crate::text::{decimal, lowercase, push_decimal, same_text, to_lowercase};
use vstd::prelude::*;

verus! {

/// The formats that the converter can produce.
#[derive(Debug, Clone, Copy, PartialEq, Eq, Structural)]
pub enum ImageFormat {
    /// JPEG, for still images.
    Jpeg,
    /// GIF, for animations.
    Gif,
}

/// The format that a lower-case name stands for.
pub open spec fn format_named(name: Seq<char>) -> Option<ImageFormat> {
    if name == "jpeg"@ {
        Some(ImageFormat::Jpeg)
    } else if name == "gif"@ {
        Some(ImageFormat::Gif)
    } else {
        None
    }
}

impl ImageFormat {
    /// The number by which the converter knows this format.
    pub open spec fn spec_mode(self) -> int {
        match self {
            ImageFormat::Jpeg => 0,
            ImageFormat::Gif => 3,
        }
    }

    /// The number by which the converter knows this format: 0 for JPEG,
    /// 3 for GIF.
    pub fn mode(self) -> (mode: i32)
        ensures
            mode == self.spec_mode(),
    {
        match self {
            ImageFormat::Jpeg => 0,
            ImageFormat::Gif => 3,
        }
    }

    /// The format with the name `format`, in any mix of upper and lower
    /// case.
    pub fn from_name(format: &str) -> (found: Option<ImageFormat>)
        ensures
            found == format_named(lowercase(format@)),
    {
        let lower = to_lowercase(format);
        Self::from_lowercase_name(lower.as_str())
    }

    /// The format with the lower-case name `name`: `jpeg` or `gif`.
    pub fn from_lowercase_name(name: &str) -> (found: Option<ImageFormat>)
        ensures
            found == format_named(name@),
    {
        if same_text(name, "jpeg") {
            Some(ImageFormat::Jpeg)
        } else if same_text(name, "gif") {
            Some(ImageFormat::Gif)
        } else {
            None
        }
    }
}

/// Why an image could not be converted.
#[derive(Debug)]
pub enum WxAMError {
    /// The converter library is not where it should be.
    DllNotFound(String),
    /// The converter library could not be loaded.
    DllLoadFailed(String),
    /// The converter library was loaded without its entry point.
    FunctionNotInitialized,
    /// There is nothing to convert.
    EmptyInput,
    /// The converter does not know the format with this number.
    UnsupportedFormat(i32),
    /// The converter returned this status, which is not zero.
    DecodeFailed(i64),
    /// The converter reported an output size that is not positive.
    InvalidOutputSize,
    /// The conversion broke off.
    DecodeError(String),
}

impl WxAMError {
    /// What this error says.
    pub open spec fn spec_message(&self) -> Seq<char> {
        match self {
            WxAMError::DllNotFound(path) => "DLL 文件不存在: "@ + path@,
            WxAMError::DllLoadFailed(detail) => "DLL 加载失败: "@ + detail@,
            WxAMError::FunctionNotInitialized => "DLL 函数未正确初始化"@,
            WxAMError::EmptyInput => "输入数据不能为空"@,
            WxAMError::UnsupportedFormat(mode) => "不支持的格式: "@ + decimal(*mode as int),
            WxAMError::DecodeFailed(status) => "DLL 解码失败,错误代码: "@ + decimal(*status as int),
            WxAMError::InvalidOutputSize => "解码结果大小无效"@,
            WxAMError::DecodeError(detail) => "解码过程异常: "@ + detail@,
        }
    }

    /// What this error says, for a log or a dialog.
    pub fn message(&self) -> (message: String)
        ensures
            message@ == self.spec_message(),
    {
        match self {
            WxAMError::DllNotFound(path) => String::from_str("DLL 文件不存在: ").concat(
                path.as_str(),
            ),
            WxAMError::DllLoadFailed(detail) => String::from_str("DLL 加载失败: ").concat(
                detail.as_str(),
            ),
            WxAMError::FunctionNotInitialized => String::from_str("DLL 函数未正确初始化"),
            WxAMError::EmptyInput => String::from_str("输入数据不能为空"),
            WxAMError::UnsupportedFormat(mode) => {
                let mut message = String::from_str("不支持的格式: ");
                push_decimal(&mut message, *mode as i64);
                message
            },
            WxAMError::DecodeFailed(status) => {
                let mut message = String::from_str("DLL 解码失败,错误代码: ");
                push_decimal(&mut message, *status);
                message
            },
            WxAMError::InvalidOutputSize => String::from_str("解码结果大小无效"),
            WxAMError::DecodeError(detail) => String::from_str("解码过程异常: ").concat(
                detail.as_str(),
            ),
        }
    }
}

/// What the converter made of its input, judged by the status that it
/// returned and the output size that it reported: the first `output_size`
/// bytes of its buffer, where the status is zero and the size positive.
pub open spec fn decoded(status: i64, output_size: i32, buffer: Seq<u8>) -> Result<
    Seq<u8>,
    WxAMError,
> {
    if status != 0 {
        Err(WxAMError::DecodeFailed(status))
    } else if output_size <= 0 {
        Err(WxAMError::InvalidOutputSize)
    } else if output_size <= buffer.len() {
        Ok(buffer.take(output_size as int))
    } else {
        Ok(buffer)
    }
}

/// The decisions around a call of the converter library.
pub struct WxAMDecoder;

impl WxAMDecoder {
    /// Size of the buffer that the converter writes to: 52 MiB.
    pub const MAX_OUTPUT_SIZE: usize = 52 * 1024 * 1024;

    /// Refuses input that the converter must not be called with.
    pub fn check_input(data: &[u8]) -> (result: Result<(), WxAMError>)
        ensures
            data@.len() == 0 ==> result == Err::<(), _>(WxAMError::EmptyInput),
            data@.len() > 0 ==> result is Ok,
    {
        if data.len() == 0 {
            Err(WxAMError::EmptyInput)
        } else {
            Ok(())
        }
    }

    /// Judges the answer of the converter: `status` is what it returned,
    /// `output_size` the size that it reported, `output_buffer` the buffer
    /// that it wrote to.
    pub fn finish(status: i64, output_size: i32, output_buffer: Vec<u8>) -> (result: Result<
        Vec<u8>,
        WxAMError,
    >)
        ensures
            match decoded(status, output_size, output_buffer@) {
                Ok(image) => result matches Ok(bytes) && bytes@ == image,
                Err(error) => result == Err::<Vec<u8>, _>(error),
            },
    {
        if status != 0 {
            return Err(WxAMError::DecodeFailed(status));
        }
        if output_size <= 0 {
            return Err(WxAMError::InvalidOutputSize);
        }
        let mut output_buffer = output_buffer;
        output_buffer.truncate(output_size as usize);
        Ok(output_buffer)
    }
}

} // verus!
