use wxdat::decrypt::DecryptError;
use wxdat::error::{AppError, ErrorResponse};

fn pair(error: AppError) -> (String, String) {
    error.to_code_and_message()
}

fn text(s: &str) -> String {
    s.to_string()
}

#[test]
fn test_error_code_and_message() {
    let err = AppError::FileNotFound("/path/to/file".to_string());
    let (code, message) = err.to_code_and_message();
    assert_eq!(code, "FILE_NOT_FOUND");
    assert!(message.contains("文件不存在"));
}

#[test]
fn test_error_to_string() {
    let err = AppError::DllNotFound("VoipEngine.dll".to_string());
    let err_str: String = err.into();
    assert!(err_str.contains("DLL_NOT_FOUND"));
    assert!(err_str.contains("VoipEngine.dll"));
}

#[test]
fn test_error_response_from_app_error() {
    let err = AppError::UnsupportedDatVersion;
    let response: ErrorResponse = err.into();
    assert_eq!(response.code(), "UNSUPPORTED_DAT_VERSION");
}

#[test]
fn file_system_errors() {
    assert_eq!(
        pair(AppError::FileNotFound(text("/path/to/file"))),
        (text("FILE_NOT_FOUND"), text("文件不存在: /path/to/file"))
    );
    assert_eq!(
        pair(AppError::FileReadError(text("denied"))),
        (text("FILE_READ_ERROR"), text("文件读取失败: denied"))
    );
    assert_eq!(
        pair(AppError::FileWriteError(text("disk full"))),
        (text("FILE_WRITE_ERROR"), text("文件写入失败: disk full"))
    );
    assert_eq!(
        pair(AppError::InvalidPath(text("../x"))),
        (text("INVALID_PATH"), text("无效的文件夹路径: ../x"))
    );
}

#[test]
fn configuration_errors() {
    assert_eq!(
        pair(AppError::ConfigParseError(text("line 1"))),
        (text("CONFIG_PARSE_ERROR"), text("配置文件格式错误: line 1"))
    );
    assert_eq!(
        pair(AppError::ConfigSerializeError(text("oops"))),
        (text("CONFIG_SERIALIZE_ERROR"), text("配置序列化失败: oops"))
    );
    assert_eq!(pair(AppError::RootDirNotSet), (text("ROOT_DIR_NOT_SET"), text("未设置根目录")));
    assert_eq!(pair(AppError::NoFolderSelected), (text("NO_FOLDER_SELECTED"), text("未选择文件夹")));
}

#[test]
fn decryption_errors() {
    assert_eq!(
        pair(AppError::UnsupportedDatVersion),
        (text("UNSUPPORTED_DAT_VERSION"), text("不支持的 DAT 版本"))
    );
    assert_eq!(
        pair(AppError::InvalidDatFormat),
        (text("INVALID_DAT_FORMAT"), text("DAT 文件格式无效"))
    );
    assert_eq!(
        pair(AppError::DatHeaderParseError),
        (text("DAT_HEADER_PARSE_ERROR"), text("DAT 文件头解析失败"))
    );
    assert_eq!(
        pair(AppError::AesDecryptError(text("无效的填充"))),
        (text("AES_DECRYPT_ERROR"), text("AES 解密失败: 无效的填充"))
    );
    assert_eq!(
        pair(AppError::DecryptFailed(text("why"))),
        (text("DECRYPT_FAILED"), text("解密失败: why"))
    );
}

#[test]
fn converter_errors() {
    assert_eq!(
        pair(AppError::DllNotFound(text("VoipEngine.dll"))),
        (text("DLL_NOT_FOUND"), text("DLL 文件不存在: VoipEngine.dll"))
    );
    assert_eq!(
        pair(AppError::DllLoadFailed(text("code 126"))),
        (text("DLL_LOAD_FAILED"), text("DLL 加载失败: code 126"))
    );
    assert_eq!(
        pair(AppError::DllFunctionNotInitialized),
        (text("DLL_FUNCTION_NOT_INITIALIZED"), text("DLL 函数未正确初始化"))
    );
    assert_eq!(
        pair(AppError::WxamDecodeFailed(text("bad frame"))),
        (text("WXAM_DECODE_FAILED"), text("WXAM 解码失败: bad frame"))
    );
    assert_eq!(
        pair(AppError::UnsupportedImageFormat(text("bmp"))),
        (text("UNSUPPORTED_IMAGE_FORMAT"), text("不支持的图片格式: bmp"))
    );
    assert_eq!(pair(AppError::EmptyInput), (text("EMPTY_INPUT"), text("输入数据不能为空")));
    assert_eq!(
        pair(AppError::InvalidOutputSize),
        (text("INVALID_OUTPUT_SIZE"), text("输出数据大小无效"))
    );
    assert_eq!(pair(AppError::Internal(text("x"))), (text("INTERNAL_ERROR"), text("内部错误: x")));
}

#[test]
fn converter_status_in_decimal() {
    for status in [0i64, 1, 9, 10, 11, 99, 100, 12345, -1, -9, -10, -2147483648, i64::MAX, i64::MIN] {
        assert_eq!(
            pair(AppError::DllDecodeFailed(status)),
            (text("DLL_DECODE_FAILED"), format!("DLL 解码失败,错误代码: {}", status))
        );
    }
    assert_eq!(pair(AppError::DllDecodeFailed(-7)).1, "DLL 解码失败,错误代码: -7");
    assert_eq!(
        pair(AppError::DllDecodeFailed(i64::MIN)).1,
        "DLL 解码失败,错误代码: -9223372036854775808"
    );
}

#[test]
fn error_as_one_line() {
    let line: String = AppError::DllNotFound(text("VoipEngine.dll")).into();
    assert_eq!(line, "[DLL_NOT_FOUND] DLL 文件不存在: VoipEngine.dll");
    let line = String::from(AppError::RootDirNotSet);
    assert_eq!(line, "[ROOT_DIR_NOT_SET] 未设置根目录");
    let line = String::from(AppError::DllDecodeFailed(-3));
    assert_eq!(line, "[DLL_DECODE_FAILED] DLL 解码失败,错误代码: -3");
    let line = String::from(AppError::Internal(String::new()));
    assert_eq!(line, "[INTERNAL_ERROR] 内部错误: ");
}

#[test]
fn error_response() {
    let response = ErrorResponse::new(text("CODE"), text("some message"));
    assert_eq!(response.code(), "CODE");
    assert_eq!(response.message(), "some message");
    assert_eq!(response.to_string(), "[CODE] some message");

    let response = ErrorResponse::from(AppError::FileNotFound(text("a.dat")));
    assert_eq!(response.code(), "FILE_NOT_FOUND");
    assert_eq!(response.message(), "文件不存在: a.dat");
    assert_eq!(response.to_string(), "[FILE_NOT_FOUND] 文件不存在: a.dat");
}

#[test]
fn app_error_from_decrypt_error() {
    match AppError::from(DecryptError::IoError(text("failed to fill whole buffer"))) {
        AppError::Internal(message) => assert_eq!(message, "文件读取失败: failed to fill whole buffer"),
        other => panic!("unexpected {:?}", other),
    }
    match AppError::from(DecryptError::AesDecryptError(text("数据为空"))) {
        AppError::AesDecryptError(message) => assert_eq!(message, "数据为空"),
        other => panic!("unexpected {:?}", other),
    }
    assert!(matches!(AppError::from(DecryptError::InvalidFormat), AppError::InvalidDatFormat));
    assert!(matches!(
        AppError::from(DecryptError::UnsupportedVersion),
        AppError::UnsupportedDatVersion
    ));
    assert!(matches!(
        AppError::from(DecryptError::HeaderParseError),
        AppError::DatHeaderParseError
    ));
    let error: AppError = DecryptError::HeaderParseError.into();
    assert_eq!(String::from(error), "[DAT_HEADER_PARSE_ERROR] DAT 文件头解析失败");
}

#[test]
fn error_line_for_the_log() {
    assert_eq!(AppError::EmptyInput.log(), "[EMPTY_INPUT] 输入数据不能为空");
    assert_eq!(
        AppError::FileReadError(text("denied")).log(),
        "[FILE_READ_ERROR] 文件读取失败: denied"
    );
    assert_eq!(AppError::DllDecodeFailed(5).log(), "[DLL_DECODE_FAILED] DLL 解码失败,错误代码: 5");
}

#[test]
fn errors_from_the_file_system() {
    let missing = std::io::Error::new(std::io::ErrorKind::NotFound, "no such file");
    match AppError::from(missing) {
        AppError::Internal(message) => assert_eq!(message, "no such file"),
        other => panic!("unexpected {:?}", other),
    }
    let short = std::io::Error::new(std::io::ErrorKind::UnexpectedEof, "failed to fill whole buffer");
    match DecryptError::from(short) {
        DecryptError::IoError(message) => assert_eq!(message, "failed to fill whole buffer"),
        other => panic!("unexpected {:?}", other),
    }
}

#[test]
fn errors_from_the_configuration() {
    let broken = serde_json::from_str::<u8>("{").unwrap_err();
    let text = broken.to_string();
    assert!(!text.is_empty());
    match AppError::from(broken) {
        AppError::ConfigParseError(message) => assert_eq!(message, text),
        other => panic!("unexpected {:?}", other),
    }
}
