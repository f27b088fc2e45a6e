use cloudwatch_log_processor::{AwsLogs, LogData, PayloadError};

const EXAMPLE_DATA: &str = "H4sIAFETomIAA12Ry27bMBBF9/4KQuiyqsQ36Z2DqEGBGC0sdRUHAS0NExV6uCJVNw3y76Fkx03CFTH3cubwztMChRO14Jy5h+JxD9ESRZerYnW3zvJ8dZVFn4+W/tDBMImYUMaFVDrF5FVs+vuroR/3k56Yg0sa0+4qk0D50MddX8Ev98aa+wFMO3lJinWS0gTT5ObT9arI8uJWM2uUkMCpZIxiorGRtsQMiOXCgHxt5MadK4d67+u++1o3HgYXWt7M4my4nhmOw+7Kph+rg/HlQwBwM1M0W2//c2V/oPPvmzydb7OpriZqygQhFItUa6GlUkymgrNUS5EKpQhRfMpGCEzC/xgWjCpNOBMn8nM3X4fcvWmn2DDnhGNFWXiffvCdtjON3mQ/vm8KtIHfY3j6rVoiEdaxsxZizLSJd4KRWGFrYwIKqBSVMtZu/eU4mCmoJWLii2KodVt/UTcNVOiNJEMdbf0a2n54RHn9DwKYJmh9EYrmLzoJPx2EwfJY33bRmfb5mOjiefECiB5LsVgCAAA=";

fn string_field<'a>(v: &'a serde_json::Value, key: &str) -> &'a str {
    v.get(key).and_then(|f| f.as_str()).expect("failed to deserialize")
}

#[test]
fn test_deserialize_example() {
    let json = AwsLogs::decode_data(EXAMPLE_DATA).expect("failed to deserialize");
    let data: serde_json::Value = serde_json::from_slice(&json).expect("failed to deserialize");
    assert_eq!("DATA_MESSAGE", string_field(&data, "messageType"));
    assert_eq!("123456789012", string_field(&data, "owner"));
    assert_eq!("/aws/lambda/echo-nodejs", string_field(&data, "logGroup"));
    assert_eq!(
        "2019/03/13/[$LATEST]94fa867e5374431291a7fc14e2f56ae7",
        string_field(&data, "logStream")
    );
    let filters = data.get("subscriptionFilters").and_then(|f| f.as_array()).unwrap();
    assert_eq!(1, filters.len());
    assert_eq!("LambdaStream_cloudwatchlogs-node", filters[0].as_str().unwrap());
    let events = data.get("logEvents").and_then(|f| f.as_array()).unwrap();
    assert_eq!(1, events.len());
    assert_eq!(
        "34622316099697884706540976068822859012661220141643892546",
        string_field(&events[0], "id")
    );
    assert_eq!(1552518348220, events[0].get("timestamp").and_then(|t| t.as_i64()).unwrap());
    assert_eq!("REPORT RequestId: 6234bffe-149a-b642-81ff-2e8e376d8aff\tDuration: 46.84 ms\tBilled Duration: 47 ms \tMemory Size: 192 MB\tMax Memory Used: 72 MB\t\n", string_field(&events[0], "message"));
}

#[test]
fn decoded_example_names_its_function() {
    let json = AwsLogs::decode_data(EXAMPLE_DATA).unwrap();
    let value: serde_json::Value = serde_json::from_slice(&json).unwrap();
    let data = LogData {
        log_group: string_field(&value, "logGroup").to_string(),
        ..Default::default()
    };
    assert_eq!("echo-nodejs", data.function_id());
}

#[test]
fn invalid_base64_is_rejected() {
    match AwsLogs::decode_data("not base64!") {
        Err(PayloadError::Base64(message)) => assert!(!message.is_empty()),
        other => panic!("unexpected result {:?}", other),
    }
}

#[test]
fn base64_of_plain_text_is_not_gzip() {
    // "aGVsbG8=" is the base64 form of "hello", which is no gzip stream.
    assert_eq!(Err(PayloadError::Gzip), AwsLogs::decode_data("aGVsbG8="));
}

#[test]
fn function_id_is_last_segment() {
    let mut data = LogData::default();
    data.log_group = "/aws/lambda/echo-nodejs".to_string();
    assert_eq!("echo-nodejs", data.function_id());
    data.log_group = "no-slash".to_string();
    assert_eq!("no-slash", data.function_id());
    data.log_group = "trailing/".to_string();
    assert_eq!("", data.function_id());
    data.log_group = String::new();
    assert_eq!("", data.function_id());
    data.log_group = "/aws/lambda/é-ünïcode".to_string();
    assert_eq!("é-ünïcode", data.function_id());
}
