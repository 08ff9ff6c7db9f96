[package]
name = "generate_token"
version = "0.1.0"
edition = "2021"
publish = false

[dependencies]
async_once = "*"
aws-config = "*"
aws-sdk-cognitoidentityprovider = "*"
aws-sdk-dynamodb = "*"
aws-sdk-lambda = "*"
aws-smithy-types = "*"
aws_lambda_events = "*"
lambda_http = "*"
lazy_static = "*"
log = "*"
regex = "*"
serde_json = "*"
simple_logger = "*"
tokio = { version = "*", features = ["macros", "rt-multi-thread"] }
tower-http = { version = "*", features = ["cors"] }
uuid = { version = "*", features = ["v4"] }
