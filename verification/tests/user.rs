use custom_type::{Email, RawPassword, Url};

#[derive(Debug)]
struct User {
    username: String,
    email: Email,
    password: RawPassword,
    socmed_url: Url,
}

struct RegisterUserRequest {
    username: String,
    email: String,
    password: String,
    socmed_url: String,
}

impl From<RegisterUserRequest> for User {
    fn from(value: RegisterUserRequest) -> Self {
        let email = Email::parse(&value.email)
            .unwrap_or_else(|e| panic!("Failed to parse email: {}", e.to_string()));
        let password = RawPassword::parse_strict(&value.password)
            .unwrap_or_else(|e| panic!("Failed to parse password: {}", e.to_string()));
        let socmed_url = Url::parse(&value.socmed_url)
            .unwrap_or_else(|e| panic!("Failed to parse URL: {}", e.to_string()));

        Self {
            username: value.username,
            email,
            password,
            socmed_url,
        }
    }
}

fn as_json(user: &User) -> serde_json::Value {
    let mut fields = serde_json::Map::new();
    fields.insert(
        "username".to_string(),
        serde_json::Value::String(user.username.clone()),
    );
    fields.insert(
        "email".to_string(),
        serde_json::Value::String(user.email.to_string()),
    );
    fields.insert(
        "password".to_string(),
        serde_json::Value::String(user.password.to_string()),
    );
    fields.insert(
        "socmed_url".to_string(),
        serde_json::Value::String(user.socmed_url.to_string()),
    );
    serde_json::Value::Object(fields)
}

#[test]
fn test_user() {
    let req = RegisterUserRequest {
        email: "example@example.com".to_string(),
        password: "Valid123!".to_string(),
        socmed_url: "https://example.com/useridex".to_string(),
        username: "user123".to_string(),
    };

    let user = User::from(req);
    let json = serde_json::to_string_pretty(&as_json(&user)).unwrap();
    println!("{}", json);
}

#[test]
fn a_user_is_written_with_plain_strings() {
    let user = User::from(RegisterUserRequest {
        email: "Example@Example.com".to_string(),
        password: "Valid123!".to_string(),
        socmed_url: "https://example.com/useridex".to_string(),
        username: "user123".to_string(),
    });
    let json = as_json(&user);
    assert_eq!(json["email"], "example@example.com");
    assert_eq!(json["password"], "Valid123!");
    assert_eq!(json["socmed_url"], "https://example.com/useridex");
    assert_eq!(json["username"], "user123");
}
