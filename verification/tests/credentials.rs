use xapi::Credentials;
use xapi::Error;

#[test]
fn test_credentials_default() {
    let creds = Credentials::default();
    assert_eq!(creds.host, "ws.xtb.com");
    assert_eq!(creds.type_, "real");
    assert_eq!(creds.safe, false);
}

#[test]
fn test_credentials_loads() {
    const DATA: &str = r#"{
        "accountId": "John Doe",
        "password": "123456",
        "host": "example.com",
        "type": "demo",
        "safe": true
    }"#;

    let creds = Credentials::from(DATA);
    assert!(creds.is_ok());

    let creds = creds.unwrap();
    assert!(creds.account_id == "John Doe");
    assert!(creds.password == "123456");
    assert!(creds.host == "example.com");
    assert!(creds.type_ == "demo");
    assert!(creds.safe);
}

#[test]
fn credentials_default_accounts_empty() {
    let creds = Credentials::default();
    assert_eq!(creds.account_id, "");
    assert_eq!(creds.password, "");
}

#[test]
fn credentials_from_rejects_malformed_json() {
    let creds = Credentials::from("{\"accountId\": ");
    assert!(matches!(creds, Err(Error::JsonParseError)));
}

#[test]
fn credentials_from_rejects_missing_field() {
    let creds = Credentials::from(r#"{"accountId":"a","password":"b","host":"h","type":"real"}"#);
    assert!(matches!(creds, Err(Error::JsonParseError)));
}
