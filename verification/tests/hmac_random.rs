use chrono::{Duration, Utc};
use hmac_serialiser::{Algorithm, Encoder, Error, HmacSigner, KeyInfo, DELIM};

// The application-side claim of these tests: an expiration instant (unix
// seconds) and a data string, serialized as JSON by the external serializer.
#[derive(Debug)]
struct TestClaim {
    exp: i64,
    data: String,
}

fn claim_to_json(claim: &TestClaim) -> String {
    format!("{{\"exp\":{},\"data\":\"{}\"}}", claim.exp, claim.data)
}

// Deserializes the decoded payload bytes and finishes verification: a parse
// failure is InvalidPayload, an expiration before `now` is TokenExpired.
fn unsign_claim(signer: &HmacSigner, token: &str, now: i64) -> Result<TestClaim, Error> {
    let bytes = signer.unsign(token)?;
    let parsed: Option<serde_json::Value> = serde_json::from_slice(&bytes).ok();
    let exp = parsed.as_ref().and_then(|v| v.get("exp")).and_then(|e| e.as_i64());
    let data = parsed
        .as_ref()
        .and_then(|v| v.get("data"))
        .and_then(|d| d.as_str())
        .map(|s| s.to_string());
    let parse_ok = exp.is_some() && data.is_some();
    hmac_serialiser::validate_claims(parse_ok, exp, now)?;
    Ok(TestClaim { exp: exp.unwrap(), data: data.unwrap() })
}

fn setup_signer(salt: Vec<u8>, info: Vec<u8>, algo: Algorithm, encoder: Encoder) -> HmacSigner {
    let key_info = KeyInfo { key: b"test_secret_key".to_vec(), salt, info };
    HmacSigner::new(key_info, algo, encoder)
}

#[test]
fn hmac_random_test_sign_and_unsign_valid_token() {
    let signer = setup_signer(vec![], vec![], Algorithm::SHA256, Encoder::UrlSafeNoPadding);
    let claim = TestClaim {
        exp: (Utc::now() + Duration::hours(1)).timestamp(),
        data: "test_data".to_string(),
    };

    let token = signer.sign(claim_to_json(&claim).as_bytes());
    let verified_claim = unsign_claim(&signer, &token, Utc::now().timestamp()).unwrap();
    println!("Token: {}", token);
    println!("Verified claim: {:?}", verified_claim);
    assert_eq!(verified_claim.data, claim.data);
}

#[test]
fn hmac_random_test_invalid_token() {
    let data = "tttttttttttttttttttttttttttttttttttttttttt";
    let expected_error = Error::InvalidInput(data.to_string());
    let signer = setup_signer(vec![1, 2, 3], vec![4, 5, 6], Algorithm::SHA256, Encoder::UrlSafe);
    match unsign_claim(&signer, data, Utc::now().timestamp()) {
        Ok(_) => panic!("Expected error"),
        Err(e) => assert_eq!(e, expected_error),
    };
}

#[test]
fn hmac_random_test_invalid_token_with_valid_signature() {
    let signer = setup_signer(vec![1, 2, 3], vec![4, 5, 6], Algorithm::SHA256, Encoder::UrlSafe);
    let claim = TestClaim {
        exp: (Utc::now() + Duration::hours(1)).timestamp(),
        data: "test_data".to_string(),
    };

    let token = signer.sign(claim_to_json(&claim).as_bytes());
    let valid_signature = token.split('.').collect::<Vec<&str>>()[1];
    let invalid_token = format!("{}.{}", "bad_data", valid_signature);
    println!("Invalid token: {}", invalid_token);
    println!("Valid token: {}", token);

    let result = unsign_claim(&signer, &invalid_token, Utc::now().timestamp());
    assert!(matches!(result, Err(Error::InvalidToken)));
}

#[test]
fn hmac_random_test_unsign_expired_token() {
    let signer = setup_signer(vec![1, 2, 3], vec![4, 5, 6], Algorithm::SHA256, Encoder::UrlSafe);
    let claim = TestClaim {
        exp: (Utc::now() - Duration::hours(1)).timestamp(),
        data: "test_data".to_string(),
    };

    let token = signer.sign(claim_to_json(&claim).as_bytes());
    let result = unsign_claim(&signer, &token, Utc::now().timestamp());

    assert!(matches!(result, Err(Error::TokenExpired)));
}

#[test]
fn hmac_random_test_unsign_invalid_signature() {
    let signer = setup_signer(vec![1, 2, 3], vec![4, 5, 6], Algorithm::SHA256, Encoder::UrlSafe);
    let claim = TestClaim {
        exp: (Utc::now() + Duration::hours(1)).timestamp(),
        data: "test_data".to_string(),
    };

    let token = signer.sign(claim_to_json(&claim).as_bytes());
    let mut invalid_token = token.clone();
    invalid_token.push_str("invalid");

    let result = unsign_claim(&signer, &invalid_token, Utc::now().timestamp());

    assert!(matches!(result, Err(Error::InvalidSignature)));
}

#[test]
fn hmac_random_test_unsign_malformed_token() {
    let signer = setup_signer(vec![1, 2, 3], vec![4, 5, 6], Algorithm::SHA256, Encoder::UrlSafe);

    let malformed_token = "malformed.token";

    let result = unsign_claim(&signer, malformed_token, Utc::now().timestamp());

    assert!(matches!(result, Err(Error::InvalidSignature)));
}

#[test]
fn hmac_random_test_unsign_invalid_base64_signature() {
    let signer = setup_signer(vec![1, 2, 3], vec![4, 5, 6], Algorithm::SHA256, Encoder::UrlSafe);
    let claim = TestClaim {
        exp: (Utc::now() + Duration::hours(1)).timestamp(),
        data: "test_data".to_string(),
    };

    let token = signer.sign(claim_to_json(&claim).as_bytes());
    let parts: Vec<&str> = token.split(DELIM).collect();
    let invalid_token = format!("{}.{}", parts[0], "invalid_base64");

    let result = unsign_claim(&signer, &invalid_token, Utc::now().timestamp());

    assert!(matches!(result, Err(Error::InvalidSignature)));
}
