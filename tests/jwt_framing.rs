use token_engine::config::generate_rsa_key;
use token_engine::jwt::{open_token, sign_token, split_token};
use token_engine::token::VerifyError;

#[test]
fn split_token_gives_three_segments() {
    assert_eq!(
        split_token("aa.bb.cc"),
        Some(("aa".to_string(), "bb".to_string(), "cc".to_string()))
    );
    assert_eq!(
        split_token(".."),
        Some((String::new(), String::new(), String::new()))
    );
    assert_eq!(split_token("aa.bb"), None);
    assert_eq!(split_token("aa.bb.cc.dd"), None);
    assert_eq!(split_token("plain"), None);
}

#[test]
fn signed_tokens_open_to_their_payload() {
    let (private, public) = generate_rsa_key().unwrap();
    let payload = b"{}".to_vec();
    let token = sign_token(&payload, &private).unwrap();
    let (header, body, signature) = split_token(&token).unwrap();
    assert_eq!(header, "eyJ0eXAiOiJKV1QiLCJhbGciOiJSUzI1NiJ9");
    assert_eq!(body, "e30");
    assert!(!signature.is_empty());
    assert_eq!(open_token(&token, &public), Ok(payload.clone()));

    let claims = br#"{"sub":"user-1","typ":"access"}"#.to_vec();
    let other = sign_token(&claims, &private).unwrap();
    assert_eq!(open_token(&other, &public), Ok(claims));

    let swapped = format!("{}.{}.{}", header, split_token(&other).unwrap().1, signature);
    assert_eq!(open_token(&swapped, &public), Err(VerifyError::InvalidSignature));
    let reheaded = format!("e30.{}.{}", body, signature);
    assert_eq!(open_token(&reheaded, &public), Err(VerifyError::MalformedToken));
    assert_eq!(open_token("a.b", &public), Err(VerifyError::MalformedToken));
    assert_eq!(open_token(&token, "not a key"), Err(VerifyError::InvalidSignature));
    assert_eq!(sign_token(&payload, "not a key"), None);
    assert_eq!(sign_token(&payload, &public), None);
    let (_, other_public) = generate_rsa_key().unwrap();
    assert_eq!(open_token(&token, &other_public), Err(VerifyError::InvalidSignature));
}
