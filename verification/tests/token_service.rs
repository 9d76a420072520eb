//! Tests of the token service: issue, verify, expiry, tampering.

use mpb::auth::{
    decode_jwt, decode_jwt_at, generate_jwt, generate_jwt_at, issue_pair_at, issue_then_verify_at,
    AuthError, SigningContext, TOKEN_TTL_SECONDS,
};

fn ctx() -> SigningContext {
    SigningContext::new(b"test-secret".to_vec())
}

#[test]
fn roundtrip_issue_then_verify() {
    let ctx = ctx();
    let token = generate_jwt_at(&ctx, "a@b.com".to_string(), "h1".to_string(), 1000).unwrap();
    let claims = decode_jwt_at(&ctx, &token, 1000).unwrap();
    assert_eq!(claims.email, "a@b.com");
    assert_eq!(claims.hashed_password, "h1");
    assert_eq!(claims.issued_at, 1000);
    assert_eq!(claims.expires_at, 1000 + TOKEN_TTL_SECONDS);
}

#[test]
fn bearer_prefix_is_stripped() {
    let ctx = ctx();
    let token = generate_jwt_at(&ctx, "a@b.com".to_string(), "h1".to_string(), 1000).unwrap();
    let with_prefix = format!("Bearer {}", token);
    let claims = decode_jwt_at(&ctx, &with_prefix, 1100).unwrap();
    assert_eq!(claims.email, "a@b.com");
    // The raw token, without the prefix, is accepted as well.
    assert!(decode_jwt_at(&ctx, &token, 1100).is_ok());
}

#[test]
fn expiry_boundary_is_exclusive() {
    let ctx = ctx();
    let token = generate_jwt_at(&ctx, "a@b.com".to_string(), "h1".to_string(), 1000).unwrap();
    let expires_at = 1000 + TOKEN_TTL_SECONDS;
    assert!(decode_jwt_at(&ctx, &token, expires_at - 1).is_ok());
    assert_eq!(decode_jwt_at(&ctx, &token, expires_at), Err(AuthError::Expired));
    assert_eq!(decode_jwt_at(&ctx, &token, expires_at + 1), Err(AuthError::Expired));
}

#[test]
fn flipped_signature_bits_give_invalid_signature() {
    let ctx = ctx();
    let token = generate_jwt_at(&ctx, "a@b.com".to_string(), "h1".to_string(), 1000).unwrap();
    let sig_start = token.rfind('.').unwrap() + 1;
    assert!(sig_start < token.len());
    // Flipping the low bit of a base64url character never yields the segment
    // separator, so every such flip must be seen as a broken signature.
    for mask in [0x01u8, 0x02u8] {
        for pos in sig_start..token.len() {
            let mut bytes = token.clone().into_bytes();
            bytes[pos] ^= mask;
            assert_ne!(bytes[pos], b'.');
            let tampered = String::from_utf8(bytes).unwrap();
            assert_eq!(
                decode_jwt_at(&ctx, &tampered, 1100),
                Err(AuthError::InvalidSignature),
                "flip of bit mask {:#x} at byte {} was not caught",
                mask,
                pos
            );
        }
    }
}

#[test]
fn tampered_payload_gives_invalid_signature() {
    let ctx = ctx();
    let token = generate_jwt_at(&ctx, "a@b.com".to_string(), "h1".to_string(), 1000).unwrap();
    let first_dot = token.find('.').unwrap();
    let mut bytes = token.clone().into_bytes();
    bytes[first_dot + 1] ^= 0x01;
    assert_ne!(bytes[first_dot + 1], b'.');
    let tampered = String::from_utf8(bytes).unwrap();
    assert_eq!(decode_jwt_at(&ctx, &tampered, 1100), Err(AuthError::InvalidSignature));
}

#[test]
fn wrong_secret_gives_invalid_signature() {
    let ctx = ctx();
    let other = SigningContext::new(b"another-secret".to_vec());
    let token = generate_jwt_at(&ctx, "a@b.com".to_string(), "h1".to_string(), 1000).unwrap();
    assert_eq!(decode_jwt_at(&other, &token, 1100), Err(AuthError::InvalidSignature));
}

#[test]
fn unparseable_strings_give_malformed_token() {
    let ctx = ctx();
    assert_eq!(decode_jwt_at(&ctx, "", 0), Err(AuthError::MalformedToken));
    assert_eq!(decode_jwt_at(&ctx, "not-a-token", 0), Err(AuthError::MalformedToken));
    assert_eq!(decode_jwt_at(&ctx, "a.b.c", 0), Err(AuthError::MalformedToken));
    assert_eq!(decode_jwt_at(&ctx, "Bearer ", 0), Err(AuthError::MalformedToken));
}

#[test]
fn two_instants_give_distinct_tokens() {
    let ctx = ctx();
    let (t1, t2) =
        issue_pair_at(&ctx, "a@b.com".to_string(), "h1".to_string(), 1000, 2000).unwrap();
    assert_ne!(t1, t2);
    // Each token independently verifies until its own expiry.
    let c1 = decode_jwt_at(&ctx, &t1, 1000 + TOKEN_TTL_SECONDS - 1).unwrap();
    let c2 = decode_jwt_at(&ctx, &t2, 2000 + TOKEN_TTL_SECONDS - 1).unwrap();
    assert_eq!(c1.issued_at, 1000);
    assert_eq!(c2.issued_at, 2000);
    assert_eq!(decode_jwt_at(&ctx, &t1, 1000 + TOKEN_TTL_SECONDS), Err(AuthError::Expired));
}

#[test]
fn issue_then_verify_law_on_concrete_values() {
    let ctx = ctx();
    let (_, fresh) =
        issue_then_verify_at(&ctx, "a@b.com".to_string(), "h1".to_string(), 500, 700).unwrap();
    let claims = fresh.unwrap();
    assert_eq!(claims.email, "a@b.com");
    assert_eq!(claims.issued_at, 500);

    let (_, stale) =
        issue_then_verify_at(&ctx, "a@b.com".to_string(), "h1".to_string(), 500, 800).unwrap();
    assert_eq!(stale, Err(AuthError::Expired));
}

#[test]
fn verification_is_deterministic() {
    let ctx = ctx();
    let token = generate_jwt_at(&ctx, "a@b.com".to_string(), "h1".to_string(), 1000).unwrap();
    for credential in [token.as_str(), "garbage", "", "a.b.c"] {
        assert_eq!(
            decode_jwt_at(&ctx, credential, 1100),
            decode_jwt_at(&ctx, credential, 1100)
        );
    }
    let mut bytes = token.clone().into_bytes();
    let last = bytes.len() - 1;
    bytes[last] ^= 0x01;
    let tampered = String::from_utf8(bytes).unwrap();
    assert_eq!(
        decode_jwt_at(&ctx, &tampered, 1100),
        decode_jwt_at(&ctx, &tampered, 1100)
    );
}

#[test]
fn bearer_prefix_is_transparent_on_any_string() {
    let ctx = ctx();
    let token = generate_jwt_at(&ctx, "a@b.com".to_string(), "h1".to_string(), 1000).unwrap();
    for raw in [token.as_str(), "garbage", "a.b.c", ""] {
        let with_prefix = format!("Bearer {}", raw);
        assert_eq!(
            decode_jwt_at(&ctx, &with_prefix, 1100),
            decode_jwt_at(&ctx, raw, 1100)
        );
    }
}

#[test]
fn wall_clock_issue_and_verify() {
    let ctx = ctx();
    let token = generate_jwt(&ctx, "a@b.com".to_string(), "h1".to_string()).unwrap();
    let claims = decode_jwt(&ctx, &token).unwrap();
    assert_eq!(claims.email, "a@b.com");
    assert_eq!(claims.expires_at, claims.issued_at + TOKEN_TTL_SECONDS);
}
