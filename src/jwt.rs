use crate::token::VerifyError;
use base64::Engine;
use vstd::prelude::*;
use vstd::string::StringExecFns;

verus! {

/// The protected header of every token: RS256, type JWT.
pub const JWT_HEADER: &'static str = "{\"typ\":\"JWT\",\"alg\":\"RS256\"}";

/// The unpadded URL-safe base64 text of some bytes.
pub uninterp spec fn b64url_of(bytes: Seq<u8>) -> Seq<char>;

/// No character of `s` is a dot.
pub open spec fn no_dot(s: Seq<char>) -> bool {
    forall|k: int| 0 <= k < s.len() ==> s[k] != '.'
}

/// Three segments joined by dots, as in a compact token.
pub open spec fn joined(a: Seq<char>, b: Seq<char>, c: Seq<char>) -> Seq<char> {
    a + seq!['.'] + b + seq!['.'] + c
}

/// The first segment of every token this library signs.
pub open spec fn header_part() -> Seq<char> {
    b64url_of(vstd::utf8::encode_utf8(JWT_HEADER@))
}

/// The bytes a signature covers: the header and payload segments joined by a dot.
pub open spec fn signing_input(payload: Seq<u8>) -> Seq<u8> {
    vstd::utf8::encode_utf8(header_part() + seq!['.'] + b64url_of(payload))
}

/// `token` frames `payload` with the signature `sig`, and `sig` is a valid RS256
/// signature of the signing input under the PEM public key.
pub open spec fn well_signed(token: Seq<char>, payload: Seq<u8>, sig: Seq<char>, pem: Seq<char>) -> bool {
    &&& no_dot(sig)
    &&& token == joined(header_part(), b64url_of(payload), sig)
    &&& rs256_accepts(sig, signing_input(payload), pem)
}

/// `token` carries `payload` under some valid RS256 signature.
pub open spec fn opens_to(token: Seq<char>, payload: Seq<u8>, pem: Seq<char>) -> bool {
    exists|sig: Seq<char>| #[trigger] well_signed(token, payload, sig, pem)
}

/// Relies on base64's `URL_SAFE_NO_PAD` engine: its alphabet holds letters, digits, `-`
/// and `_`, never a dot.
#[verifier::external_body]
fn b64url_encode(bytes: &[u8]) -> (r: String)
    ensures
        r@ == b64url_of(bytes@),
        no_dot(r@),
{
    base64::engine::general_purpose::URL_SAFE_NO_PAD.encode(bytes)
}

/// Relies on base64's `URL_SAFE_NO_PAD` engine, which accepts exactly the texts it would
/// itself write: no padding and no stray trailing bits, and every encoding decodes.
#[verifier::external_body]
fn b64url_decode(text: &str) -> (r: Option<Vec<u8>>)
    ensures
        r matches Some(b) ==> b64url_of(b@) == text@,
        r is None ==> forall|x: Seq<u8>| #[trigger] b64url_of(x) != text@,
{
    base64::engine::general_purpose::URL_SAFE_NO_PAD.decode(text).ok()
}

/// The RS256 signature (unpadded URL-safe base64) that a PEM private key gives a
/// message, or `None` where the PEM text is not an RSA private key or cannot sign.
pub uninterp spec fn rs256_signature(message: Seq<u8>, pem: Seq<char>) -> Option<Seq<char>>;

/// Whether a signature text is a valid RS256 signature of a message under a PEM public
/// key.
pub uninterp spec fn rs256_accepts(sig: Seq<char>, message: Seq<u8>, pem: Seq<char>) -> bool;

/// Relies on jsonwebtoken::EncodingKey::from_rsa_pem, then jsonwebtoken::crypto::sign
/// with RS256, which writes the signature in unpadded URL-safe base64, so it holds no
/// dot. Both depend on their arguments alone: RS256 padding in ring reads no randomness.
#[verifier::external_body]
fn rs256_sign_pem(message: &[u8], pem: &str) -> (r: Option<String>)
    ensures
        r is Some <==> rs256_signature(message@, pem@) is Some,
        r matches Some(s) ==> Some(s@) == rs256_signature(message@, pem@) && no_dot(s@),
{
    let key = jsonwebtoken::EncodingKey::from_rsa_pem(pem.as_bytes()).ok()?;
    jsonwebtoken::crypto::sign(message, &key, jsonwebtoken::Algorithm::RS256).ok()
}

/// Relies on jsonwebtoken::DecodingKey::from_rsa_pem, then jsonwebtoken::crypto::verify
/// with RS256; an unreadable key or signature counts as a refusal.
#[verifier::external_body]
fn rs256_check(sig: &str, message: &[u8], pem: &str) -> (r: bool)
    ensures
        r == rs256_accepts(sig@, message@, pem@),
{
    match jsonwebtoken::DecodingKey::from_rsa_pem(pem.as_bytes()) {
        Ok(key) => jsonwebtoken::crypto::verify(sig, message, &key, jsonwebtoken::Algorithm::RS256)
            .unwrap_or(false),
        Err(_) => false,
    }
}

/// The position of the first dot at or after `from`, or the length of `s`.
fn find_dot(s: &str, from: usize) -> (r: usize)
    requires
        from <= s@.len(),
    ensures
        from <= r <= s@.len(),
        r < s@.len() ==> s@[r as int] == '.',
        forall|k: int| from <= k < r ==> s@[k] != '.',
{
    let n = s.unicode_len();
    let mut i = from;
    while i < n
        invariant
            n == s@.len(),
            from <= i <= n,
            forall|k: int| from <= k < i ==> s@[k] != '.',
        decreases n - i,
    {
        if s.get_char(i) == '.' {
            return i;
        }
        i = i + 1;
    }
    i
}

proof fn lemma_joined_dots(a: Seq<char>, b: Seq<char>, c: Seq<char>)
    requires
        no_dot(a),
        no_dot(b),
        no_dot(c),
    ensures
        ({
            let t = joined(a, b, c);
            let j: int = a.len() as int + 1 + b.len() as int;
            &&& t.len() == j + 1 + c.len()
            &&& t[a.len() as int] == '.'
            &&& t[j] == '.'
            &&& forall|k: int| 0 <= k < a.len() ==> t[k] != '.'
            &&& forall|k: int| a.len() < k < j ==> t[k] != '.'
            &&& forall|k: int| j < k < t.len() ==> t[k] != '.'
            &&& t.subrange(0, a.len() as int) == a
            &&& t.subrange(a.len() as int + 1, j) == b
            &&& t.subrange(j + 1, t.len() as int) == c
        }),
{
    let t = joined(a, b, c);
    let j: int = a.len() as int + 1 + b.len() as int;
    assert(t.subrange(0, a.len() as int) =~= a);
    assert(t.subrange(a.len() as int + 1, j) =~= b);
    assert(t.subrange(j + 1, t.len() as int) =~= c);
    assert forall|k: int| 0 <= k < a.len() implies t[k] != '.' by {
        assert(t[k] == a[k]);
    }
    assert forall|k: int| a.len() < k < j implies t[k] != '.' by {
        assert(t[k] == b[k - a.len() - 1]);
    }
    assert forall|k: int| j < k < t.len() implies t[k] != '.' by {
        assert(t[k] == c[k - j - 1]);
    }
}

/// Framing is unambiguous: a compact token is made of dot-free segments in only one way,
/// so the header, payload and signature read back are the ones that were framed.
pub proof fn lemma_segments_unique(
    a: Seq<char>,
    b: Seq<char>,
    c: Seq<char>,
    a2: Seq<char>,
    b2: Seq<char>,
    c2: Seq<char>,
)
    requires
        no_dot(a) && no_dot(b) && no_dot(c),
        no_dot(a2) && no_dot(b2) && no_dot(c2),
        joined(a, b, c) == joined(a2, b2, c2),
    ensures
        a == a2,
        b == b2,
        c == c2,
{
    lemma_joined_dots(a, b, c);
    lemma_joined_dots(a2, b2, c2);
    let t = joined(a, b, c);
    assert(a.len() == a2.len()) by {
        if a.len() < a2.len() {
            assert(t[a.len() as int] == '.');
        } else if a2.len() < a.len() {
            assert(t[a2.len() as int] == '.');
        }
    }
    let j: int = a.len() as int + 1 + b.len() as int;
    let j2: int = a2.len() as int + 1 + b2.len() as int;
    assert(j == j2) by {
        if j < j2 {
            assert(t[j] == '.');
        } else if j2 < j {
            assert(t[j2] == '.');
        }
    }
}

/// Splits a compact token into its three dot-separated segments.
pub fn split_token(token: &str) -> (r: Option<(String, String, String)>)
    ensures
        match r {
            Some((a, b, c)) => no_dot(a@) && no_dot(b@) && no_dot(c@) && token@ == joined(
                a@,
                b@,
                c@,
            ),
            None => forall|a: Seq<char>, b: Seq<char>, c: Seq<char>|
                no_dot(a) && no_dot(b) && no_dot(c) ==> #[trigger] joined(a, b, c) != token@,
        },
{
    let n = token.unicode_len();
    let i = find_dot(token, 0);
    if i == n {
        proof {
            assert forall|a: Seq<char>, b: Seq<char>, c: Seq<char>|
                no_dot(a) && no_dot(b) && no_dot(c) implies #[trigger] joined(a, b, c) != token@ by {
                if joined(a, b, c) == token@ {
                    lemma_joined_dots(a, b, c);
                }
            }
        }
        return None;
    }
    let j = find_dot(token, i + 1);
    if j == n {
        proof {
            assert forall|a: Seq<char>, b: Seq<char>, c: Seq<char>|
                no_dot(a) && no_dot(b) && no_dot(c) implies #[trigger] joined(a, b, c) != token@ by {
                if joined(a, b, c) == token@ {
                    lemma_joined_dots(a, b, c);
                    assert(i == a.len());
                }
            }
        }
        return None;
    }
    let k = find_dot(token, j + 1);
    if k != n {
        proof {
            assert forall|a: Seq<char>, b: Seq<char>, c: Seq<char>|
                no_dot(a) && no_dot(b) && no_dot(c) implies #[trigger] joined(a, b, c) != token@ by {
                if joined(a, b, c) == token@ {
                    lemma_joined_dots(a, b, c);
                    assert(i == a.len());
                    assert(j == a.len() + 1 + b.len());
                }
            }
        }
        return None;
    }
    let a = String::from_str(token.substring_char(0, i));
    let b = String::from_str(token.substring_char(i + 1, j));
    let c = String::from_str(token.substring_char(j + 1, n));
    proof {
        assert(token@ =~= joined(a@, b@, c@));
    }
    Some((a, b, c))
}

/// Frames `payload` as a compact RS256 token and signs it with the PEM private key;
/// `None` exactly where the key cannot sign.
pub fn sign_token(payload: &[u8], private_key_pem: &str) -> (r: Option<String>)
    ensures
        match rs256_signature(signing_input(payload@), private_key_pem@) {
            Some(sig) => r matches Some(t) && t@ == joined(header_part(), b64url_of(payload@), sig),
            None => r is None,
        },
{
    let header = b64url_encode(JWT_HEADER.as_bytes());
    let body = b64url_encode(payload);
    let input = header.concat(".").concat(body.as_str());
    proof {
        reveal_strlit(".");
        assert(input@ =~= header_part() + seq!['.'] + b64url_of(payload@));
    }
    let signature = rs256_sign_pem(input.as_str().as_bytes(), private_key_pem)?;
    let token = input.concat(".").concat(signature.as_str());
    proof {
        assert(token@ =~= joined(header_part(), b64url_of(payload@), signature@));
    }
    Some(token)
}

/// Opens a compact token: checks its shape, its header and its RS256 signature under the
/// PEM public key, and gives back the payload bytes.
pub fn open_token(token: &str, public_key_pem: &str) -> (r: Result<Vec<u8>, VerifyError>)
    ensures
        r matches Ok(p) ==> opens_to(token@, p@, public_key_pem@),
        forall|p: Seq<u8>, sig: Seq<char>|
            #[trigger] well_signed(token@, p, sig, public_key_pem@) && no_dot(b64url_of(p))
                ==> r is Ok,
        r matches Err(e) ==> e == VerifyError::InvalidSignature || e == VerifyError::MalformedToken,
{
    let expected = b64url_encode(JWT_HEADER.as_bytes());
    let (header, body, signature) = match split_token(token) {
        Some(parts) => parts,
        None => {
            return Err(VerifyError::MalformedToken);
        },
    };
    proof {
        assert forall|p: Seq<u8>, sig: Seq<char>|
            #[trigger] well_signed(token@, p, sig, public_key_pem@) && no_dot(b64url_of(p))
            implies header@ == header_part() && body@ == b64url_of(p) && signature@ == sig by {
            lemma_segments_unique(header@, body@, signature@, header_part(), b64url_of(p), sig);
        }
    }
    if !(header == expected) {
        return Err(VerifyError::MalformedToken);
    }
    let input = header.concat(".").concat(body.as_str());
    proof {
        reveal_strlit(".");
        assert(input@ =~= header@ + seq!['.'] + body@);
    }
    if !rs256_check(signature.as_str(), input.as_str().as_bytes(), public_key_pem) {
        return Err(VerifyError::InvalidSignature);
    }
    match b64url_decode(body.as_str()) {
        Some(payload) => {
            proof {
                assert(well_signed(token@, payload@, signature@, public_key_pem@));
                assert(opens_to(token@, payload@, public_key_pem@));
            }
            Ok(payload)
        },
        None => Err(VerifyError::MalformedToken),
    }
}

} // verus!
