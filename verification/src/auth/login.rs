//! The decisions of the interactive login flow: deployment, host, account
//! mode, the token-minting URL, the credentials header and the reading of
//! the answer. Prompts and HTTP happen around these.

use vstd::prelude::*;
use base64::Engine as _;
use crate::api::error::{map_error, map_error_spec, ErrorDoc};
use crate::config::profile::{AccountMode, Deployment};
use crate::error::Error;
use crate::json::{as_str_spec, get_spec, pointer_spec, Json, JsonV};
use crate::text::{concat, copy_str, opt_view, str_eq};
use crate::urls::{parse_url, segments_view, url_parse_result, url_with_segments, url_with_segments_result};

verus! {

/// The deployment choices offered, in order.
pub fn deployment_choices() -> (r: Vec<&'static str>)
    ensures
        r@.len() == 3,
        r@[0]@ == "keygen.sh Official"@,
        r@[1]@ == "Self-hosted CE"@,
        r@[2]@ == "Self-hosted EE"@,
{
    vec!["keygen.sh Official", "Self-hosted CE", "Self-hosted EE"]
}

/// The deployment a choice label stands for (anything else is EE).
pub open spec fn deployment_of_choice(label: Seq<char>) -> Deployment {
    if label == "keygen.sh Official"@ {
        Deployment::Official
    } else if label == "Self-hosted CE"@ {
        Deployment::Ce
    } else {
        Deployment::Ee
    }
}

/// The deployment a choice label stands for.
pub fn deployment_from_choice(label: &str) -> (d: Deployment)
    ensures
        d == deployment_of_choice(label@),
{
    if str_eq(label, "keygen.sh Official") {
        Deployment::Official
    } else if str_eq(label, "Self-hosted CE") {
        Deployment::Ce
    } else {
        Deployment::Ee
    }
}

/// The choice pre-selected for the active profile's deployment.
pub fn starting_cursor(d: Deployment) -> (i: usize)
    ensures
        i == match d {
            Deployment::Official => 0usize,
            Deployment::Ce => 1usize,
            Deployment::Ee => 2usize,
        },
{
    match d {
        Deployment::Official => 0,
        Deployment::Ce => 1,
        Deployment::Ee => 2,
    }
}

/// The host offered by default: the official API for Official, otherwise
/// the active profile's host.
pub fn default_host(d: Deployment, profile_host: &str) -> (r: String)
    ensures
        r@ == if d == Deployment::Official {
            "https://api.keygen.sh"@
        } else {
            profile_host@
        },
{
    if d == Deployment::Official {
        String::from_str("https://api.keygen.sh")
    } else {
        String::from_str(profile_host)
    }
}

/// Whether paths are account-scoped: always off CE; on CE only when the user
/// confirmed multiplayer mode.
pub fn needs_account(d: Deployment, multiplayer_confirmed: bool) -> (r: bool)
    ensures
        r == (d != Deployment::Ce || multiplayer_confirmed),
{
    d != Deployment::Ce || multiplayer_confirmed
}

/// The account mode that follows from whether an account is needed.
pub fn login_mode(needs_account: bool) -> (m: AccountMode)
    ensures
        m == if needs_account {
            AccountMode::Multiplayer
        } else {
            AccountMode::Singleplayer
        },
{
    if needs_account {
        AccountMode::Multiplayer
    } else {
        AccountMode::Singleplayer
    }
}

/// The path of the token-minting endpoint: `v1[/accounts/<id>]/tokens`.
pub open spec fn token_segments(mode: AccountMode, account: Seq<char>) -> Seq<Seq<char>> {
    match mode {
        AccountMode::Multiplayer => seq!["v1"@, "accounts"@, account, "tokens"@],
        AccountMode::Singleplayer => seq!["v1"@, "tokens"@],
    }
}

/// The URL tokens are minted at, or why it cannot be built.
pub open spec fn tokens_url_spec(
    host: Seq<char>,
    mode: AccountMode,
    account: Option<Seq<char>>,
    r: Result<String, Error>,
) -> bool {
    match url_parse_result(host) {
        Err(e) => r matches Err(Error::Config(m)) && m@ == "invalid host: "@ + e,
        Ok((_, _, base)) => if !base {
            r matches Err(Error::Config(m)) && m@ == "host cannot be a base"@
        } else if mode == AccountMode::Multiplayer && account is None {
            r matches Err(Error::Config(m)) && m@ == "multiplayer login requires an account"@
        } else {
            r matches Ok(u) && u@ == url_with_segments_result(
                host,
                token_segments(
                    mode,
                    match account {
                        Some(a) => a,
                        None => Seq::empty(),
                    },
                ),
            )
        },
    }
}

/// Build the token-minting URL `<host>/v1[/accounts/<id>]/tokens`.
pub fn tokens_url(host: &str, mode: AccountMode, account: Option<&str>) -> (r: Result<String, Error>)
    ensures
        tokens_url_spec(
            host@,
            mode,
            match account {
                Some(a) => Some(a@),
                None => None,
            },
            r,
        ),
{
    let parsed = match parse_url(host) {
        Ok(u) => u,
        Err(e) => return Err(Error::Config(concat("invalid host: ", e.as_str()))),
    };
    if !parsed.can_be_base {
        return Err(Error::config("host cannot be a base"));
    }
    let mut segs: Vec<String> = Vec::new();
    segs.push(String::from_str("v1"));
    if mode == AccountMode::Multiplayer {
        match account {
            Some(a) => {
                segs.push(String::from_str("accounts"));
                segs.push(String::from_str(a));
            },
            None => return Err(Error::config("multiplayer login requires an account")),
        }
    }
    segs.push(String::from_str("tokens"));
    proof {
        let acc = match account {
            Some(a) => a@,
            None => Seq::empty(),
        };
        assert(segments_view(segs@) =~= token_segments(mode, acc));
    }
    Ok(url_with_segments(host, &segs))
}

/// The digit of value `d` (below 64) in the standard base64 alphabet:
/// `A`-`Z`, `a`-`z`, `0`-`9`, `+`, `/`.
pub open spec fn base64_digit(d: int) -> char {
    if d < 26 {
        (65 + d) as char
    } else if d < 52 {
        (97 + d - 26) as char
    } else if d < 62 {
        (48 + d - 52) as char
    } else if d == 62 {
        '+'
    } else {
        '/'
    }
}

/// The four digits of a 24-bit group.
pub open spec fn base64_group(n: int) -> Seq<char> {
    seq![
        base64_digit(n / 262144),
        base64_digit((n / 4096) % 64),
        base64_digit((n / 64) % 64),
        base64_digit(n % 64),
    ]
}

/// The standard padded base64 encoding of `bytes` (RFC 4648): every three
/// bytes become four digits; a last group of two bytes becomes three digits
/// and `=`, one of one byte two digits and `==`.
pub open spec fn base64_standard(bytes: Seq<u8>) -> Seq<char>
    decreases bytes.len(),
{
    if bytes.len() == 0 {
        seq![]
    } else if bytes.len() == 1 {
        base64_group(bytes[0] * 65536).take(2) + seq!['=', '=']
    } else if bytes.len() == 2 {
        base64_group(bytes[0] * 65536 + bytes[1] * 256).take(3) + seq!['=']
    } else {
        base64_group(bytes[0] * 65536 + bytes[1] * 256 + bytes[2]) + base64_standard(
            bytes.subrange(3, bytes.len() as int),
        )
    }
}

/// `Engine::encode` of `base64::engine::general_purpose::STANDARD` (the
/// standard alphabet, with padding) on the UTF-8 bytes of `s`: the encoding
/// is `base64_standard`.
#[verifier::external_body]
fn base64_encode(s: &str) -> (r: String)
    ensures
        r@ == base64_standard(vstd::utf8::encode_utf8(s@)),
{
    base64::engine::general_purpose::STANDARD.encode(s.as_bytes())
}

/// The HTTP Basic credentials of the token-minting request:
/// `Basic base64(<email>:<password>)`.
pub fn basic_credentials(email: &str, password: &str) -> (r: String)
    ensures
        ({
            let joined = email@ + seq![':'] + password@;
            r@ == "Basic "@ + base64_standard(vstd::utf8::encode_utf8(joined))
        }),
{
    let joined = crate::text::concat3(email, ":", password);
    proof {
        reveal_strlit(":");
    }
    assert(joined@ == email@ + seq![':'] + password@);
    let js: &str = joined.as_str();
    let encoded = base64_encode(js);
    let r = concat("Basic ", encoded.as_str());
    assert(r@ == "Basic "@ + base64_standard(vstd::utf8::encode_utf8(js@)));
    r
}

/// The token in a successful minting answer:
/// `data.attributes.token`.
pub open spec fn minted_token(doc: JsonV) -> Option<Seq<char>> {
    as_str_spec(pointer_spec(doc, seq!["data"@, "attributes"@, "token"@]))
}

/// Whether an HTTP status is a success (2xx).
pub open spec fn is_success(status: u16) -> bool {
    200 <= status < 300
}

fn minted(j: &Json) -> (r: Option<&str>)
    ensures
        match r {
            Some(s) => minted_token(j@) == Some(s@),
            None => minted_token(j@) is None,
        },
{
    let ghost path = seq!["data"@, "attributes"@, "token"@];
    assert(path.drop_first() =~= seq!["attributes"@, "token"@]);
    assert(path.drop_first().drop_first() =~= seq!["token"@]);
    assert(path.drop_first().drop_first().drop_first() =~= Seq::<Seq<char>>::empty());
    proof {
        reveal_with_fuel(pointer_spec, 4);
    }
    let d = match j.get("data") {
        Some(d) => d,
        None => return None,
    };
    let a = match d.get("attributes") {
        Some(a) => a,
        None => return None,
    };
    let t = match a.get("token") {
        Some(t) => t,
        None => return None,
    };
    t.as_str()
}

/// Read the answer of the token-minting request. `body` is the body parsed
/// as JSON (or the parser's message) and `doc` the body parsed as a JSON:API
/// error document, if it is one.
pub fn token_from_response(
    status: u16,
    request_id: Option<String>,
    body: Result<Json, String>,
    doc: Option<ErrorDoc>,
) -> (r: Result<String, Error>)
    ensures
        is_success(status) ==> match body {
            Err(msg) => r matches Err(Error::Serde(m)) && m@ == msg@,
            Ok(j) => match minted_token(j@) {
                Some(t) => r matches Ok(tok) && tok@ == t,
                None => r matches Err(Error::User(m)) && m@
                    == "login response missing data.attributes.token"@,
            },
        },
        !is_success(status) ==> (r matches Err(e) && map_error_spec(status, opt_view(request_id), doc, e)),
{
    if 200 <= status && status < 300 {
        match body {
            Err(msg) => Err(Error::Serde(msg)),
            Ok(j) => match minted(&j) {
                Some(s) => Ok(String::from_str(s)),
                None => Err(Error::user("login response missing data.attributes.token")),
            },
        }
    } else {
        Err(map_error(status, request_id, doc))
    }
}

} // verus!
