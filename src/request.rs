use vstd::prelude::*;
use vstd::string::*;

verus! {

/// Whether `c` is white space in the sense of Unicode's `White_Space`
/// property, which is what `char::is_whitespace` and `str::trim` go by.
pub open spec fn is_white(c: char) -> bool {
    let u = c as u32;
    (9 <= u && u <= 13) || u == 32 || u == 0x85 || u == 0xA0 || u == 0x1680 || (0x2000 <= u
        && u <= 0x200A) || u == 0x2028 || u == 0x2029 || u == 0x202F || u == 0x205F || u == 0x3000
}

/// A character allowed in the algorithm name of a digest: `[a-z0-9]`.
pub open spec fn is_algo_char(c: char) -> bool {
    let u = c as u32;
    (97 <= u && u <= 122) || (48 <= u && u <= 57)
}

/// A lower-case hexadecimal digit: `[0-9a-f]`.
pub open spec fn is_hex_digit(c: char) -> bool {
    let u = c as u32;
    (97 <= u && u <= 102) || (48 <= u && u <= 57)
}

/// Number of hexadecimal digits after the colon of a digest.
pub const DIGEST_HEX_LEN: usize = 64;

/// `s` has the shape `^[a-z0-9]+:[0-9a-f]{64}$`: an algorithm name, a colon,
/// and the hexadecimal digest.
pub open spec fn is_digest(s: Seq<char>) -> bool {
    let k = s.len() - (DIGEST_HEX_LEN + 1);
    &&& s.len() > DIGEST_HEX_LEN + 1
    &&& s[k] == ':'
    &&& forall|j: int| 0 <= j < k ==> is_algo_char(#[trigger] s[j])
    &&& forall|j: int| k < j < s.len() ==> is_hex_digit(#[trigger] s[j])
}

/// Why a field of a request was refused.
#[derive(Clone, Copy, Debug, PartialEq, Eq, Structural)]
pub enum InvalidReason {
    EmptyPath,
    BoundaryWhitespace,
    MalformedDigest,
}

/// The field of a request that was refused.
#[derive(Clone, Copy, Debug, PartialEq, Eq, Structural)]
pub enum RequestField {
    Bundle,
    Keys,
    Policy,
    Input,
    Receipt,
    KeysDigest,
}

/// What is wrong with a path, if anything: it is empty, or trimming white
/// space off its ends would change it.
pub open spec fn path_problem(p: Seq<char>) -> Option<InvalidReason> {
    if p.len() == 0 {
        Some(InvalidReason::EmptyPath)
    } else if is_white(p[0]) || is_white(p[p.len() - 1]) {
        Some(InvalidReason::BoundaryWhitespace)
    } else {
        None
    }
}

/// A request to verify a bundle, run it, and read back the receipt it wrote.
/// Paths are held as text.
#[derive(Clone, Debug)]
pub struct AgentExecutionRequest {
    pub bundle: String,
    pub keys: String,
    pub keys_digest: Option<String>,
    pub policy: String,
    pub input: String,
    pub receipt: String,
    pub require_cosign: bool,
    pub oci_ref: Option<String>,
    pub cosign_key: Option<String>,
    pub cosign_cert_identity: Option<String>,
    pub cosign_cert_oidc_issuer: Option<String>,
    pub allow_experimental: bool,
}

/// The first refused field of a request, in the order bundle, keys, policy,
/// input, receipt, keys digest; `None` when the request is well formed.
pub open spec fn request_problem(req: AgentExecutionRequest) -> Option<(RequestField, InvalidReason)> {
    if path_problem(req.bundle@) is Some {
        Some((RequestField::Bundle, path_problem(req.bundle@).unwrap()))
    } else if path_problem(req.keys@) is Some {
        Some((RequestField::Keys, path_problem(req.keys@).unwrap()))
    } else if path_problem(req.policy@) is Some {
        Some((RequestField::Policy, path_problem(req.policy@).unwrap()))
    } else if path_problem(req.input@) is Some {
        Some((RequestField::Input, path_problem(req.input@).unwrap()))
    } else if path_problem(req.receipt@) is Some {
        Some((RequestField::Receipt, path_problem(req.receipt@).unwrap()))
    } else {
        match req.keys_digest {
            Some(d) => if is_digest(d@) {
                None
            } else {
                Some((RequestField::KeysDigest, InvalidReason::MalformedDigest))
            },
            None => None,
        }
    }
}

pub fn is_white_char(c: char) -> (r: bool)
    ensures
        r == is_white(c),
{
    let u = c as u32;
    (9 <= u && u <= 13) || u == 32 || u == 0x85 || u == 0xA0 || u == 0x1680 || (0x2000 <= u
        && u <= 0x200A) || u == 0x2028 || u == 0x2029 || u == 0x202F || u == 0x205F || u == 0x3000
}

fn is_algo_char_exec(c: char) -> (r: bool)
    ensures
        r == is_algo_char(c),
{
    let u = c as u32;
    (97 <= u && u <= 122) || (48 <= u && u <= 57)
}

fn is_hex_digit_exec(c: char) -> (r: bool)
    ensures
        r == is_hex_digit(c),
{
    let u = c as u32;
    (97 <= u && u <= 102) || (48 <= u && u <= 57)
}

/// Checks a path: `None` when it is non-empty and has no white space at
/// either end.
pub fn check_path(p: &str) -> (r: Option<InvalidReason>)
    ensures
        r == path_problem(p@),
{
    let n = p.unicode_len();
    if n == 0 {
        Some(InvalidReason::EmptyPath)
    } else if is_white_char(p.get_char(0)) || is_white_char(p.get_char(n - 1)) {
        Some(InvalidReason::BoundaryWhitespace)
    } else {
        None
    }
}

/// Whether `s` has the digest shape `algo:hex`.
pub fn is_digest_text(s: &str) -> (r: bool)
    ensures
        r == is_digest(s@),
{
    let n = s.unicode_len();
    if n <= DIGEST_HEX_LEN + 1 {
        return false;
    }
    let colon = n - (DIGEST_HEX_LEN + 1);
    if s.get_char(colon) as u32 != 58 {
        return false;
    }
    let mut i: usize = 0;
    while i < colon
        invariant
            n == s@.len(),
            colon == n - 65,
            0 <= i <= colon,
            forall|j: int| 0 <= j < i ==> is_algo_char(#[trigger] s@[j]),
        decreases colon - i,
    {
        if !is_algo_char_exec(s.get_char(i)) {
            return false;
        }
        i = i + 1;
    }
    let mut i: usize = colon + 1;
    while i < n
        invariant
            n == s@.len(),
            colon == n - 65,
            colon < i <= n,
            forall|j: int| colon < j < i ==> is_hex_digit(#[trigger] s@[j]),
        decreases n - i,
    {
        if !is_hex_digit_exec(s.get_char(i)) {
            return false;
        }
        i = i + 1;
    }
    true
}

/// A keys digest that is known to have the shape `algo:hex`.
pub struct KeysDigest {
    text: String,
}

impl View for KeysDigest {
    type V = Seq<char>;

    closed spec fn view(&self) -> Seq<char> {
        self.text@
    }
}

impl KeysDigest {
    #[verifier::type_invariant]
    spec fn well_formed(self) -> bool {
        is_digest(self.text@)
    }

    /// Accepts `s` exactly when it has the digest shape.
    pub fn parse(s: &str) -> (r: Option<KeysDigest>)
        ensures
            r is Some <==> is_digest(s@),
            r matches Some(d) ==> d@ == s@,
    {
        if is_digest_text(s) {
            Some(KeysDigest { text: s.to_owned() })
        } else {
            None
        }
    }

    pub fn as_str(&self) -> (r: &str)
        ensures
            r@ == self@,
            is_digest(r@),
    {
        proof {
            use_type_invariant(self);
        }
        self.text.as_str()
    }
}

/// Checks a request before anything is run.
pub fn check_request(req: &AgentExecutionRequest) -> (r: Option<(RequestField, InvalidReason)>)
    ensures
        r == request_problem(*req),
{
    if let Some(why) = check_path(req.bundle.as_str()) {
        return Some((RequestField::Bundle, why));
    }
    if let Some(why) = check_path(req.keys.as_str()) {
        return Some((RequestField::Keys, why));
    }
    if let Some(why) = check_path(req.policy.as_str()) {
        return Some((RequestField::Policy, why));
    }
    if let Some(why) = check_path(req.input.as_str()) {
        return Some((RequestField::Input, why));
    }
    if let Some(why) = check_path(req.receipt.as_str()) {
        return Some((RequestField::Receipt, why));
    }
    match &req.keys_digest {
        Some(d) => match KeysDigest::parse(d.as_str()) {
            Some(_) => None,
            None => Some((RequestField::KeysDigest, InvalidReason::MalformedDigest)),
        },
        None => None,
    }
}

} // verus!
