//! The route table: which handler a method and a path select, and the identity in the path.

use vstd::prelude::*;
use vstd::slice::slice_subrange;
use crate::status::Status;

verus! {

/// The method of a request.
#[derive(Clone, Copy, Debug, PartialEq, Eq, Structural)]
pub enum Method {
    Get,
    /// Served as `Get`; the transport sends the answer without its body.
    Head,
    Post,
    Put,
    Delete,
    /// Any method the service has no handler for.
    Other,
}

/// A handler together with the identity it was addressed with, if it takes one.
#[derive(Clone, Copy, Debug, PartialEq, Eq, Structural)]
pub enum Route {
    /// `POST /users`
    CreateUser,
    /// `POST /posts`
    CreatePost,
    /// `GET /posts/{id}`, and `HEAD /posts/{id}`
    GetPosts(i32),
    /// `PUT /posts/{id}`
    UpdatePost(i32),
    /// `DELETE /posts/{id}`
    DeletePost(i32),
}

/// The byte `/`, which parts the segments of a path.
pub const SLASH: u8 = 47;

/// The byte `+`.
pub const PLUS: u8 = 43;

/// The byte `-`.
pub const MINUS: u8 = 45;

/// The byte `0`, the first of the ten digits.
pub const DIGIT_ZERO: u8 = 48;

/// The byte `9`, the last of the ten digits.
pub const DIGIT_NINE: u8 = 57;

/// The byte `%`, which escapes a byte in a path.
pub const PERCENT: u8 = 37;

/// The byte `A`.
pub const UPPER_A: u8 = 65;

/// The byte `F`.
pub const UPPER_F: u8 = 70;

/// The byte `a`.
pub const LOWER_A: u8 = 97;

/// The byte `f`.
pub const LOWER_F: u8 = 102;

/// The resource a path names.
pub enum Resource {
    /// `/users`
    Users,
    /// `/posts`
    Posts,
    /// `/posts/{id}`, with the bytes that stand for `{id}`.
    Post(Seq<u8>),
}

/// The bytes of a text made of ASCII characters.
pub open spec fn ascii(text: Seq<char>) -> Seq<u8> {
    text.map_values(|c: char| c as u8)
}

/// The resource that a path names, if any. A path parameter is one non-empty segment.
pub open spec fn resource(path: Seq<u8>) -> Option<Resource> {
    let prefix = ascii("/posts/"@);
    let segment = path.skip(prefix.len() as int);
    if path == ascii("/users"@) {
        Some(Resource::Users)
    } else if path == ascii("/posts"@) {
        Some(Resource::Posts)
    } else if prefix.is_prefix_of(path) && segment.len() > 0 && !segment.contains(SLASH) {
        Some(Resource::Post(segment))
    } else {
        None
    }
}

/// Whether a byte is a decimal digit.
pub open spec fn is_digit(byte: u8) -> bool {
    DIGIT_ZERO <= byte <= DIGIT_NINE
}

/// Whether every byte is a decimal digit.
pub open spec fn all_digits(bytes: Seq<u8>) -> bool {
    forall|i: int| 0 <= i < bytes.len() ==> is_digit(#[trigger] bytes[i])
}

/// The number that a sequence of decimal digits writes.
pub open spec fn decimal(digits: Seq<u8>) -> int
    decreases digits.len(),
{
    if digits.len() == 0 {
        0
    } else {
        10 * decimal(digits.drop_last()) + (digits.last() - DIGIT_ZERO)
    }
}

/// The integer that a text writes: an optional sign, then one or more decimal digits, the
/// whole within the range of a 32-bit signed integer.
pub open spec fn number(text: Seq<u8>) -> Option<int> {
    let signed = text.len() > 0 && (text[0] == PLUS || text[0] == MINUS);
    let digits = if signed { text.skip(1) } else { text };
    let value = if signed && text[0] == MINUS { -decimal(digits) } else { decimal(digits) };
    if digits.len() > 0 && all_digits(digits) && i32::MIN <= value <= i32::MAX {
        Some(value)
    } else {
        None
    }
}

/// Whether a byte is a hexadecimal digit, in either case.
pub open spec fn is_hex(byte: u8) -> bool {
    is_digit(byte) || UPPER_A <= byte <= UPPER_F || LOWER_A <= byte <= LOWER_F
}

/// The value of a hexadecimal digit.
pub open spec fn hex_value(byte: u8) -> int {
    if is_digit(byte) {
        byte - DIGIT_ZERO
    } else if UPPER_A <= byte <= UPPER_F {
        byte - UPPER_A + 10
    } else {
        byte - LOWER_A + 10
    }
}

/// Whether an escape, `%` and two hexadecimal digits, stands at the head of the bytes.
pub open spec fn escape_ahead(bytes: Seq<u8>) -> bool {
    bytes.len() >= 3 && bytes[0] == PERCENT && is_hex(bytes[1]) && is_hex(bytes[2])
}

/// The bytes that a path segment stands for: each escape gives the byte it names, every
/// other byte stands for itself, a `%` that begins no escape included.
pub open spec fn percent_decoded(bytes: Seq<u8>) -> Seq<u8>
    decreases bytes.len(),
{
    if bytes.len() == 0 {
        Seq::empty()
    } else if escape_ahead(bytes) {
        seq![(16 * hex_value(bytes[1]) + hex_value(bytes[2])) as u8] + percent_decoded(
            bytes.skip(3),
        )
    } else {
        seq![bytes[0]] + percent_decoded(bytes.skip(1))
    }
}

/// The identity that a path segment writes: the integer written by the bytes that the
/// segment stands for.
pub open spec fn identity(segment: Seq<u8>) -> Option<int> {
    number(percent_decoded(segment))
}

/// The route table. The path is looked at first (404 if it names nothing), then the
/// method (405 if the resource does not take it), then the path parameter (400 if it
/// writes no identity).
pub open spec fn routed(method: Method, path: Seq<u8>) -> Result<Route, Status> {
    match resource(path) {
        None => Err(Status::NotFound),
        Some(Resource::Users) => if method == Method::Post {
            Ok(Route::CreateUser)
        } else {
            Err(Status::MethodNotAllowed)
        },
        Some(Resource::Posts) => if method == Method::Post {
            Ok(Route::CreatePost)
        } else {
            Err(Status::MethodNotAllowed)
        },
        Some(Resource::Post(segment)) => if method == Method::Get || method == Method::Head
            || method == Method::Put || method == Method::Delete {
            match identity(segment) {
                None => Err(Status::BadRequest),
                Some(id) => Ok(
                    if method == Method::Get || method == Method::Head {
                        Route::GetPosts(id as i32)
                    } else if method == Method::Put {
                        Route::UpdatePost(id as i32)
                    } else {
                        Route::DeletePost(id as i32)
                    },
                ),
            }
        } else {
            Err(Status::MethodNotAllowed)
        },
    }
}

/// A number written by digits is never negative.
proof fn lemma_decimal_nonnegative(digits: Seq<u8>)
    requires
        all_digits(digits),
    ensures
        decimal(digits) >= 0,
    decreases digits.len(),
{
    if digits.len() > 0 {
        lemma_decimal_nonnegative(digits.drop_last());
    }
}

/// Writing more digits after a number does not make it smaller.
proof fn lemma_decimal_grows(digits: Seq<u8>, k: int)
    requires
        all_digits(digits),
        0 <= k <= digits.len(),
    ensures
        decimal(digits.take(k)) <= decimal(digits),
    decreases digits.len(),
{
    if k == digits.len() {
        assert(digits.take(k) =~= digits);
    } else {
        let shorter = digits.drop_last();
        lemma_decimal_grows(shorter, k);
        lemma_decimal_nonnegative(shorter);
        assert(shorter.take(k) =~= digits.take(k));
    }
}

/// Whether `path` is exactly the ASCII text `text`.
fn is_text(path: &[u8], text: &str) -> (same: bool)
    requires
        text.is_ascii(),
    ensures
        same == (path@ == ascii(text@)),
{
    let n: usize = text.unicode_len();
    if path.len() != n {
        return false;
    }
    let mut i: usize = 0;
    while i < n
        invariant
            text.is_ascii(),
            n == text@.len(),
            n == path@.len(),
            i <= n,
            forall|j: int| 0 <= j < i ==> path@[j] == ascii(text@)[j],
        decreases n - i,
    {
        if path[i] != text.get_ascii(i) {
            return false;
        }
        i += 1;
    }
    assert(path@ =~= ascii(text@));
    true
}

/// Whether `path` begins with the ASCII text `text`.
fn begins_with_text(path: &[u8], text: &str) -> (begins: bool)
    requires
        text.is_ascii(),
    ensures
        begins == ascii(text@).is_prefix_of(path@),
{
    let n: usize = text.unicode_len();
    if path.len() < n {
        return false;
    }
    let mut i: usize = 0;
    while i < n
        invariant
            text.is_ascii(),
            n == text@.len(),
            n <= path@.len(),
            i <= n,
            forall|j: int| 0 <= j < i ==> path@[j] == ascii(text@)[j],
        decreases n - i,
    {
        if path[i] != text.get_ascii(i) {
            assert(path@.subrange(0, n as int)[i as int] != ascii(text@)[i as int]);
            return false;
        }
        i += 1;
    }
    assert(path@.subrange(0, n as int) =~= ascii(text@));
    true
}

/// Whether a byte occurs in `path` at or after `from`.
fn occurs_from(path: &[u8], from: usize, byte: u8) -> (occurs: bool)
    requires
        from <= path@.len(),
    ensures
        occurs == path@.skip(from as int).contains(byte),
{
    let mut i: usize = from;
    while i < path.len()
        invariant
            from <= i <= path@.len(),
            forall|j: int| from <= j < i ==> path@[j] != byte,
        decreases path@.len() - i,
    {
        if path[i] == byte {
            assert(path@.skip(from as int)[i - from] == byte);
            return true;
        }
        i += 1;
    }
    false
}

/// Reads the integer that a text writes, if it writes one.
pub fn parse_number(segment: &[u8]) -> (value: Option<i32>)
    ensures
        number(segment@) == match value {
            Some(value) => Some(value as int),
            None => None,
        },
{
    let n: usize = segment.len();
    if n == 0 {
        return None;
    }
    let first: u8 = segment[0];
    let negative = first == MINUS;
    let start: usize = if first == PLUS || first == MINUS { 1 } else { 0 };
    if start == n {
        return None;
    }
    let ghost digits = if start == 1 { segment@.skip(1) } else { segment@ };
    let mut magnitude: i64 = 0;
    let mut i: usize = start;
    while i < n
        invariant
            start <= i <= n,
            0 < n == segment@.len(),
            start == if segment@[0] == PLUS || segment@[0] == MINUS { 1int } else { 0int },
            negative == (segment@[0] == MINUS),
            digits == if start == 1 { segment@.skip(1) } else { segment@ },
            all_digits(digits.take(i - start)),
            magnitude == decimal(digits.take(i - start)),
            0 <= magnitude <= 2147483648,
        decreases n - i,
    {
        let byte: u8 = segment[i];
        if byte < DIGIT_ZERO || byte > DIGIT_NINE {
            assert(!is_digit(digits[i - start]));
            return None;
        }
        proof {
            assert(digits.take(i + 1 - start).drop_last() =~= digits.take(i - start));
        }
        magnitude = magnitude * 10 + (byte - DIGIT_ZERO) as i64;
        if magnitude > 2147483648 {
            proof {
                if all_digits(digits) {
                    lemma_decimal_grows(digits, i + 1 - start);
                }
            }
            return None;
        }
        i += 1;
    }
    assert(digits.take(n - start) =~= digits);
    if negative {
        Some((-magnitude) as i32)
    } else if magnitude > 2147483647 {
        None
    } else {
        Some(magnitude as i32)
    }
}

/// The value of a hexadecimal digit, if the byte is one.
fn hex_digit(byte: u8) -> (value: Option<u8>)
    ensures
        match value {
            Some(value) => is_hex(byte) && value == hex_value(byte),
            None => !is_hex(byte),
        },
{
    if DIGIT_ZERO <= byte && byte <= DIGIT_NINE {
        Some(byte - DIGIT_ZERO)
    } else if UPPER_A <= byte && byte <= UPPER_F {
        Some(byte - UPPER_A + 10)
    } else if LOWER_A <= byte && byte <= LOWER_F {
        Some(byte - LOWER_A + 10)
    } else {
        None
    }
}

/// The bytes that a path segment stands for.
pub fn percent_decode(segment: &[u8]) -> (decoded: Vec<u8>)
    ensures
        decoded@ == percent_decoded(segment@),
{
    let n: usize = segment.len();
    let mut decoded: Vec<u8> = Vec::new();
    let mut i: usize = 0;
    proof {
        assert(segment@.skip(0) =~= segment@);
        assert(decoded@ + percent_decoded(segment@) =~= percent_decoded(segment@));
    }
    while i < n
        invariant
            i <= n,
            n == segment@.len(),
            percent_decoded(segment@) == decoded@ + percent_decoded(segment@.skip(i as int)),
        decreases n - i,
    {
        let ghost rest = segment@.skip(i as int);
        let ghost before = decoded@;
        let byte: u8 = segment[i];
        let mut escaped: Option<u8> = None;
        if byte == PERCENT && n - i >= 3 {
            match (hex_digit(segment[i + 1]), hex_digit(segment[i + 2])) {
                (Some(high), Some(low)) => {
                    escaped = Some(16 * high + low);
                },
                _ => {},
            }
        }
        match escaped {
            Some(value) => {
                decoded.push(value);
                i += 3;
                proof {
                    assert(escape_ahead(rest));
                    assert(rest.skip(3) =~= segment@.skip(i as int));
                    assert(decoded@ + percent_decoded(rest.skip(3)) =~= before + percent_decoded(
                        rest,
                    ));
                }
            },
            None => {
                decoded.push(byte);
                i += 1;
                proof {
                    assert(!escape_ahead(rest));
                    assert(rest.skip(1) =~= segment@.skip(i as int));
                    assert(decoded@ + percent_decoded(rest.skip(1)) =~= before + percent_decoded(
                        rest,
                    ));
                }
            },
        }
    }
    assert(percent_decoded(segment@.skip(n as int)) =~= Seq::<u8>::empty());
    assert(decoded@ + Seq::<u8>::empty() =~= decoded@);
    decoded
}

/// Reads the identity that a path segment writes, if it writes one.
pub fn parse_identity(segment: &[u8]) -> (id: Option<i32>)
    ensures
        identity(segment@) == match id {
            Some(value) => Some(value as int),
            None => None,
        },
{
    let decoded = percent_decode(segment);
    parse_number(decoded.as_slice())
}

/// Looks a request up in the route table.
pub fn route(method: Method, path: &[u8]) -> (route: Result<Route, Status>)
    ensures
        route == routed(method, path@),
{
    proof {
        reveal_strlit("/users");
        reveal_strlit("/posts");
        reveal_strlit("/posts/");
    }
    if is_text(path, "/users") {
        match method {
            Method::Post => Ok(Route::CreateUser),
            _ => Err(Status::MethodNotAllowed),
        }
    } else if is_text(path, "/posts") {
        match method {
            Method::Post => Ok(Route::CreatePost),
            _ => Err(Status::MethodNotAllowed),
        }
    } else if begins_with_text(path, "/posts/") && path.len() > 7 && !occurs_from(path, 7, SLASH) {
        assert(path@.skip(7) =~= path@.subrange(7, path@.len() as int));
        match method {
            Method::Get | Method::Head | Method::Put | Method::Delete => {
                match parse_identity(slice_subrange(path, 7, path.len())) {
                    None => Err(Status::BadRequest),
                    Some(id) => Ok(
                        match method {
                            Method::Get | Method::Head => Route::GetPosts(id),
                            Method::Put => Route::UpdatePost(id),
                            _ => Route::DeletePost(id),
                        },
                    ),
                }
            },
            _ => Err(Status::MethodNotAllowed),
        }
    } else {
        Err(Status::NotFound)
    }
}

} // verus!
