//! Short-code generation from random version-4 UUIDs.
use uuid::Uuid;
use vstd::prelude::*;
use vstd::string::StrSliceExecFns;

verus! {

/// Number of characters in every generated short code.
pub const SHORT_CODE_LEN: usize = 8;

#[verifier::external_type_specification]
#[verifier::external_body]
pub struct ExUuid(Uuid);

/// Relies on `uuid::Uuid::new_v4`: a random identifier, of which nothing
/// beyond its type is promised.
pub assume_specification[ uuid::Uuid::new_v4 ]() -> Uuid;

/// A lower-case hexadecimal digit.
pub open spec fn is_lower_hex_digit(c: char) -> bool {
    ('0' <= c && c <= '9') || ('a' <= c && c <= 'f')
}

/// Positions of the hyphens in the canonical 8-4-4-4-12 text of a UUID.
pub open spec fn is_hyphen_position(i: int) -> bool {
    i == 8 || i == 13 || i == 18 || i == 23
}

/// The canonical hyphenated lower-case text of a UUID.
pub open spec fn is_uuid_text(s: Seq<char>) -> bool {
    &&& s.len() == 36
    &&& forall|i: int|
        0 <= i < 36 ==> if is_hyphen_position(i) {
            s[i] == '-'
        } else {
            is_lower_hex_digit(#[trigger] s[i])
        }
}

/// A well-formed short code: eight lower-case hexadecimal digits.
pub open spec fn is_short_code(s: Seq<char>) -> bool {
    &&& s.len() == SHORT_CODE_LEN
    &&& forall|i: int| 0 <= i < s.len() ==> is_lower_hex_digit(#[trigger] s[i])
}

/// Relies on uuid's `Display` for `Uuid` (reached through `ToString`), which
/// writes the hyphenated form: 32 lower-case hex digits in groups 8-4-4-4-12.
#[verifier::external_body]
fn uuid_text(id: &Uuid) -> (r: String)
    ensures
        is_uuid_text(r@),
{
    id.to_string()
}

/// Takes the short code out of the canonical text of a UUID: its first eight
/// characters, which are all hexadecimal digits.
pub fn short_code_of(text: &str) -> (r: String)
    requires
        is_uuid_text(text@),
    ensures
        r@ == text@.subrange(0, SHORT_CODE_LEN as int),
        is_short_code(r@),
{
    assert(vstd::string::is_ascii(text)) by {
        assert forall|i: int| 0 <= i < text@.len() implies '\0' <= #[trigger] text@[i] <= '\u{7f}' by {
            if !is_hyphen_position(i) {
                assert(is_lower_hex_digit(text@[i]));
            }
        }
    }
    let head = text.substring_ascii(0, SHORT_CODE_LEN);
    let r = head.to_string();
    proof {
        vstd::string::to_string_from_display_ensures_for_str(head, r);
        assert forall|i: int| 0 <= i < r@.len() implies is_lower_hex_digit(#[trigger] r@[i]) by {
            assert(r@[i] == text@[i]);
            assert(!is_hyphen_position(i));
        }
    }
    r
}

/// Produces a fresh short code from a random version-4 UUID. Collisions are
/// possible but unlikely; the code is not checked against any store.
pub fn generate_short_code() -> (r: String)
    ensures
        is_short_code(r@),
{
    let id = Uuid::new_v4();
    let text = uuid_text(&id);
    short_code_of(text.as_str())
}

} // verus!
