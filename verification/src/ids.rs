use vstd::prelude::*;

verus! {

/// Whether `c` is a lower-case hexadecimal digit.
pub open spec fn is_lower_hex(c: char) -> bool {
    ('0' <= c <= '9') || ('a' <= c <= 'f')
}

/// A fresh random (version 4) UUID in its hyphenated text form
/// (`uuid::Uuid::new_v4().to_string()`).
/// Trusted: uuid's `Display` writes the hyphenated lower-case form, 36
/// characters with `-` at positions 8, 13, 18 and 23 and lower-case hex digits
/// elsewhere; which digits is left open, since they are random.
#[verifier::external_body]
pub(crate) fn new_uuid_text() -> (r: String)
    ensures
        r@.len() == 36,
        forall|i: int|
            0 <= i < 36 ==> if i == 8 || i == 13 || i == 18 || i == 23 {
                r@[i] == '-'
            } else {
                is_lower_hex(#[trigger] r@[i])
            },
{
    uuid::Uuid::new_v4().to_string()
}

/// An identifier made of `prefix` and the first eight characters of `uuid`.
pub open spec fn short_id_text(prefix: Seq<char>, uuid: Seq<char>) -> Seq<char> {
    prefix + uuid.take(8)
}

/// `prefix` followed by the first eight characters of `uuid`.
pub fn short_id(prefix: &str, uuid: &str) -> (r: String)
    requires
        uuid@.len() >= 8,
    ensures
        r@ == short_id_text(prefix@, uuid@),
{
    let mut r = String::from_str(prefix);
    r.append(uuid.substring_char(0, 8));
    assert(uuid@.subrange(0, 8) =~= uuid@.take(8));
    r
}

/// Whether `id` is `prefix` followed by eight lower-case hex digits.
pub open spec fn is_short_id(id: Seq<char>, prefix: Seq<char>) -> bool {
    &&& id.len() == prefix.len() + 8
    &&& id.take(prefix.len() as int) == prefix
    &&& forall|i: int| prefix.len() <= i < id.len() ==> is_lower_hex(#[trigger] id[i])
}

/// A fresh identifier: `prefix` and eight random lower-case hex digits.
pub fn fresh_id(prefix: &str) -> (r: String)
    ensures
        is_short_id(r@, prefix@),
{
    let uuid = new_uuid_text();
    let r = short_id(prefix, uuid.as_str());
    assert(r@.take(prefix@.len() as int) =~= prefix@);
    assert forall|i: int| prefix@.len() <= i < r@.len() implies is_lower_hex(#[trigger] r@[i]) by {
        assert(r@[i] == uuid@[i - prefix@.len()]);
        assert(is_lower_hex(uuid@[i - prefix@.len()]));
    }
    r
}

} // verus!
