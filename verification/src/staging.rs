//! Naming the temporary directory that takes an extracted executable.
//!
//! Every run writes into a directory of its own, told apart from all others
//! by a random identifier in its name.

use vstd::prelude::*;

verus! {

/// Whether `c` is a lower-case hexadecimal digit.
pub open spec fn is_lower_hex(c: char) -> bool {
    ('0' <= c <= '9') || ('a' <= c <= 'f')
}

/// Whether a hyphen stands at position `i` of a random identifier.
pub open spec fn is_hyphen_position(i: int) -> bool {
    i == 8 || i == 13 || i == 18 || i == 23
}

/// Whether `id` has the shape of a random identifier: 32 lower-case
/// hexadecimal digits in groups of 8, 4, 4, 4 and 12, with a hyphen
/// between two groups.
pub open spec fn is_random_id(id: Seq<char>) -> bool {
    &&& id.len() == 36
    &&& forall|i: int|
        0 <= i < id.len() ==> if is_hyphen_position(i) {
            #[trigger] id[i] == '-'
        } else {
            is_lower_hex(id[i])
        }
}

/// `uuid::Uuid::new_v4` in its `Display` form: a fresh random identifier,
/// written as 32 lower-case hexadecimal digits in five groups that hyphens
/// part.
#[verifier::external_body]
fn random_id() -> (id: String)
    ensures
        is_random_id(id@),
{
    uuid::Uuid::new_v4().to_string()
}

/// Whether `name` is `prefix`, a hyphen and a random identifier.
pub open spec fn is_temp_dir_name(name: Seq<char>, prefix: Seq<char>) -> bool {
    &&& name.len() == prefix.len() + 37
    &&& name.take(prefix.len() as int + 1) == prefix + seq!['-']
    &&& is_random_id(name.skip(prefix.len() as int + 1))
}

/// A name for a fresh temporary directory: `prefix`, a hyphen and a random
/// identifier drawn for this call.
pub fn temp_dir_name(prefix: &str) -> (name: String)
    ensures
        is_temp_dir_name(name@, prefix@),
{
    let id = random_id();
    let mut name = prefix.to_owned();
    name.append("-");
    name.append(id.as_str());
    proof {
        reveal_strlit("-");
        assert(name@.take(prefix@.len() as int + 1) =~= prefix@ + seq!['-']);
        assert(name@.skip(prefix@.len() as int + 1) =~= id@);
    }
    name
}

} // verus!
