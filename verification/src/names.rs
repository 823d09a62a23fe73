//! Names that no other file has.
use vstd::prelude::*;

verus! {

/// A lower-case hexadecimal digit.
pub open spec fn is_hex(c: char) -> bool {
    48 <= c as int <= 57 || 97 <= c as int <= 102
}

/// The text of a random UUID: 36 characters, hyphens at the four usual
/// places, lower-case hexadecimal digits elsewhere, the digit 4 for its version
/// and one of 8, 9, a and b for its variant.
pub open spec fn is_random_uuid(text: Seq<char>) -> bool {
    &&& text.len() == 36
    &&& text[14] == '4'
    &&& text[19] == '8' || text[19] == '9' || text[19] == 'a' || text[19] == 'b'
    &&& forall|i: int|
        0 <= i < 36 ==> if i == 8 || i == 13 || i == 18 || i == 23 {
            #[trigger] text[i] == '-'
        } else {
            is_hex(text[i])
        }
}

/// `uuid::Uuid::new_v4`, written with its `Display`. Which UUID it is depends
/// on chance; its form does not. The random bytes are the system's: where it
/// has none to give, the call does not return.
#[verifier::external_body]
fn random_uuid() -> (uuid: String)
    ensures
        is_random_uuid(uuid@),
{
    uuid::Uuid::new_v4().to_string()
}

/// `prefix-uuid.extension`.
pub fn unique_name(prefix: &str, uuid: &str, extension: &str) -> (name: String)
    ensures
        name@ == prefix@ + "-"@ + uuid@ + "."@ + extension@,
{
    let mut name = prefix.to_owned();
    name.append("-");
    name.append(uuid);
    name.append(".");
    name.append(extension);
    name
}

/// A file name for one job that no other job has.
pub fn job_file_name(prefix: &str, extension: &str) -> (name: String)
    ensures
        exists|uuid: Seq<char>| #[trigger]
            is_random_uuid(uuid) && name@ == prefix@ + "-"@ + uuid + "."@ + extension@,
{
    let uuid = random_uuid();
    let name = unique_name(prefix, &uuid, extension);
    assert(is_random_uuid(uuid@) && name@ == prefix@ + "-"@ + uuid@ + "."@ + extension@);
    name
}

/// The hidden file whose creation shows that a folder can be written.
pub fn probe_name(uuid: &str) -> (name: String)
    ensures
        name@ == ".warcraft-recorder-probe-"@ + uuid@,
{
    let mut name = ".warcraft-recorder-probe-".to_owned();
    name.append(uuid);
    name
}

/// A probe file name that is not in use.
pub fn fresh_probe_name() -> (name: String)
    ensures
        exists|uuid: Seq<char>| #[trigger]
            is_random_uuid(uuid) && name@ == ".warcraft-recorder-probe-"@ + uuid,
{
    let uuid = random_uuid();
    let name = probe_name(&uuid);
    assert(is_random_uuid(uuid@) && name@ == ".warcraft-recorder-probe-"@ + uuid@);
    name
}

} // verus!
