//! Identifiers of process-tracker entries and of task batches.
use vstd::prelude::*;

verus! {

/// A lowercase hexadecimal digit.
pub open spec fn is_lower_hex_digit(c: char) -> bool {
    ('0' as int <= c as int <= '9' as int) || ('a' as int <= c as int <= 'f' as int)
}

/// The hyphenated lowercase text of a random (version 4) UUID:
/// `xxxxxxxx-xxxx-4xxx-Vxxx-xxxxxxxxxxxx` with `V` one of `8`, `9`, `a`, `b`.
pub open spec fn is_v4_uuid_text(s: Seq<char>) -> bool {
    &&& s.len() == 36
    &&& forall|i: int| 0 <= i < 36 ==>
        if i == 8 || i == 13 || i == 18 || i == 23 {
            #[trigger] s[i] == '-'
        } else {
            is_lower_hex_digit(s[i])
        }
    &&& s[14] == '4'
    &&& (s[19] == '8' || s[19] == '9' || s[19] == 'a' || s[19] == 'b')
}

/// A fresh random identifier: `uuid::Uuid::new_v4()` written out with its
/// `Display` impl. Which UUID comes back is left open; its shape is stated.
#[verifier::external_body]
pub fn new_batch_id() -> (id: String)
    ensures
        is_v4_uuid_text(id@),
{
    uuid::Uuid::new_v4().to_string()
}

/// The id of a process-tracker entry: its four parts joined by `_`.
pub fn get_process_tracker_id(runner: &str, task_name: &str, txn_id: &str, merchant_id: &str) -> (id: String)
    ensures
        id@ == runner@ + seq!['_'] + task_name@ + seq!['_'] + txn_id@ + seq!['_'] + merchant_id@,
{
    proof { reveal_strlit("_"); }
    let mut id = String::from_str(runner);
    id.append("_");
    id.append(task_name);
    id.append("_");
    id.append(txn_id);
    id.append("_");
    id.append(merchant_id);
    id
}

} // verus!
