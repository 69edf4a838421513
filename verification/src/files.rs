//! Names of the staging files that transfers write before moving them into place.
use vstd::prelude::*;

use crate::text::{decimal, push_decimal};

verus! {

/// The staging file name for a transfer to a file named `name` (or a stand-in
/// name when the path has none): `.remotext-{label}-{pid}-{random}-{name}.tmp`.
pub open spec fn temp_name_text(label: Seq<char>, pid: u32, random: u64, name: Option<Seq<char>>) -> Seq<char> {
    ".remotext-"@ + label + "-"@ + decimal(pid as nat) + "-"@ + decimal(random as nat) + "-"@ + match name {
        Some(n) => n,
        None => "remotext-file"@,
    } + ".tmp"@
}

/// The staging file name; the caller puts it in the target's directory.
pub fn temp_file_name(label: &str, pid: u32, random: u64, name: Option<&str>) -> (r: String)
    ensures
        r@ == temp_name_text(label@, pid, random, match name {
            Some(n) => Some(n@),
            None => None,
        }),
{
    let mut s = String::from_str(".remotext-");
    s.append(label);
    s.append("-");
    push_decimal(&mut s, pid as u64);
    s.append("-");
    push_decimal(&mut s, random);
    s.append("-");
    match name {
        Some(n) => s.append(n),
        None => s.append("remotext-file"),
    }
    s.append(".tmp");
    s
}

} // verus!
