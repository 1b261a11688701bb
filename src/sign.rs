//! The decisions around signing: whether Xcode's command-line tools are there,
//! and what an answer to the offer to install them says.
use vstd::prelude::*;

verus! {

/// What an answer to "Install XCode? (Y/n)" says: yes where it starts with `y`,
/// no where it starts with `n`, in either case; nothing otherwise.
pub open spec fn answer_of(line: Seq<char>) -> Option<bool> {
    if line.len() > 0 && (line[0] == 'y' || line[0] == 'Y') {
        Some(true)
    } else if line.len() > 0 && (line[0] == 'n' || line[0] == 'N') {
        Some(false)
    } else {
        None
    }
}

/// Reads an answer to the offer to install Xcode's command-line tools; `None`
/// asks for the question to be put again.
pub fn install_answer(line: &str) -> (r: Option<bool>)
    ensures
        r == answer_of(line@),
{
    if line.unicode_len() == 0 {
        return None;
    }
    let c = line.get_char(0);
    if c == 'y' || c == 'Y' {
        Some(true)
    } else if c == 'n' || c == 'N' {
        Some(false)
    } else {
        None
    }
}

/// Signing needs Xcode's command-line tools: fails where they are not there,
/// and were not installed on request.
pub fn sign(xcode_installed: bool) -> (r: Result<(), String>)
    ensures
        xcode_installed ==> r is Ok,
        !xcode_installed ==> r is Err && r->Err_0@ == "No valid XCode installation detected. Aborting."@,
{
    if !xcode_installed {
        return Err(String::from_str("No valid XCode installation detected. Aborting."));
    }
    Ok(())
}

} // verus!
